use vstd::prelude::*;
use vstd::string::*;

verus! {

/// The SHA-512 digest of a text's UTF-8 bytes.
pub uninterp spec fn sha512_of(s: Seq<char>) -> Seq<u8>;

/// What matching a text against a regular expression gives: `None` when the
/// pattern does not compile, else whether the text has a match.
pub uninterp spec fn regex_verdict(pattern: Seq<char>, text: Seq<char>) -> Option<bool>;

/// Relies on sha2's `Digest::digest` for `Sha512`: the 64-byte digest of the
/// text's bytes.
#[verifier::external_body]
fn sha512_digest(input: &str) -> (r: Vec<u8>)
    ensures
        r@ == sha512_of(input@),
        r@.len() == 64,
{
    <sha2::Sha512 as sha2::Digest>::digest(input.as_bytes()).to_vec()
}

/// Relies on regex's `Regex::new` and `Regex::is_match`: compiles the pattern
/// and searches the text with it.
#[verifier::external_body]
fn pattern_verdict(pattern: &str, text: &str) -> (r: Option<bool>)
    ensures
        r == regex_verdict(pattern@, text@),
{
    regex::Regex::new(pattern).ok().map(|re| re.is_match(text))
}

pub open spec fn hex_digit(n: int) -> char {
    "0123456789abcdef"@[n]
}

/// Two lower-case hex digits per byte, high nibble first.
pub open spec fn hex_text(bytes: Seq<u8>) -> Seq<char>
    decreases bytes.len(),
{
    if bytes.len() == 0 {
        Seq::empty()
    } else {
        let b = bytes.last() as int;
        hex_text(bytes.drop_last()) + seq![hex_digit(b / 16), hex_digit(b % 16)]
    }
}

/// Writes bytes as lower-case hex.
pub fn hex_lower(bytes: &Vec<u8>) -> (r: String)
    ensures
        r@ == hex_text(bytes@),
{
    let digits = "0123456789abcdef";
    proof {
        reveal_strlit("0123456789abcdef");
    }
    let mut r = String::new();
    let mut i: usize = 0;
    while i < bytes.len()
        invariant
            i <= bytes.len(),
            digits@ == "0123456789abcdef"@,
            digits@.len() == 16,
            r@ == hex_text(bytes@.take(i as int)),
        decreases bytes.len() - i,
    {
        let b = bytes[i];
        let hi = (b / 16) as usize;
        let lo = (b % 16) as usize;
        let h = digits.substring_char(hi, hi + 1);
        let l = digits.substring_char(lo, lo + 1);
        let ghost before = r@;
        r.append(h);
        r.append(l);
        i = i + 1;
        proof {
            let now = bytes@.take(i as int);
            assert(now.drop_last() =~= bytes@.take(i - 1));
            assert(now.last() == b);
            assert(r@ =~= hex_text(now));
        }
    }
    assert(bytes@.take(i as int) =~= bytes@);
    r
}

/// The SHA-512 digest of a text, in lower-case hex.
pub fn sha512_string(input: &str) -> (r: String)
    ensures
        r@ == hex_text(sha512_of(input@)),
        r@.len() == 128,
{
    let d = sha512_digest(input);
    let r = hex_lower(&d);
    proof { lemma_hex_len(d@); }
    r
}

proof fn lemma_hex_len(bytes: Seq<u8>)
    ensures
        hex_text(bytes).len() == 2 * bytes.len(),
    decreases bytes.len(),
{
    if bytes.len() > 0 {
        lemma_hex_len(bytes.drop_last());
    }
}

pub const EMAIL_PATTERN: &'static str = r"^[a-zA-Z0-9._%+-]+@[a-zA-Z0-9.-]+\.[a-zA-Z]{2,10}$";
pub const USERNAME_PATTERN: &'static str = r"^[a-zA-Z0-9._-]{3,25}$";
pub const DISPLAY_NAME_PATTERN: &'static str = r"^[a-zA-Z0-9\ ._-]{3,25}$";
pub const TEXT_PATTERN: &'static str = r"^[a-zA-Z0-9<>'\ \:.,_-]{3,200}$";
pub const OPTIONAL_TEXT_PATTERN: &'static str = r"^[a-zA-Z0-9<>'\ \:.,_-]{0,200}$";
pub const SQL_ARG_PATTERN: &'static str = r"^[a-zA-Z0-9<>'\ \:.,_-]{1,100}$";
pub const SQL_INJECTION_PATTERN: &'static str = r"[;#]{1,}";
pub const UUID_V4_PATTERN: &'static str = r"^[0-9a-f]{8}-[0-9a-f]{4}-4[0-9a-f]{3}-[89ab][0-9a-f]{3}-[0-9a-f]{12}$";
pub const URL_PATTERN: &'static str = r"^(https?://)?(?:[\w-]+\.)?[\w-]+\.[a-zA-Z]{2,}(?:/[\w/]{1,100})?$";
pub const LOCAL_URL_PATTERN: &'static str = r"^(?:/[\w\./]{1,100})$";
pub const DOMAIN_PATTERN: &'static str = r"^[a-zA-Z0-9\.-]{3,25}$";

/// Whether the text has a match of the pattern; a pattern that does not
/// compile matches nothing.
pub fn matches_pattern(pattern: &str, text: &str) -> (r: bool)
    ensures
        r == (regex_verdict(pattern@, text@) == Some(true)),
{
    match pattern_verdict(pattern, text) {
        Some(found) => found,
        None => false,
    }
}

/// An e-mail address.
pub fn is_valid_email(email: &str) -> (r: bool)
    ensures
        r == (regex_verdict(EMAIL_PATTERN@, email@) == Some(true)),
{
    matches_pattern(EMAIL_PATTERN, email)
}

/// 3 to 25 letters, digits, dots, underscores or hyphens.
pub fn is_valid_username(username: &str) -> (r: bool)
    ensures
        r == (regex_verdict(USERNAME_PATTERN@, username@) == Some(true)),
{
    matches_pattern(USERNAME_PATTERN, username)
}

/// As a user name, spaces allowed.
pub fn is_valid_dpusername(dpusername: &str) -> (r: bool)
    ensures
        r == (regex_verdict(DISPLAY_NAME_PATTERN@, dpusername@) == Some(true)),
{
    matches_pattern(DISPLAY_NAME_PATTERN, dpusername)
}

/// 3 to 200 characters of plain text.
pub fn is_valid_text(text: &str) -> (r: bool)
    ensures
        r == (regex_verdict(TEXT_PATTERN@, text@) == Some(true)),
{
    matches_pattern(TEXT_PATTERN, text)
}

/// Up to 200 characters of plain text.
pub fn is_valid_text_can_be_null(text: &str) -> (r: bool)
    ensures
        r == (regex_verdict(OPTIONAL_TEXT_PATTERN@, text@) == Some(true)),
{
    matches_pattern(OPTIONAL_TEXT_PATTERN, text)
}

/// 1 to 100 characters of plain text.
pub fn is_valid_sql_args(text: &str) -> (r: bool)
    ensures
        r == (regex_verdict(SQL_ARG_PATTERN@, text@) == Some(true)),
{
    matches_pattern(SQL_ARG_PATTERN, text)
}

/// Whether the text holds a statement separator or a comment mark.
pub fn sql_inject(text: &str) -> (r: bool)
    ensures
        r == (regex_verdict(SQL_INJECTION_PATTERN@, text@) == Some(true)),
{
    matches_pattern(SQL_INJECTION_PATTERN, text)
}

/// The hyphenated lower-case text of a version-4 token.
pub fn is_uuid_v4(input: &str) -> (r: bool)
    ensures
        r == (regex_verdict(UUID_V4_PATTERN@, input@) == Some(true)),
{
    matches_pattern(UUID_V4_PATTERN, input)
}

/// A web address, with or without scheme.
pub fn is_valid_url(input: &str) -> (r: bool)
    ensures
        r == (regex_verdict(URL_PATTERN@, input@) == Some(true)),
{
    matches_pattern(URL_PATTERN, input)
}

/// A local path.
pub fn is_valid_url_local(input: &str) -> (r: bool)
    ensures
        r == (regex_verdict(LOCAL_URL_PATTERN@, input@) == Some(true)),
{
    matches_pattern(LOCAL_URL_PATTERN, input)
}

/// A domain name of 3 to 25 characters.
pub fn is_valid_domain(input: &str) -> (r: bool)
    ensures
        r == (regex_verdict(DOMAIN_PATTERN@, input@) == Some(true)),
{
    matches_pattern(DOMAIN_PATTERN, input)
}

} // verus!
