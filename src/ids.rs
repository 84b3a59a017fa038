use vstd::prelude::*;
use vstd::string::*;

verus! {

/// A random 128-bit token: the identifier of a risk, a scenario or a
/// countermeasure. (Missions, business values, assets and the other records
/// are identified by the store's sequence numbers, plain `i32`s.)
#[derive(Debug, Clone, Copy, PartialEq, Eq, Structural, Hash)]
pub struct Token {
    pub value: u128,
}

/// The hyphenated lower-case text of a 128-bit identifier.
pub uninterp spec fn uuid_text(v: u128) -> Seq<char>;

/// What parsing a text as a 128-bit identifier gives.
pub uninterp spec fn parsed_uuid(s: Seq<char>) -> Option<u128>;

/// Relies on uuid::Uuid::new_v4: a random value whose version nibble is 4 and
/// whose variant bits are 10.
#[verifier::external_body]
fn random_v4() -> (r: u128)
    ensures
        (r >> 76u128) & 0xf == 4,
        (r >> 62u128) & 0x3 == 2,
{
    uuid::Uuid::new_v4().as_u128()
}

/// Relies on uuid's `Display` for `Uuid`: the 36-character hyphenated form.
#[verifier::external_body]
fn hyphenated(v: u128) -> (r: String)
    ensures
        r@ == uuid_text(v),
        r@.len() == 36,
{
    uuid::Uuid::from_u128(v).to_string()
}

/// Relies on uuid::Uuid::parse_str: the identifier a text denotes, if any.
#[verifier::external_body]
fn parse_uuid(s: &str) -> (r: Option<u128>)
    ensures
        r == parsed_uuid(s@),
{
    uuid::Uuid::parse_str(s).ok().map(|u| u.as_u128())
}

/// Whether a token carries the version-4 and variant bits of a random token.
pub open spec fn is_v4(v: u128) -> bool {
    &&& (v >> 76u128) & 0xf == 4
    &&& (v >> 62u128) & 0x3 == 2
}

impl Token {
    /// A fresh random token.
    pub fn random() -> (r: Token)
        ensures
            is_v4(r.value),
    {
        Token { value: random_v4() }
    }

    /// The token's hyphenated text, as stored.
    pub fn text(&self) -> (r: String)
        ensures
            r@ == uuid_text(self.value),
            r@.len() == 36,
    {
        hyphenated(self.value)
    }

    /// Reads a token from its text.
    pub fn parse(s: &str) -> (r: Option<Token>)
        ensures
            r == match parsed_uuid(s@) {
                Some(v) => Some(Token { value: v }),
                None => None::<Token>,
            },
    {
        match parse_uuid(s) {
            Some(v) => Some(Token { value: v }),
            None => None,
        }
    }
}

/// The short id shown for a token: the first eight characters of its text.
pub fn get_id(uuid: Token) -> (r: String)
    ensures
        r@ == uuid_text(uuid.value).take(8),
{
    let t = uuid.text();
    let s = t.as_str().substring_char(0, 8);
    assert(s@ =~= uuid_text(uuid.value).take(8));
    String::from_str(s)
}

/// The text of a fresh random token.
pub fn generate_request_uuid() -> (r: String)
    ensures
        exists|v: u128| is_v4(v) && r@ == uuid_text(v),
{
    let t = Token::random();
    t.text()
}

} // verus!
