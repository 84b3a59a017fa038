use vstd::prelude::*;
use vstd::string::*;

verus! {

/// Longest name, title, owner or referential field accepted, in bytes.
pub const MAX_NAME_LEN: usize = 255;

/// Longest description of a business value or an asset, in bytes.
pub const MAX_DESCRIPTION_LEN: usize = 1000;

/// Longest impact list or gap text accepted, in bytes.
pub const MAX_LONG_TEXT_LEN: usize = 2000;

pub open spec fn is_digit(c: char) -> bool {
    '0' <= c && c <= '9'
}

/// The value of a run of decimal digits.
pub open spec fn digits_value(d: Seq<char>) -> int
    decreases d.len(),
{
    if d.len() == 0 {
        0
    } else {
        digits_value(d.drop_last()) * 10 + (d.last() as u32 - '0' as u32)
    }
}

pub open spec fn all_digits(d: Seq<char>) -> bool {
    forall|i: int| 0 <= i < d.len() ==> is_digit(#[trigger] d[i])
}

/// The digits after an optional sign.
pub open spec fn unsigned_part(s: Seq<char>) -> Seq<char> {
    if s.len() > 0 && (s[0] == '-' || s[0] == '+') {
        s.skip(1)
    } else {
        s
    }
}

/// The integer that a text writes in decimal: an optional `+` or `-`, then at
/// least one digit and nothing else; `None` for anything else, or for a value
/// outside `i32`.
pub open spec fn parsed_i32(s: Seq<char>) -> Option<i32> {
    let body = unsigned_part(s);
    let v = if s.len() > 0 && s[0] == '-' { -digits_value(body) } else { digits_value(body) };
    if body.len() > 0 && all_digits(body) && i32::MIN <= v <= i32::MAX {
        Some(v as i32)
    } else {
        None
    }
}

proof fn lemma_digits_grow(d: Seq<char>, k: int)
    requires
        0 <= k <= d.len(),
        forall|i: int| 0 <= i < d.len() ==> is_digit(#[trigger] d[i]),
    ensures
        digits_value(d.take(k)) <= digits_value(d),
        0 <= digits_value(d),
    decreases d.len(),
{
    if d.len() > 0 {
        let init = d.drop_last();
        assert forall|i: int| 0 <= i < init.len() implies is_digit(#[trigger] init[i]) by {
            assert(init[i] == d[i]);
        }
        if k == d.len() {
            assert(d.take(k) =~= d);
            lemma_digits_grow(init, 0);
        } else {
            assert(d.take(k) =~= init.take(k));
            lemma_digits_grow(init, k);
        }
        assert(is_digit(d[d.len() - 1]));
    }
}

/// Reads a decimal `i32`, as `str::parse::<i32>` does.
pub fn parse_i32(text: &str) -> (r: Option<i32>)
    ensures
        r == parsed_i32(text@),
{
    let n = text.unicode_len();
    if n == 0 {
        return None;
    }
    let first = text.get_char(0);
    let negative = first == '-';
    let start: usize = if first == '-' || first == '+' { 1 } else { 0 };
    let ghost body = unsigned_part(text@);
    assert(body =~= text@.skip(start as int));
    if start == n {
        return None;
    }
    let mut acc: i64 = 0;
    let mut i: usize = start;
    while i < n
        invariant
            start <= i <= n,
            n == text@.len(),
            body == unsigned_part(text@),
            body =~= text@.skip(start as int),
            negative == (text@[0] == '-'),
            0 <= acc <= 0x8000_0000,
            acc == digits_value(body.take(i - start)),
            forall|k: int| 0 <= k < i - start ==> is_digit(#[trigger] body[k]),
        decreases n - i,
    {
        let c = text.get_char(i);
        let ghost prefix = body.take(i - start);
        if !('0' <= c && c <= '9') {
            assert(body[i - start] == c);
            assert(!is_digit(body[i - start]));
            assert(!all_digits(body));
            return None;
        }
        acc = acc * 10 + ((c as u32) - ('0' as u32)) as i64;
        i = i + 1;
        proof {
            let now = body.take(i - start);
            assert(now.drop_last() =~= prefix);
            assert(now.last() == c);
            assert(body[i - 1 - start] == c);
            assert(acc == digits_value(now));
        }
        if acc > 0x8000_0000 {
            proof {
                if all_digits(body) {
                    lemma_digits_grow(body, i - start);
                    assert(digits_value(body) > 0x8000_0000);
                }
            }
            return None;
        }
    }
    assert(body.take(n - start) =~= body);
    if negative {
        Some((-acc) as i32)
    } else if acc > 0x7fff_ffff {
        None
    } else {
        Some(acc as i32)
    }
}

/// A score of a scenario: an integer from 1 to 6.
pub fn parse_score(text: &str) -> (r: Option<i32>)
    ensures
        r == match parsed_i32(text@) {
            Some(v) => if 1 <= v <= 6 { Some(v) } else { None },
            None => None,
        },
{
    match parse_i32(text) {
        Some(v) => if 1 <= v && v <= 6 { Some(v) } else { None },
        None => None,
    }
}

/// The gravity of a feared event: an integer from 1 to 4.
pub fn parse_gravity(text: &str) -> (r: Option<i32>)
    ensures
        r == match parsed_i32(text@) {
            Some(v) => if 1 <= v <= 4 { Some(v) } else { None },
            None => None,
        },
{
    match parse_i32(text) {
        Some(v) => if 1 <= v && v <= 4 { Some(v) } else { None },
        None => None,
    }
}

/// How far a countermeasure is solved, in percent: a text that is not an
/// integer counts as 0; a value outside 0..=100 is refused.
pub fn parse_solved(text: &str) -> (r: Option<i32>)
    ensures
        r == ({
            let v = match parsed_i32(text@) {
                Some(v) => v,
                None => 0,
            };
            if 0 <= v <= 100 { Some(v) } else { None::<i32> }
        }),
{
    let v = match parse_i32(text) {
        Some(v) => v,
        None => 0,
    };
    if 0 <= v && v <= 100 { Some(v) } else { None }
}

/// Whether a text is at most `max` bytes long.
pub fn within_limit(text: &str, max: usize) -> (r: bool)
    ensures
        r == (text.len() <= max),
{
    text.len() <= max
}

/// The nature of a business value: "processus" or "information".
pub fn is_value_nature(text: &str) -> (r: bool)
    ensures
        r == (text@ == "processus"@ || text@ == "information"@),
{
    let t = String::from_str(text);
    t == String::from_str("processus") || t == String::from_str("information")
}

} // verus!
