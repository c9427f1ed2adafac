//! Identifiers in their textual form: user ids as they are written to the
//! session store, and the session tokens that are handed to clients.
//!
//! A user id is a 128-bit value. Its text is the canonical UUID form:
//! thirty-two lowercase hexadecimal digits, most significant first, in
//! groups of 8, 4, 4, 4 and 12 separated by hyphens.
//!
//! A session token is the texts of two random UUIDs, one after the other.
//! One random UUID has 122 random bits; two have more than the 128 that a
//! token needs.

use vstd::prelude::*;
use vstd::string::StringExecFns;
use uuid::Uuid;

verus! {

/// The lowercase hexadecimal digit for `n`, where `0 <= n < 16`.
pub open spec fn hex_digit(n: int) -> char {
    if n == 0 {
        '0'
    } else if n == 1 {
        '1'
    } else if n == 2 {
        '2'
    } else if n == 3 {
        '3'
    } else if n == 4 {
        '4'
    } else if n == 5 {
        '5'
    } else if n == 6 {
        '6'
    } else if n == 7 {
        '7'
    } else if n == 8 {
        '8'
    } else if n == 9 {
        '9'
    } else if n == 10 {
        'a'
    } else if n == 11 {
        'b'
    } else if n == 12 {
        'c'
    } else if n == 13 {
        'd'
    } else if n == 14 {
        'e'
    } else {
        'f'
    }
}

/// Sixteen to the power `e`.
pub open spec fn pow16(e: nat) -> int
    decreases e,
{
    if e == 0 {
        1
    } else {
        16 * pow16((e - 1) as nat)
    }
}

/// The `k`-th of the thirty-two hexadecimal digits of `id`, counted from the
/// most significant one.
pub open spec fn nibble(id: u128, k: int) -> int {
    (id as int / pow16((31 - k) as nat)) % 16
}

/// Whether position `i` of the canonical form holds a hyphen.
pub open spec fn is_hyphen_position(i: int) -> bool {
    i == 8 || i == 13 || i == 18 || i == 23
}

/// How many hyphens stand before position `i` of the canonical form.
pub open spec fn hyphens_before(i: int) -> int {
    if i < 8 {
        0
    } else if i < 13 {
        1
    } else if i < 18 {
        2
    } else if i < 23 {
        3
    } else {
        4
    }
}

/// The canonical text of `id`: `xxxxxxxx-xxxx-xxxx-xxxx-xxxxxxxxxxxx`.
pub open spec fn uuid_text(id: u128) -> Seq<char> {
    Seq::new(
        36,
        |i: int|
            if is_hyphen_position(i) {
                '-'
            } else {
                hex_digit(nibble(id, i - hyphens_before(i)))
            },
    )
}

/// The id that the UUID parser reads from `text`, or `None` where it
/// rejects the text. The parser accepts more than the canonical form
/// (upper case, no hyphens, braces, a `urn:uuid:` prefix).
pub uninterp spec fn parsed_uuid(text: Seq<char>) -> Option<u128>;

/// Whether `c` may stand in a URL path, query or cookie value unescaped
/// as far as session tokens are concerned: a digit, a lowercase letter
/// `a` to `f`, or a hyphen.
pub open spec fn is_token_char(c: char) -> bool {
    c == '-' || ('0' <= c && c <= '9') || ('a' <= c && c <= 'f')
}

/// The session token made of two 128-bit values: the canonical text of
/// the first, followed by that of the second.
pub open spec fn session_token_text(first: u128, second: u128) -> Seq<char> {
    uuid_text(first) + uuid_text(second)
}

/// Whether `text` has the shape of a session token.
pub open spec fn is_session_token(text: Seq<char>) -> bool {
    exists|first: u128, second: u128| text == #[trigger] session_token_text(first, second)
}

/// A session token is seventy-two characters long and holds nothing but
/// lowercase hexadecimal digits and hyphens, so it needs no escaping in a
/// cookie or a URL.
pub proof fn lemma_session_token_is_url_safe(text: Seq<char>)
    requires
        is_session_token(text),
    ensures
        text.len() == 72,
        forall|i: int| 0 <= i < 72 ==> is_token_char(#[trigger] text[i]),
{
    let (first, second) = choose|first: u128, second: u128|
        text == #[trigger] session_token_text(first, second);
    assert forall|i: int| 0 <= i < 72 implies is_token_char(#[trigger] text[i]) by {
        let (id, at) = if i < 36 {
            (first, i)
        } else {
            (second, i - 36)
        };
        assert(text[i] == uuid_text(id)[at]);
        if !is_hyphen_position(at) {
            let n = nibble(id, at - hyphens_before(at));
            assert(0 <= n < 16);
        }
    }
}

/// Formats a user id with `Uuid::from_u128` and the `Display` of `Uuid`.
/// The text is the canonical lowercase hyphenated form, and
/// `Uuid::parse_str` reads the same id back from it: the parser accepts
/// every form that the formatter writes.
#[verifier::external_body]
pub(crate) fn format_uuid(id: u128) -> (text: String)
    ensures
        text@ == uuid_text(id),
        parsed_uuid(text@) == Some(id),
{
    Uuid::from_u128(id).to_string()
}

/// Parses a user id with `Uuid::parse_str`, and takes the value out with
/// `Uuid::as_u128`.
#[verifier::external_body]
pub(crate) fn parse_uuid(text: &str) -> (id: Option<u128>)
    ensures
        id == parsed_uuid(text@),
{
    match Uuid::parse_str(text) {
        Ok(uuid) => Some(uuid.as_u128()),
        Err(_) => None,
    }
}

/// Draws a random version-4 UUID with `Uuid::new_v4` and returns its
/// 128-bit value. Nothing is promised of the value.
#[verifier::external_body]
pub(crate) fn random_uuid() -> u128 {
    Uuid::new_v4().as_u128()
}

/// A fresh session token: the canonical texts of two random UUIDs. It
/// bears no relation to the user it will stand for.
pub fn new_session_token() -> (token: String)
    ensures
        is_session_token(token@),
        token@.len() == 72,
{
    let first: u128 = random_uuid();
    let second: u128 = random_uuid();
    let token = format_uuid(first).concat(format_uuid(second).as_str());
    assert(token@ == session_token_text(first, second));
    token
}

} // verus!
