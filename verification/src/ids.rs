//! Photo identifiers: 128-bit UUIDs, written in their hyphenated form.

use crate::error::ApiError;
use vstd::prelude::*;

verus! {

/// The UUID that `uuid::Uuid::parse_str` reads from the text, or `None`
/// where it reports an error.
pub uninterp spec fn uuid_parse(text: Seq<char>) -> Option<u128>;

/// The lowercase hexadecimal digit of a value below 16.
pub open spec fn hex_digit(n: int) -> char {
    if n < 10 {
        (48 + n) as char
    } else {
        (87 + n) as char
    }
}

/// The positions of the dashes in the hyphenated form.
pub open spec fn is_dash_position(i: int) -> bool {
    i == 8 || i == 13 || i == 18 || i == 23
}

/// Which of the 32 hex digits stands at position `i` of the hyphenated form.
pub open spec fn digit_index(i: int) -> int {
    if i < 8 {
        i
    } else if i < 13 {
        i - 1
    } else if i < 18 {
        i - 2
    } else if i < 23 {
        i - 3
    } else {
        i - 4
    }
}

/// The `k`-th 4-bit digit of the id, the most significant first.
pub open spec fn nibble(id: u128, k: int) -> int {
    (id as int / (vstd::arithmetic::power2::pow2((124 - 4 * k) as nat) as int)) % 16
}

/// The hyphenated text of a UUID (`uuid::fmt::Hyphenated`): its 32 hex
/// digits, most significant first, in lowercase, with dashes after the 8th,
/// 12th, 16th and 20th.
pub open spec fn uuid_hyphenated(id: u128) -> Seq<char> {
    Seq::new(
        36,
        |i: int|
            if is_dash_position(i) {
                '-'
            } else {
                hex_digit(nibble(id, digit_index(i)))
            },
    )
}

/// Lowercase hexadecimal digit.
pub open spec fn is_lower_hex(c: char) -> bool {
    ('0' <= c && c <= '9') || ('a' <= c && c <= 'f')
}

/// The hyphenated text form of a UUID: 36 characters, dashes at positions
/// 8, 13, 18 and 23, lowercase hexadecimal digits elsewhere.
pub open spec fn is_hyphenated_form(t: Seq<char>) -> bool {
    &&& t.len() == 36
    &&& forall|i: int|
        0 <= i < 36 ==> if i == 8 || i == 13 || i == 18 || i == 23 {
            #[trigger] t[i] == '-'
        } else {
            is_lower_hex(t[i])
        }
}

/// Calls `uuid::Uuid::parse_str`. Claims that the outcome is the named
/// parse of the text.
#[verifier::external_body]
fn parse_uuid(text: &str) -> (res: Option<u128>)
    ensures
        res == uuid_parse(text@),
{
    match uuid::Uuid::parse_str(text) {
        Ok(id) => Some(id.as_u128()),
        Err(_) => None,
    }
}

/// Formats `uuid::Uuid::from_u128(id)` with `Uuid::hyphenated`. Claims that
/// the text is the hyphenated form spelled out by `uuid_hyphenated`, and
/// that `Uuid::parse_str` reads it back as the same UUID.
#[verifier::external_body]
fn hyphenated_text(id: u128) -> (res: String)
    ensures
        res@ == uuid_hyphenated(id),
        uuid_parse(res@) == Some(id),
{
    uuid::Uuid::from_u128(id).hyphenated().to_string()
}

/// The hyphenated text of every id has the hyphenated form.
pub proof fn lemma_hyphenated_form(id: u128)
    ensures
        is_hyphenated_form(uuid_hyphenated(id)),
{
    let t = uuid_hyphenated(id);
    assert forall|i: int| 0 <= i < 36 && !is_dash_position(i) implies is_lower_hex(#[trigger] t[i]) by {
        let n = nibble(id, digit_index(i));
        let p = vstd::arithmetic::power2::pow2((124 - 4 * digit_index(i)) as nat) as int;
        vstd::arithmetic::power2::lemma_pow2_pos((124 - 4 * digit_index(i)) as nat);
        assert(0 <= n < 16);
        if n < 10 {
            assert(('0' as int) == 48);
            assert(((48 + n) as char) as int == 48 + n);
        } else {
            assert(((87 + n) as char) as int == 87 + n);
        }
    }
}

/// Reads a photo id from a request path; text that is no UUID is a bad
/// request that names the text.
pub fn parse_photo_id(text: &str) -> (res: Result<u128, ApiError>)
    ensures
        match uuid_parse(text@) {
            Some(id) => res == Ok::<u128, ApiError>(id),
            None => res matches Err(ApiError::BadRequest(m)) && m@ == text@,
        },
{
    match parse_uuid(text) {
        Some(id) => Ok(id),
        None => Err(ApiError::BadRequest(String::from_str(text))),
    }
}

/// The text a photo id is stored and shown as: the hyphenated UUID, which
/// `parse_photo_id` reads back as the same id.
pub fn id_as_text(id: u128) -> (text: String)
    ensures
        text@ == uuid_hyphenated(id),
        is_hyphenated_form(text@),
        text@.len() == 36,
        uuid_parse(text@) == Some(id),
{
    proof {
        lemma_hyphenated_form(id);
    }
    hyphenated_text(id)
}

/// The CSS selector of a photo's list item in the gallery page.
pub fn photo_element_selector(id: u128) -> (selector: String)
    ensures
        selector@ == "#photo-"@ + uuid_hyphenated(id),
        is_hyphenated_form(uuid_hyphenated(id)),
{
    proof {
        lemma_hyphenated_form(id);
    }
    let mut selector = String::from_str("#photo-");
    let text = hyphenated_text(id);
    selector.append(text.as_str());
    selector
}

} // verus!
