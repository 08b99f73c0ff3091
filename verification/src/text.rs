//! Character classes and the std string conversions that the library's
//! text handling is built on.

use vstd::prelude::*;

verus! {

/// The value of `str::to_lowercase` on a string: Unicode lowercase
/// mapping as std implements it.
pub uninterp spec fn str_to_lowercase(s: Seq<char>) -> Seq<char>;

/// The value of `String::from_utf8_lossy` on a byte string.
pub uninterp spec fn utf8_lossy(bytes: Seq<u8>) -> Seq<char>;

pub open spec fn is_ascii_char(c: char) -> bool {
    (c as u32) < 128
}

pub open spec fn is_ascii_seq(s: Seq<char>) -> bool {
    forall|i: int| 0 <= i < s.len() ==> is_ascii_char(#[trigger] s[i])
}

pub open spec fn is_ascii_uppercase(c: char) -> bool {
    'A' <= c && c <= 'Z'
}

pub open spec fn is_ascii_alphanumeric(c: char) -> bool {
    ('0' <= c && c <= '9') || ('a' <= c && c <= 'z') || ('A' <= c && c <= 'Z')
}

/// `char::to_ascii_lowercase`.
pub open spec fn ascii_lower(c: char) -> char {
    if is_ascii_uppercase(c) {
        ((c as u32) + 32) as char
    } else {
        c
    }
}

pub open spec fn ascii_lowercase_seq(s: Seq<char>) -> Seq<char> {
    Seq::new(s.len(), |i: int| ascii_lower(s[i]))
}

/// The Unicode `White_Space` property (PropList.txt), which is what
/// `char::is_whitespace` tests.
pub open spec fn is_white_space(c: char) -> bool {
    ||| ('\u{9}' <= c && c <= '\u{d}')
    ||| c == ' '
    ||| c == '\u{85}'
    ||| c == '\u{a0}'
    ||| c == '\u{1680}'
    ||| ('\u{2000}' <= c && c <= '\u{200a}')
    ||| c == '\u{2028}'
    ||| c == '\u{2029}'
    ||| c == '\u{202f}'
    ||| c == '\u{205f}'
    ||| c == '\u{3000}'
}

pub fn ascii_alphanumeric(c: char) -> (b: bool)
    ensures
        b == is_ascii_alphanumeric(c),
{
    ('0' <= c && c <= '9') || ('a' <= c && c <= 'z') || ('A' <= c && c <= 'Z')
}

pub fn white_space(c: char) -> (b: bool)
    ensures
        b == is_white_space(c),
{
    ('\u{9}' <= c && c <= '\u{d}') || c == ' ' || c == '\u{85}' || c == '\u{a0}' || c
        == '\u{1680}' || ('\u{2000}' <= c && c <= '\u{200a}') || c == '\u{2028}' || c
        == '\u{2029}' || c == '\u{202f}' || c == '\u{205f}' || c == '\u{3000}'
}

/// Calls `str::to_lowercase` and hands back the characters of the result.
/// Claims that the result is the named Unicode lowercase mapping of the
/// input; that it holds no ASCII uppercase letter (the documented result is
/// lowercase in the sense of the Unicode `Lowercase` property, and no
/// character's lowercase mapping is an ASCII capital); and that on an
/// all-ASCII input the mapping is the ASCII one (`'A'..='Z'` to
/// `'a'..='z'`, every other character unchanged).
#[verifier::external_body]
pub(crate) fn lowercase_chars(s: &str) -> (res: Vec<char>)
    ensures
        res@ == str_to_lowercase(s@),
        forall|i: int| 0 <= i < res@.len() ==> !is_ascii_uppercase(#[trigger] res@[i]),
        is_ascii_seq(s@) ==> res@ == ascii_lowercase_seq(s@),
{
    s.to_lowercase().chars().collect()
}

/// Collects characters into a `String` (`FromIterator<char> for String`).
/// Claims that the string holds exactly those characters, in order.
#[verifier::external_body]
pub(crate) fn string_from_chars(chars: Vec<char>) -> (res: String)
    ensures
        res@ == chars@,
{
    chars.into_iter().collect()
}

/// Calls `String::from_utf8_lossy`. Claims that the result is the named
/// lossy decoding of the bytes, and that bytes below 128 decode one for
/// one to the characters with the same code.
#[verifier::external_body]
pub(crate) fn from_utf8_lossy(bytes: &Vec<u8>) -> (res: String)
    ensures
        res@ == utf8_lossy(bytes@),
        (forall|i: int| 0 <= i < bytes@.len() ==> #[trigger] bytes@[i] < 128) ==> res@.len()
            == bytes@.len() && forall|i: int|
            0 <= i < bytes@.len() ==> #[trigger] res@[i] == (bytes@[i] as char),
{
    String::from_utf8_lossy(bytes).to_string()
}

} // verus!
