//! What the library takes from elsewhere and does not prove: fresh
//! identifiers, the platform's rules for paths, and the rule for header values.

use vstd::prelude::*;
use vstd::utf8::encode_utf8;
use crate::text::text_of;

verus! {

/// Whether `c` is a digit or one of the letters `a` to `f`.
pub open spec fn is_lower_hex(c: char) -> bool {
    '0' <= c <= '9' || 'a' <= c <= 'f'
}

/// Whether `s` has the shape of a hyphenated identifier: 36 characters, a
/// hyphen at each of the places 8, 13, 18 and 23, and a digit or a letter from
/// `a` to `f` at every other place.
pub open spec fn is_hyphenated_hex(s: Seq<char>) -> bool {
    &&& s.len() == 36
    &&& forall|i: int|
        0 <= i < 36 ==> if i == 8 || i == 13 || i == 18 || i == 23 {
            #[trigger] s[i] == '-'
        } else {
            is_lower_hex(s[i])
        }
}

/// A fresh random identifier.
///
/// Calls `uuid::Uuid::new_v4` and formats the result with `to_string`. The
/// value is random, so the contract states only the shape that the formatting
/// gives to every identifier. The call fails if the operating system has no
/// random bytes to give.
#[verifier::external_body]
pub(crate) fn fresh_id() -> (id: String)
    ensures
        is_hyphenated_hex(id@),
{
    uuid::Uuid::new_v4().to_string()
}

/// Whether `s` holds no `/`.
pub open spec fn has_no_slash(s: Seq<char>) -> bool {
    forall|i: int| 0 <= i < s.len() ==> s[i] != '/'
}

/// The extension of the file name in `name`, as the platform's path rules
/// give it: what `std::path::Path::extension` returns.
pub uninterp spec fn path_extension(name: Seq<char>) -> Option<Seq<char>>;

/// The extension of the file name in `name`, without its dot.
///
/// Calls `std::path::Path::extension`. The contract gives the result its
/// name, and states one thing of it: an extension is a part of the last
/// component of the path, and so holds no `/`, which parts components on
/// every platform.
#[verifier::external_body]
pub(crate) fn file_extension(name: &str) -> (extension: Option<String>)
    ensures
        text_of(extension) == path_extension(name@),
        extension matches Some(e) ==> has_no_slash(e@),
{
    match std::path::Path::new(name).extension() {
        Some(extension) => Some(extension.to_string_lossy().into_owned()),
        None => None,
    }
}

/// The path of `name` under the directory `dir`, as the platform's path rules
/// give it: what `std::path::Path::join` returns.
pub uninterp spec fn joined_path(dir: Seq<char>, name: Seq<char>) -> Seq<char>;

/// The path of `name` under the directory `dir`.
///
/// Calls `std::path::Path::join`. The contract gives the result its name and
/// states nothing more of it.
#[verifier::external_body]
pub(crate) fn join_location(dir: &str, name: &str) -> (location: String)
    ensures
        location@ == joined_path(dir@, name@),
{
    std::path::Path::new(dir).join(name).to_string_lossy().into_owned()
}

/// Whether the byte `b` may stand in a header value: a tab, or any byte from
/// 32 on but 127.
pub open spec fn is_header_byte(b: u8) -> bool {
    b >= 32 && b != 127 || b == 9
}

/// Whether `text` can be sent as a header value: every byte of its UTF-8
/// form may stand in one.
pub open spec fn is_header_text(text: Seq<char>) -> bool {
    forall|i: int|
        0 <= i < encode_utf8(text).len() ==> is_header_byte(#[trigger] encode_utf8(text)[i])
}

/// Whether `text` can be sent as a header value.
///
/// Calls `axum::http::HeaderValue::from_str` and reports whether it accepted
/// the text. That function goes through the bytes of the text and refuses it
/// if one of them is below 32 and no tab, or is 127.
#[verifier::external_body]
pub(crate) fn is_header_value(text: &str) -> (ok: bool)
    ensures
        ok == is_header_text(text@),
{
    axum::http::HeaderValue::from_str(text).is_ok()
}

} // verus!
