//! Text that crosses the wire or ends up in an error message.

use vstd::prelude::*;
use vstd::string::*;
use vstd::utf8::*;

verus! {

/// The text that stands for a byte string that is not valid UTF-8: each malformed part is
/// replaced as `String::from_utf8_lossy` replaces it.
pub uninterp spec fn utf8_replaced(data: Seq<u8>) -> Seq<char>;

/// The text that a byte string is read as: its decoding where it is valid UTF-8, and otherwise
/// the text with the malformed parts replaced.
pub open spec fn lossy_text(data: Seq<u8>) -> Seq<char> {
    if valid_utf8(data) {
        decode_utf8(data)
    } else {
        utf8_replaced(data)
    }
}

/// The form in which `{:?}` writes a string: in double quotes, with escapes.
pub uninterp spec fn debug_form(s: Seq<char>) -> Seq<char>;

/// `String::from_utf8_lossy`. Trusted: a valid UTF-8 byte string comes back as the text that it
/// encodes; what an invalid one is read as depends on its bytes alone.
#[verifier::external_body]
pub(crate) fn from_utf8_lossy(data: &[u8]) -> (text: String)
    ensures
        text@ == if valid_utf8(data@) {
            decode_utf8(data@)
        } else {
            utf8_replaced(data@)
        },
{
    String::from_utf8_lossy(data).to_string()
}

/// `<str as std::fmt::Debug>::fmt`, by way of `format!`. Trusted: the text written depends on the
/// characters of the string alone.
#[verifier::external_body]
pub(crate) fn debug_quoted(s: &str) -> (text: String)
    ensures
        text@ == debug_form(s@),
{
    format!("{:?}", s)
}

/// A text followed by another.
pub(crate) fn joined(head: &str, tail: &str) -> (text: String)
    ensures
        text@ == head@ + tail@,
{
    let mut text: String = head.to_string();
    text.append(tail);
    text
}

} // verus!
