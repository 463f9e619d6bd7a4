//! Text that arrives as C strings.

use vstd::prelude::*;
use vstd::utf8::{decode_utf8, valid_utf8};

verus! {

/// The text that a byte sequence is read as when it may not be valid UTF-8.
pub uninterp spec fn lossy_utf8(bytes: Seq<u8>) -> Seq<char>;

/// `String::from_utf8_lossy`: the text [`lossy_utf8`] of the bytes, which for valid UTF-8 is what
/// they encode. How invalid sequences are replaced is left to the standard library.
#[verifier::external_body]
fn string_from_utf8_lossy(bytes: &[u8]) -> (result: String)
    ensures
        result@ == lossy_utf8(bytes@),
        valid_utf8(bytes@) ==> result@ == decode_utf8(bytes@),
{
    String::from_utf8_lossy(bytes).into_owned()
}

/// The text that bytes are read as: what they encode if they are valid UTF-8, else
/// [`lossy_utf8`].
pub open spec fn utf8_text(bytes: Seq<u8>) -> Seq<char> {
    if valid_utf8(bytes) {
        decode_utf8(bytes)
    } else {
        lossy_utf8(bytes)
    }
}

/// The text of an Objective-C string: `None` stands for a null object and for one without a UTF-8
/// representation, both of which read as the empty text.
pub open spec fn objc_text(bytes: Option<&[u8]>) -> Seq<char> {
    match bytes {
        Some(bytes) => utf8_text(bytes@),
        None => Seq::empty(),
    }
}

/// Reads an Objective-C string; see [`objc_text`].
pub fn objc_string(bytes: Option<&[u8]>) -> (result: String)
    ensures
        result@ == objc_text(bytes),
{
    match bytes {
        Some(bytes) => string_from_utf8_lossy(bytes),
        None => String::new(),
    }
}

/// Whether two texts are equal.
pub fn same_text(left: &str, right: &str) -> (result: bool)
    ensures
        result == (left@ == right@),
{
    left.to_string() == right.to_string()
}

/// An Objective-C string in UTF-8 reads as what it says, and a null one as the empty text.
pub proof fn strings_read_as_they_say(bytes: &[u8])
    ensures
        valid_utf8(bytes@) ==> objc_text(Some(bytes)) == decode_utf8(bytes@),
        objc_text(None) == Seq::<char>::empty(),
{
}

} // verus!
