//! How a field of bytes travels: as one text.
use vstd::prelude::*;

use crate::base64_text;
use crate::base64_text::{from_text, to_text};

verus! {

/// Writes `bytes` as the text that carries them.
pub fn serialize(bytes: &[u8]) -> (text: String)
    requires
        base64_text::has_text(bytes@),
    ensures
        text@ == base64_text::base64_text(bytes@),
        base64_text::reads_as(vstd::utf8::encode_utf8(text@), bytes@),
{
    to_text(bytes)
}

/// Reads back the bytes that `text` carries.
pub fn deserialize(text: &str) -> (bytes: Result<Vec<u8>, String>)
    ensures
        base64_text::outcome(bytes) == base64_text::base64_decoded(vstd::utf8::encode_utf8(text@)),
{
    from_text(text)
}

} // verus!
