//! How a field that may hold bytes travels: as one text, or as nothing.
use vstd::prelude::*;

use crate::base64_text;
use crate::base64_text::{from_text, to_text};

verus! {

/// What a field holds: bytes, or nothing.
pub open spec fn held(bytes: Option<Vec<u8>>) -> Option<Seq<u8>> {
    match bytes {
        Some(bytes) => Some(bytes@),
        None => None,
    }
}

/// The text that carries what a field holds.
pub open spec fn carried(bytes: Option<Seq<u8>>) -> Option<Seq<char>> {
    match bytes {
        Some(bytes) => Some(base64_text::base64_text(bytes)),
        None => None,
    }
}

/// What a field holds whose text, where it had one, was read as `decoded`.
pub open spec fn after_read(decoded: Option<Result<Seq<u8>, Seq<char>>>) -> Result<
    Option<Seq<u8>>,
    Seq<char>,
> {
    match decoded {
        Some(Ok(bytes)) => Ok(Some(bytes)),
        Some(Err(complaint)) => Err(complaint),
        None => Ok(None),
    }
}

/// What a field holds that travelled as `text`.
pub open spec fn uncarried(text: Option<Seq<char>>) -> Result<Option<Seq<u8>>, Seq<char>> {
    after_read(
        match text {
            Some(text) => Some(base64_text::base64_decoded(vstd::utf8::encode_utf8(text))),
            None => None,
        },
    )
}

/// What came of reading a field's text, where it had one.
pub open spec fn decoded_view(decoded: Option<Result<Vec<u8>, String>>) -> Option<
    Result<Seq<u8>, Seq<char>>,
> {
    match decoded {
        Some(decoded) => Some(base64_text::outcome(decoded)),
        None => None,
    }
}

/// What came of reading a field.
pub open spec fn outcome(read: Result<Option<Vec<u8>>, String>) -> Result<
    Option<Seq<u8>>,
    Seq<char>,
> {
    match read {
        Ok(bytes) => Ok(held(bytes)),
        Err(complaint) => Err(complaint@),
    }
}

/// What a text or nothing says.
pub open spec fn said(text: Option<String>) -> Option<Seq<char>> {
    match text {
        Some(text) => Some(text@),
        None => None,
    }
}

/// What a field holds comes back as it was, no bytes as no bytes and nothing as nothing.
pub proof fn law_a_field_comes_back_as_it_was(bytes: Option<Seq<u8>>)
    ensures
        uncarried(carried(bytes)) == Result::<Option<Seq<u8>>, Seq<char>>::Ok(bytes),
{
    if let Some(bytes) = bytes {
        let text = vstd::utf8::encode_utf8(base64_text::base64_text(bytes));
        base64_text::law_a_text_is_read_as_what_it_carries(text, bytes);
    }
}

/// Two fields that hold different things travel as different things: nothing in particular is
/// not the text of no bytes.
pub proof fn law_different_fields_travel_differently(
    one: Option<Seq<u8>>,
    other: Option<Seq<u8>>,
)
    requires
        carried(one) == carried(other),
    ensures
        one == other,
{
    law_a_field_comes_back_as_it_was(one);
    law_a_field_comes_back_as_it_was(other);
}

/// Writes bytes as the text that carries them, and nothing as nothing.
pub fn serialize(bytes: &Option<Vec<u8>>) -> (text: Option<String>)
    requires
        bytes matches Some(bytes) ==> base64_text::has_text(bytes@),
    ensures
        said(text) == carried(held(*bytes)),
        uncarried(said(text)) == Result::<Option<Seq<u8>>, Seq<char>>::Ok(held(*bytes)),
{
    match bytes {
        Some(bytes) => {
            let text = to_text(bytes.as_slice());
            assert(base64_text::reads_as(vstd::utf8::encode_utf8(text@), bytes@));
            Some(text)
        },
        None => None,
    }
}

/// Tells what a field holds, from what came of reading its text, where it had one.
pub fn taken(decoded: Option<Result<Vec<u8>, String>>) -> (bytes: Result<Option<Vec<u8>>, String>)
    ensures
        outcome(bytes) == after_read(decoded_view(decoded)),
{
    match decoded {
        Some(Ok(bytes)) => Ok(Some(bytes)),
        Some(Err(complaint)) => Err(complaint),
        None => Ok(None),
    }
}

/// Reads back what a field held.
pub fn deserialize(text: Option<String>) -> (bytes: Result<Option<Vec<u8>>, String>)
    ensures
        outcome(bytes) == uncarried(said(text)),
{
    match text {
        Some(text) => taken(Some(from_text(text.as_str()))),
        None => taken(None),
    }
}

} // verus!
