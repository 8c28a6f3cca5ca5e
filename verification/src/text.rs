//! Conversion between host text and the 16-bit text encoding.
//!
//! The conversions themselves are the standard library's; this module gives
//! their results names so that the marshalling contracts can speak of them.

use vstd::prelude::*;

verus! {

/// The UTF-16 code units that encode a text.
pub uninterp spec fn utf16_units(text: Seq<char>) -> Seq<u16>;

/// The text obtained from code units when every ill-formed unit is replaced
/// by the replacement character.
pub uninterp spec fn utf16_lossy(units: Seq<u16>) -> Seq<char>;

/// The text obtained from code units that are well-formed UTF-16, and `None`
/// for ill-formed ones.
pub uninterp spec fn utf16_strict(units: Seq<u16>) -> Option<Seq<char>>;

/// True when the text holds no NUL character.
pub open spec fn nul_free(text: Seq<char>) -> bool {
    forall|i: int| 0 <= i < text.len() ==> text[i] != '\0'
}

/// Calls `str::encode_utf16` and collects the units. Trusted: the units are
/// a function of the text alone, named `utf16_units`; and, since they are
/// the UTF-16 encoding of the text, decoding them gives the text back, and
/// a zero unit occurs among them only where the text holds a NUL character,
/// the one character that UTF-16 encodes with a zero unit.
#[verifier::external_body]
pub(crate) fn encode_wide(text: &str) -> (units: Vec<u16>)
    ensures
        units@ == utf16_units(text@),
        utf16_lossy(units@) == text@,
        nul_free(text@) <==> (forall|i: int| 0 <= i < units@.len() ==> units@[i] != 0u16),
{
    text.encode_utf16().collect()
}

/// Calls `String::from_utf16_lossy`. Trusted: the text is a function of the
/// units alone, named `utf16_lossy`; the call never fails.
#[verifier::external_body]
pub(crate) fn decode_lossy(units: &[u16]) -> (text: String)
    ensures
        text@ == utf16_lossy(units@),
{
    String::from_utf16_lossy(units)
}

/// Calls `String::from_utf16`. Trusted: the outcome is a function of the
/// units alone, named `utf16_strict`, with the error mapped to `None`.
#[verifier::external_body]
pub(crate) fn decode_strict(units: &[u16]) -> (text: Option<String>)
    ensures
        text is Some == utf16_strict(units@) is Some,
        text is Some ==> text->0@ == utf16_strict(units@)->0,
{
    match String::from_utf16(units) {
        Ok(s) => Some(s),
        Err(_) => None,
    }
}

} // verus!
