//! Decoding of interface names from the encodings that the OS records use.
use vstd::prelude::*;

verus! {

/// The text that lossy UTF-8 decoding makes of `bytes`.
pub uninterp spec fn utf8_lossy(bytes: Seq<u8>) -> Seq<char>;

/// The text that strict UTF-16 decoding makes of `units`, or `None` where they are
/// not well-formed UTF-16.
pub uninterp spec fn utf16_strict(units: Seq<u16>) -> Option<Seq<char>>;

/// Relies on `String::from_utf8_lossy`: the text depends on the bytes alone, and
/// since every invalid sequence becomes U+FFFD, it is empty exactly when the
/// bytes are.
#[verifier::external_body]
pub(crate) fn decode_utf8_lossy(bytes: &[u8]) -> (r: String)
    ensures
        r@ == utf8_lossy(bytes@),
        r@.len() == 0 <==> bytes@.len() == 0,
{
    String::from_utf8_lossy(bytes).into_owned()
}

/// Relies on `String::from_utf16`: it fails exactly on ill-formed UTF-16 (an
/// unpaired surrogate), and the text depends on the units alone.
#[verifier::external_body]
pub(crate) fn decode_utf16(units: &[u16]) -> (r: Option<String>)
    ensures
        r.is_some() == utf16_strict(units@).is_some(),
        r matches Some(s) ==> utf16_strict(units@) == Some(s@),
{
    String::from_utf16(units).ok()
}

} // verus!
