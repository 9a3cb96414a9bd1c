//! Text decoding of record and parameter files.
//!
//! Grid parameter files and record files arrive either as UTF-8 or as
//! Shift_JIS. Bytes that are valid UTF-8 are taken as they are; anything
//! else is decoded as Shift_JIS.

use vstd::prelude::*;

use vstd::utf8::{decode_utf8, valid_utf8};

verus! {

/// Most bytes accepted by one decoding call; keeps the decoder's output
/// size calculation well inside the address space.
pub const MAX_DECODE_BYTES: usize = usize::MAX / 8;

/// What Shift_JIS decoding yields for the given bytes. The result is a
/// function of the bytes alone; malformed sequences become replacement
/// characters.
pub uninterp spec fn shift_jis_decoding(bytes: Seq<u8>) -> Seq<char>;

/// Relies on encoding_rs's `SHIFT_JIS.decode`: decodes a complete input
/// with BOM sniffing, replacing malformed sequences with the replacement
/// character; the result depends on the bytes alone, and empty input
/// decodes to empty output.
#[verifier::external_body]
fn decode_shift_jis(bytes: &[u8]) -> (r: String)
    requires
        bytes@.len() < MAX_DECODE_BYTES,
    ensures
        r@ == shift_jis_decoding(bytes@),
        bytes@.len() == 0 ==> r@.len() == 0,
{
    let (decoded, _, _) = encoding_rs::SHIFT_JIS.decode(bytes);
    decoded.into_owned()
}

/// Relies on `String::from_utf8`: succeeds exactly on valid UTF-8 and
/// returns the text those bytes encode.
#[verifier::external_body]
fn try_utf8(bytes: &Vec<u8>) -> (r: Option<String>)
    ensures
        r is Some <==> valid_utf8(bytes@),
        r matches Some(s) ==> s@ == decode_utf8(bytes@),
{
    String::from_utf8(bytes.clone()).ok()
}

/// Decodes the raw bytes of a Shift_JIS record file to text.
pub fn shift_jis_to_utf8(raw_bytes: &[u8]) -> (r: String)
    requires
        raw_bytes@.len() < MAX_DECODE_BYTES,
    ensures
        r@ == shift_jis_decoding(raw_bytes@),
        raw_bytes@.len() == 0 ==> r@.len() == 0,
{
    decode_shift_jis(raw_bytes)
}

/// Decodes a parameter file's bytes: kept as they are when they form
/// valid UTF-8, decoded as Shift_JIS otherwise.
pub fn decode_param_text(bytes: &Vec<u8>) -> (r: String)
    requires
        bytes@.len() < MAX_DECODE_BYTES,
    ensures
        valid_utf8(bytes@) ==> r@ == decode_utf8(bytes@),
        !valid_utf8(bytes@) ==> r@ == shift_jis_decoding(bytes@),
{
    match try_utf8(bytes) {
        Some(s) => s,
        None => decode_shift_jis(bytes.as_slice()),
    }
}

} // verus!
