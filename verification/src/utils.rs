use crate::error::Error;
use vstd::prelude::*;
use vstd::utf8::{decode_utf8, valid_utf8};

pub mod hex;

verus! {

/// Reads `bytes` — exactly as many as the target type is wide — as one
/// big-endian integer; see `hex::to_int`.
pub fn hex_to_int<T: hex::HexInt>(bytes: &[u8]) -> (value: T)
    requires
        bytes@.len() == T::spec_size(),
    ensures
        value.spec_bits() == hex::be_value(bytes@),
{
    hex::to_int(bytes)
}

/// Reads `bytes` as UTF-8 text: succeeds with the decoded string exactly
/// when the bytes are valid UTF-8, and rejects anything else with
/// `Error::ByteToStringError`.
pub fn hex_to_str(bytes: &[u8]) -> (r: Result<&str, Error>)
    ensures
        r is Ok <==> valid_utf8(bytes@),
        r matches Ok(s) ==> s@ == decode_utf8(bytes@),
        r matches Err(e) ==> e == Error::ByteToStringError,
{
    match hex::to_str(bytes) {
        Ok(s) => Ok(s),
        Err(_) => Err(Error::ByteToStringError),
    }
}

} // verus!
