//! The sensor's six-byte response and what it decodes to.

use vstd::prelude::*;
use crate::error::SensorError;

verus! {

/// Length in bytes of a measurement response:
/// temperature high, temperature low, checksum, humidity high, humidity low,
/// checksum.
pub const RESPONSE_LEN: usize = 6;

/// The largest raw tick value; both physical scales divide by it.
pub const FULL_SCALE: u16 = 65535;

/// One decoded measurement, kept as the sensor's raw ticks so that no
/// precision is lost. The physical values are linear in the ticks.
#[derive(Debug, Clone, Copy, PartialEq, Eq, Structural)]
pub struct Reading {
    /// Raw temperature ticks.
    pub temperature_ticks: u16,
    /// Raw relative humidity ticks.
    pub humidity_ticks: u16,
}

/// The 16-bit value whose most significant byte is `hi`.
pub open spec fn big_endian(hi: u8, lo: u8) -> int {
    256 * hi + lo
}

/// What a six-byte response decodes to. The bytes at index 2 and 5 are
/// checksums and play no part.
pub open spec fn decoded(raw: Seq<u8>) -> Reading
    recommends
        raw.len() == RESPONSE_LEN,
{
    Reading {
        temperature_ticks: big_endian(raw[0], raw[1]) as u16,
        humidity_ticks: big_endian(raw[3], raw[4]) as u16,
    }
}

/// Combines two bytes, most significant first.
pub fn join_bytes(hi: u8, lo: u8) -> (ticks: u16)
    ensures
        ticks == big_endian(hi, lo),
{
    let ticks: u16 = (hi as u16) * 256 + (lo as u16);
    ticks
}

/// Decodes a response. Succeeds exactly on six bytes; any other length is a
/// failed read.
pub fn decode(raw: &[u8]) -> (result: Result<Reading, SensorError>)
    ensures
        raw@.len() == RESPONSE_LEN ==> result == Ok::<Reading, SensorError>(decoded(raw@)),
        raw@.len() != RESPONSE_LEN ==> result == Err::<Reading, SensorError>(SensorError::ReadFailed),
{
    if raw.len() != RESPONSE_LEN {
        return Err(SensorError::ReadFailed);
    }
    Ok(Reading {
        temperature_ticks: join_bytes(raw[0], raw[1]),
        humidity_ticks: join_bytes(raw[3], raw[4]),
    })
}

/// The two bytes can be read back from the value: the first is its upper
/// half, the second its lower half, and the value fits sixteen bits.
pub proof fn lemma_big_endian_bytes(hi: u8, lo: u8)
    ensures
        0 <= big_endian(hi, lo) <= FULL_SCALE,
        big_endian(hi, lo) / 256 == hi,
        big_endian(hi, lo) % 256 == lo,
{
}

/// Decoding is a function of the four data bytes alone: two responses that
/// agree on them decode to the same reading, whatever their checksum bytes
/// hold. In particular the same response always decodes to the same reading.
pub proof fn lemma_decoding_depends_on_data_bytes(a: Seq<u8>, b: Seq<u8>)
    requires
        a.len() == RESPONSE_LEN,
        b.len() == RESPONSE_LEN,
        a[0] == b[0],
        a[1] == b[1],
        a[3] == b[3],
        a[4] == b[4],
    ensures
        decoded(a) == decoded(b),
{
}

/// Distinct data bytes give distinct readings: nothing of the sensor's
/// output is lost in decoding.
pub proof fn lemma_decoding_keeps_data_bytes(a: Seq<u8>, b: Seq<u8>)
    requires
        a.len() == RESPONSE_LEN,
        b.len() == RESPONSE_LEN,
        decoded(a) == decoded(b),
    ensures
        a[0] == b[0],
        a[1] == b[1],
        a[3] == b[3],
        a[4] == b[4],
{
    lemma_big_endian_bytes(a[0], a[1]);
    lemma_big_endian_bytes(b[0], b[1]);
    lemma_big_endian_bytes(a[3], a[4]);
    lemma_big_endian_bytes(b[3], b[4]);
}

} // verus!
