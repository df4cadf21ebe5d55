//! Encoding and decoding of the persisted preference record.
//!
//! The record is exactly six bytes:
//!
//! - byte 0: the mode's integer code;
//! - bytes 1 to 4: the countdown timeout in seconds, as the big-endian
//!   bit pattern of an IEEE-754 single-precision number; an all-zero
//!   magnitude means the countdown is disabled;
//! - byte 5: the display row width.
//!
//! The codec never guesses or repairs: a record of the wrong length, an
//! unmapped mode code, a row width below five, or a timeout pattern that
//! is not zero and not a positive finite number is reported as corrupt,
//! and the caller substitutes the default preferences.

use vstd::prelude::*;

use crate::mode::AppMode;

verus! {

/// Length of the persisted record, in bytes.
pub const PREFERENCES_BYTES_LEN: usize = 6;

/// Smallest row width the trainer accepts; a persisted record below it
/// is treated as corrupted.
pub const MIN_DIGITS_PER_ROW: u8 = 5;

/// Timeout bit patterns strictly below this limit and nonzero denote
/// positive finite second counts. At or above it the pattern has the
/// sign bit set, or denotes infinity or a value that is not a number.
pub const TIMEOUT_BITS_LIMIT: u32 = 0x7F80_0000;

/// The preference record exactly as persisted. `timeout_bits` is the
/// IEEE-754 single-precision bit pattern of the timeout in seconds;
/// zero means the countdown is disabled.
#[derive(Debug, Copy, Clone, PartialEq, Eq, Structural)]
pub struct PrefsRecord {
    pub mode: AppMode,
    pub timeout_bits: u32,
    pub digits_per_row: u8,
}

/// Why a persisted record was rejected as corrupt.
#[derive(Debug, Copy, Clone, PartialEq, Eq, Structural)]
pub enum PrefsDecodeError {
    /// The record is not exactly six bytes long.
    BadLength,
    /// The mode byte maps to no known mode.
    BadMode,
    /// The row width is below the smallest accepted width.
    BadRowWidth,
    /// The timeout is negative, infinite or not a number.
    BadTimeout,
}

impl PrefsRecord {
    /// A record the codec is owed to round-trip: the row width is
    /// accepted and the timeout pattern is zero or a positive finite
    /// number of seconds.
    pub open spec fn wf(self) -> bool {
        &&& self.digits_per_row >= MIN_DIGITS_PER_ROW
        &&& self.timeout_bits < TIMEOUT_BITS_LIMIT
    }
}

/// The six bytes that persist `record`.
pub open spec fn spec_encode(record: PrefsRecord) -> Seq<u8> {
    seq![
        record.mode.spec_code(),
        ((record.timeout_bits >> 24) & 0xFF) as u8,
        ((record.timeout_bits >> 16) & 0xFF) as u8,
        ((record.timeout_bits >> 8) & 0xFF) as u8,
        (record.timeout_bits & 0xFF) as u8,
        record.digits_per_row,
    ]
}

/// The timeout field of a six-byte record, read big-endian.
pub open spec fn spec_timeout_bits(bytes: Seq<u8>) -> u32
    recommends
        bytes.len() == PREFERENCES_BYTES_LEN,
{
    ((bytes[1] as u32) << 24) | ((bytes[2] as u32) << 16) | ((bytes[3] as u32) << 8) | (
    bytes[4] as u32)
}

/// The timeout field denotes a value strictly below zero: the sign bit
/// is set and the magnitude is a nonzero finite number or infinity
/// (patterns that are not a number denote no value at all).
pub open spec fn spec_timeout_negative(bits: u32) -> bool {
    0x8000_0000 < bits <= 0xFF80_0000
}

/// The record persisted in `bytes`, or the first reason it is corrupt.
/// A timeout field whose magnitude is all zero reads back as a disabled
/// countdown whatever its sign bit says.
pub open spec fn spec_decode(bytes: Seq<u8>) -> Result<PrefsRecord, PrefsDecodeError> {
    if bytes.len() != PREFERENCES_BYTES_LEN {
        Err(PrefsDecodeError::BadLength)
    } else {
        match AppMode::spec_from_code(bytes[0]) {
            None => Err(PrefsDecodeError::BadMode),
            Some(mode) => {
                let digits_per_row = bytes[5];
                if digits_per_row < MIN_DIGITS_PER_ROW {
                    Err(PrefsDecodeError::BadRowWidth)
                } else {
                    let bits = spec_timeout_bits(bytes);
                    if bits & 0x7FFF_FFFF == 0 {
                        Ok(PrefsRecord { mode, timeout_bits: 0, digits_per_row })
                    } else if bits < TIMEOUT_BITS_LIMIT {
                        Ok(PrefsRecord { mode, timeout_bits: bits, digits_per_row })
                    } else {
                        Err(PrefsDecodeError::BadTimeout)
                    }
                }
            },
        }
    }
}

/// Persists a record as its six-byte form. Total: every record encodes.
pub fn encode(record: &PrefsRecord) -> (bytes: Vec<u8>)
    ensures
        bytes@ == spec_encode(*record),
        bytes@.len() == PREFERENCES_BYTES_LEN,
{
    let bits = record.timeout_bits;
    proof {
        assert((bits >> 24) & 0xFF < 256 && (bits >> 16) & 0xFF < 256 && (bits >> 8) & 0xFF < 256
            && bits & 0xFF < 256) by (bit_vector);
    }
    let mut bytes: Vec<u8> = Vec::new();
    bytes.push(record.mode.code());
    bytes.push(((bits >> 24) & 0xFF) as u8);
    bytes.push(((bits >> 16) & 0xFF) as u8);
    bytes.push(((bits >> 8) & 0xFF) as u8);
    bytes.push((bits & 0xFF) as u8);
    bytes.push(record.digits_per_row);
    proof {
        assert(bytes@ =~= spec_encode(*record));
    }
    bytes
}

/// Reads a persisted record back, reporting the first corruption found:
/// a length other than six, an unmapped mode byte, a row width below
/// five, or a timeout that is neither zero nor a positive finite number.
pub fn decode(bytes: &[u8]) -> (record: Result<PrefsRecord, PrefsDecodeError>)
    ensures
        record == spec_decode(bytes@),
        record matches Ok(r) ==> r.wf(),
{
    if bytes.len() != PREFERENCES_BYTES_LEN {
        return Err(PrefsDecodeError::BadLength);
    }
    let mode = match AppMode::from_code(bytes[0]) {
        Some(mode) => mode,
        None => {
            return Err(PrefsDecodeError::BadMode);
        },
    };
    let digits_per_row = bytes[5];
    if digits_per_row < MIN_DIGITS_PER_ROW {
        return Err(PrefsDecodeError::BadRowWidth);
    }
    let bits = ((bytes[1] as u32) << 24) | ((bytes[2] as u32) << 16) | ((bytes[3] as u32) << 8) | (
    bytes[4] as u32);
    if bits & 0x7FFF_FFFF == 0 {
        Ok(PrefsRecord { mode, timeout_bits: 0, digits_per_row })
    } else if bits < TIMEOUT_BITS_LIMIT {
        Ok(PrefsRecord { mode, timeout_bits: bits, digits_per_row })
    } else {
        Err(PrefsDecodeError::BadTimeout)
    }
}

/// Law: decoding inverts encoding. Every well-formed record survives a
/// round trip through its persisted form unchanged.
pub proof fn lemma_encode_decode_roundtrip(record: PrefsRecord)
    requires
        record.wf(),
    ensures
        spec_decode(spec_encode(record)) == Ok::<PrefsRecord, PrefsDecodeError>(record),
{
    let bytes = spec_encode(record);
    let bits = record.timeout_bits;
    assert(((((bits >> 24) & 0xFF) as u8) as u32) << 24 | ((((bits >> 16) & 0xFF) as u8) as u32)
        << 16 | ((((bits >> 8) & 0xFF) as u8) as u32) << 8 | (((bits & 0xFF) as u8) as u32)
        == bits) by (bit_vector);
    assert(spec_timeout_bits(bytes) == bits);
    assert(bits < 0x7F80_0000 ==> (bits & 0x7FFF_FFFF == 0 <==> bits == 0)) by (bit_vector);
    assert(AppMode::spec_from_code(record.mode.spec_code()) == Some(record.mode));
}

/// Law: decoding rejects every corrupt record — a wrong length, an
/// unmapped mode code, a row width below the accepted minimum, and a
/// negative timeout each yield the matching corruption outcome.
pub proof fn lemma_decode_rejects_corrupt(bytes: Seq<u8>)
    ensures
        bytes.len() != PREFERENCES_BYTES_LEN ==> spec_decode(bytes) == Err::<
            PrefsRecord,
            _,
        >(PrefsDecodeError::BadLength),
        bytes.len() == PREFERENCES_BYTES_LEN && AppMode::spec_from_code(bytes[0]) is None
            ==> spec_decode(bytes) == Err::<PrefsRecord, _>(PrefsDecodeError::BadMode),
        bytes.len() == PREFERENCES_BYTES_LEN && AppMode::spec_from_code(bytes[0]) is Some
            && bytes[5] < MIN_DIGITS_PER_ROW ==> spec_decode(bytes) == Err::<
            PrefsRecord,
            _,
        >(PrefsDecodeError::BadRowWidth),
        bytes.len() == PREFERENCES_BYTES_LEN && AppMode::spec_from_code(bytes[0]) is Some
            && bytes[5] >= MIN_DIGITS_PER_ROW && spec_timeout_negative(spec_timeout_bits(bytes))
            ==> spec_decode(bytes) == Err::<PrefsRecord, _>(PrefsDecodeError::BadTimeout),
{
    let bits = spec_timeout_bits(bytes);
    assert(0x8000_0000 < bits ==> bits & 0x7FFF_FFFF != 0) by (bit_vector);
    assert(spec_timeout_negative(bits) ==> bits & 0x7FFF_FFFF != 0 && !(bits
        < TIMEOUT_BITS_LIMIT));
}

} // verus!
