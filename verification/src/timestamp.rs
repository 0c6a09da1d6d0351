//! Timestamp codec: conversion between the protocol's 64-bit fixed-point
//! timestamp (high 32 bits: seconds since the 1900 epoch, low 32 bits:
//! sub-second units) and (Unix-epoch seconds, sub-second) pairs.
//!
//! Unit convention: this codec carries the low 32 bits as an opaque
//! sub-second count. A request is stamped with a microsecond count there,
//! and [`split_timestamp`] hands a response's low half back unrescaled;
//! no conversion to or from a binary fraction of a second is applied.

use vstd::prelude::*;

verus! {

/// Seconds between the protocol epoch (1900-01-01) and the Unix epoch (1970-01-01).
pub const NTP_TIMESTAMP_DELTA: u32 = 2_208_988_800;

/// One past the largest 32-bit value: the weight of the seconds half of a
/// fixed-point timestamp.
pub const TIMESTAMP_SECONDS_UNIT: u64 = 0x1_0000_0000;

/// The fixed-point timestamp built from a Unix time: the epoch-shifted
/// seconds (reduced to their low 32 bits) in the high half, the sub-second
/// count in the low half.
pub open spec fn timestamp_of_unix(secs: u64, micros: u32) -> u64 {
    (((secs + NTP_TIMESTAMP_DELTA) % (TIMESTAMP_SECONDS_UNIT as int)) * (
    TIMESTAMP_SECONDS_UNIT as int) + micros) as u64
}

/// Relies on std::time::SystemTime::now and its duration_since the Unix
/// epoch: returns the current whole seconds and the microseconds of the
/// current second; Duration::subsec_micros is documented to return the
/// fractional part in whole microseconds, below one million. A clock
/// reading before the Unix epoch is fatal, not swallowed.
#[verifier::external_body]
fn now_unix() -> (r: (u64, u32))
    ensures
        r.1 < 1_000_000,
{
    let since_epoch = std::time::SystemTime::now().duration_since(
        std::time::SystemTime::UNIX_EPOCH,
    ).unwrap();
    (since_epoch.as_secs(), since_epoch.subsec_micros())
}

/// Pack a Unix time into the wire's fixed-point timestamp format.
pub fn timestamp_from_unix(secs: u64, micros: u32) -> (r: u64)
    ensures
        r == timestamp_of_unix(secs, micros),
        r % TIMESTAMP_SECONDS_UNIT == micros,
{
    proof {
        vstd::arithmetic::div_mod::lemma_add_mod_noop(
            secs as int,
            NTP_TIMESTAMP_DELTA as int,
            TIMESTAMP_SECONDS_UNIT as int,
        );
    }
    let reduced: u64 = secs % TIMESTAMP_SECONDS_UNIT;
    let wire_seconds: u64 = (reduced + (NTP_TIMESTAMP_DELTA as u64)) % TIMESTAMP_SECONDS_UNIT;
    let r: u64 = wire_seconds * TIMESTAMP_SECONDS_UNIT + (micros as u64);
    proof {
        vstd::arithmetic::div_mod::lemma_mod_multiples_vanish(
            wire_seconds as int,
            micros as int,
            TIMESTAMP_SECONDS_UNIT as int,
        );
    }
    r
}

/// Read the clock and return "now" in the wire's fixed-point format, with
/// microsecond resolution in the sub-second half. Whatever the clock says,
/// the sub-second half stays below one million.
pub fn get_ntp_timestamp() -> (r: u64)
    ensures
        r % TIMESTAMP_SECONDS_UNIT < 1_000_000,
{
    let (secs, micros) = now_unix();
    timestamp_from_unix(secs, micros)
}

/// Split a fixed-point timestamp into Unix-epoch seconds and the raw
/// sub-second half: shift out the high 32 bits for the seconds and subtract
/// the epoch offset, mask the low 32 bits for the fraction.
pub fn split_timestamp(ts: u64) -> (r: (u32, u32))
    requires
        ts / TIMESTAMP_SECONDS_UNIT >= NTP_TIMESTAMP_DELTA,
    ensures
        r.0 == ts / TIMESTAMP_SECONDS_UNIT - NTP_TIMESTAMP_DELTA,
        r.1 == ts % TIMESTAMP_SECONDS_UNIT,
{
    let hi: u64 = ts / TIMESTAMP_SECONDS_UNIT;
    let lo: u64 = ts % TIMESTAMP_SECONDS_UNIT;
    assert(hi < TIMESTAMP_SECONDS_UNIT && lo < TIMESTAMP_SECONDS_UNIT) by (bit_vector)
        requires
            hi == ts / 0x1_0000_0000u64 && lo == ts % 0x1_0000_0000u64,
    ;
    ((hi as u32) - NTP_TIMESTAMP_DELTA, lo as u32)
}

} // verus!
