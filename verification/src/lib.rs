//! SNTP client core: the fixed 48-byte packet model with its wire codec,
//! the 64-bit fixed-point timestamp codec, the response validation pipeline,
//! and the round-trip-delay / clock-offset computation.
//!
//! Transport (socket I/O, address resolution) lives outside this crate: a
//! caller sends the encoded request, receives a datagram, notes the local
//! receive time, and hands bytes and facts about the exchange to
//! [`process_datagram`], which classifies the response and computes the time
//! result.

pub mod ntppacket;
pub mod ntpresult;
pub mod timestamp;

use vstd::prelude::*;
use crate::ntppacket::NtpPacket;
use crate::ntppacket::packet_of;
use crate::ntppacket::decode;
use crate::ntppacket::mode_of;
use crate::ntppacket::version_of;
use crate::ntppacket::li_of;
use crate::ntppacket::NTP_PACKET_SIZE;
use crate::ntpresult::NtpResult;
use crate::ntpresult::NSEC_IN_SEC;
use crate::ntpresult::result_new_spec;
use crate::timestamp::NTP_TIMESTAMP_DELTA;
use crate::timestamp::TIMESTAMP_SECONDS_UNIT;
use crate::timestamp::split_timestamp;

verus! {

/// Mode value of a unicast server response.
pub const SNTP_UNICAST: u8 = 4;

/// Mode value of a broadcast server response.
pub const SNTP_BROADCAST: u8 = 5;

/// Largest value the 2-bit leap-indicator field can carry.
pub const LI_MAX_VALUE: u8 = 3;

/// Every way an exchange can fail, each terminal for the attempt.
#[derive(Debug, Clone, Copy, PartialEq, Eq, Structural)]
pub enum Error {
    /// The server name or address could not be resolved.
    ResolutionError,
    /// Sending the request failed for every candidate address.
    NoServerAvailable,
    /// Socket bind, timeout configuration, send or receive failed.
    TransportError,
    /// The response came from an address the request was not sent to.
    SourceMismatch,
    /// The response is not exactly 48 bytes long.
    MalformedResponse,
    /// The response's origin timestamp differs from the request's transmit timestamp.
    OriginTimestampMismatch,
    /// The response's mode is neither unicast nor broadcast.
    InvalidMode,
    /// The response's leap indicator exceeds the 2-bit range.
    InvalidLeapIndicator,
    /// The response's version differs from the request's.
    VersionMismatch,
    /// The response names stratum 0, which is invalid in a response.
    InvalidStratum,
}

/// The first check of the validation pipeline that a decoded response fails,
/// in the fixed order: origin timestamp, mode, leap indicator, version,
/// stratum. `None` when every check passes.
pub open spec fn first_validation_error(req: NtpPacket, p: NtpPacket) -> Option<Error> {
    if p.origin_timestamp != req.tx_timestamp {
        Some(Error::OriginTimestampMismatch)
    } else if mode_of(p.li_vn_mode) != SNTP_UNICAST && mode_of(p.li_vn_mode) != SNTP_BROADCAST {
        Some(Error::InvalidMode)
    } else if li_of(p.li_vn_mode) > LI_MAX_VALUE {
        Some(Error::InvalidLeapIndicator)
    } else if version_of(p.li_vn_mode) != version_of(req.li_vn_mode) {
        Some(Error::VersionMismatch)
    } else if p.stratum == 0 {
        Some(Error::InvalidStratum)
    } else {
        None
    }
}

/// Round-trip delay from the four exchange timestamps:
/// `|(T4 - T1) - (T3 - T2)|`, the absolute value guarding against clock skew.
pub open spec fn delay_of(t1: u64, t2: u64, t3: u64, t4: u64) -> int {
    let d = (t4 - t1) - (t3 - t2);
    if d >= 0 {
        d
    } else {
        -d
    }
}

/// Clock offset from the four exchange timestamps:
/// `((T2 - T1) + (T3 - T4)) / 2` with the division truncating toward zero.
pub open spec fn offset_of(t1: u64, t2: u64, t3: u64, t4: u64) -> int {
    let s = (t2 - t1) + (t3 - t4);
    if s >= 0 {
        s / 2
    } else {
        -((-s) / 2)
    }
}

/// The bounds under which the delay/offset computation and the transmit
/// timestamp split stay inside the machine's signed and unsigned ranges:
/// the exchange ran forward in time on each clock, every timestamp
/// difference the formulas take fits signed 64-bit arithmetic, the offset
/// sum fits, the transmit timestamp is not before the Unix epoch, and the
/// normalized seconds fit 32 bits.
pub open spec fn calc_in_range(t1: u64, t2: u64, t3: u64, t4: u64) -> bool {
    let sum = (t2 - t1) + (t3 - t4);
    let tx_sec = t3 / (TIMESTAMP_SECONDS_UNIT as u64);
    let tx_frac = t3 % (TIMESTAMP_SECONDS_UNIT as u64);
    &&& t1 <= t4 && t4 - t1 <= i64::MAX
    &&& t2 <= t3 && t3 - t2 <= i64::MAX
    &&& -(i64::MAX as int) <= t2 - t1 <= i64::MAX as int
    &&& -(i64::MAX as int) <= t3 - t4 <= i64::MAX as int
    &&& -(i64::MAX as int) <= sum <= i64::MAX as int
    &&& tx_sec >= NTP_TIMESTAMP_DELTA
    &&& (tx_sec - NTP_TIMESTAMP_DELTA) + (tx_frac as int) / (NSEC_IN_SEC as int) <= u32::MAX
}

/// The result a fully validated response yields: the server's transmit
/// timestamp split into seconds and sub-second units (normalized by the
/// result constructor), the round-trip delay, and the clock offset.
pub open spec fn response_result(req: NtpPacket, p: NtpPacket, recv_timestamp: u64) -> NtpResult {
    let t1 = req.tx_timestamp;
    let t2 = p.recv_timestamp;
    let t3 = p.tx_timestamp;
    let t4 = recv_timestamp;
    result_new_spec(
        (t3 / (TIMESTAMP_SECONDS_UNIT as u64) - NTP_TIMESTAMP_DELTA) as u32,
        (t3 % (TIMESTAMP_SECONDS_UNIT as u64)) as u32,
        delay_of(t1, t2, t3, t4) as u64,
        offset_of(t1, t2, t3, t4) as i64,
    )
}

/// What processing a 48-byte response yields: the first failed validation
/// check's error, or the computed time result.
pub open spec fn response_outcome(req: NtpPacket, bytes: Seq<u8>, recv_timestamp: u64) -> Result<
    NtpResult,
    Error,
> {
    let p = packet_of(bytes);
    match first_validation_error(req, p) {
        Some(e) => Err(e),
        None => Ok(response_result(req, p, recv_timestamp)),
    }
}

/// What processing a received datagram yields: the source-address check,
/// then the length check, then the validation pipeline and the computation.
pub open spec fn datagram_outcome(
    req: NtpPacket,
    source_matches: bool,
    bytes: Seq<u8>,
    recv_timestamp: u64,
) -> Result<NtpResult, Error> {
    if !source_matches {
        Err(Error::SourceMismatch)
    } else if bytes.len() != NTP_PACKET_SIZE {
        Err(Error::MalformedResponse)
    } else {
        response_outcome(req, bytes, recv_timestamp)
    }
}

/// The arithmetic precondition of [`process_response`], stated of the raw
/// datagram: whenever the response would pass validation, the four exchange
/// timestamps stay inside the ranges of [`calc_in_range`].
pub open spec fn datagram_in_range(req: NtpPacket, bytes: Seq<u8>, recv_timestamp: u64) -> bool {
    (bytes.len() == NTP_PACKET_SIZE && first_validation_error(req, packet_of(bytes)) is None)
        ==> calc_in_range(
        req.tx_timestamp,
        packet_of(bytes).recv_timestamp,
        packet_of(bytes).tx_timestamp,
        recv_timestamp,
    )
}

/// Run the validation pipeline on a decoded response, in the fixed order.
pub fn validate(req: &NtpPacket, p: &NtpPacket) -> (r: Option<Error>)
    ensures
        r == first_validation_error(*req, *p),
{
    if p.origin_timestamp != req.tx_timestamp {
        Some(Error::OriginTimestampMismatch)
    } else {
        let mode = p.mode();
        let li = p.leap_indicator();
        let resp_version = p.version();
        let req_version = req.version();
        if mode != SNTP_UNICAST && mode != SNTP_BROADCAST {
            Some(Error::InvalidMode)
        } else if li > LI_MAX_VALUE {
            Some(Error::InvalidLeapIndicator)
        } else if resp_version != req_version {
            Some(Error::VersionMismatch)
        } else if p.stratum == 0 {
            Some(Error::InvalidStratum)
        } else {
            None
        }
    }
}

/// Validation ordering law: a response whose origin timestamp does not echo
/// the request's transmit timestamp reports `OriginTimestampMismatch`, even
/// when its stratum is invalid too - the first failing check wins.
pub proof fn lemma_validation_order(req: NtpPacket, p: NtpPacket)
    requires
        p.origin_timestamp != req.tx_timestamp,
        p.stratum == 0,
    ensures
        first_validation_error(req, p) == Some(Error::OriginTimestampMismatch),
{
}

/// Compute round-trip delay, clock offset, and the split transmit timestamp
/// from a validated response, and build the result.
fn compute_result(t1: u64, t2: u64, t3: u64, t4: u64) -> (r: NtpResult)
    requires
        calc_in_range(t1, t2, t3, t4),
    ensures
        r == result_new_spec(
            (t3 / (TIMESTAMP_SECONDS_UNIT as u64) - NTP_TIMESTAMP_DELTA) as u32,
            (t3 % (TIMESTAMP_SECONDS_UNIT as u64)) as u32,
            delay_of(t1, t2, t3, t4) as u64,
            offset_of(t1, t2, t3, t4) as i64,
        ),
{
    let d1: u64 = t4 - t1;
    let d2: u64 = t3 - t2;
    let delta: i64 = (d1 as i64) - (d2 as i64);
    let roundtrip: u64 = if delta >= 0 {
        delta as u64
    } else {
        (-delta) as u64
    };
    let o1: i64 = if t2 >= t1 {
        (t2 - t1) as i64
    } else {
        -((t1 - t2) as i64)
    };
    let o2: i64 = if t3 >= t4 {
        (t3 - t4) as i64
    } else {
        -((t4 - t3) as i64)
    };
    let sum: i64 = o1 + o2;
    let theta: i64 = if sum >= 0 {
        ((sum as u64) / 2) as i64
    } else {
        -((((-sum) as u64) / 2) as i64)
    };
    let (seconds, fraction) = split_timestamp(t3);
    NtpResult::new(seconds, fraction, roundtrip, theta)
}

/// Decode a 48-byte response, run the validation pipeline on it, and either
/// report the first failing check or compute the time result from the four
/// exchange timestamps.
///
/// * `req` - the request packet this response must answer
/// * `resp` - the raw datagram, exactly 48 bytes (the caller's check)
/// * `recv_timestamp` - the local receive time, in wire timestamp format
pub fn process_response(req: &NtpPacket, resp: &Vec<u8>, recv_timestamp: u64) -> (r: Result<
    NtpResult,
    Error,
>)
    requires
        resp@.len() == NTP_PACKET_SIZE,
        datagram_in_range(*req, resp@, recv_timestamp),
    ensures
        r == response_outcome(*req, resp@, recv_timestamp),
{
    let packet = decode(resp);
    match validate(req, &packet) {
        Some(e) => Err(e),
        None => Ok(
            compute_result(
                req.tx_timestamp,
                packet.recv_timestamp,
                packet.tx_timestamp,
                recv_timestamp,
            ),
        ),
    }
}

/// Classify a received datagram exactly as the exchange demands: a response
/// from an unexpected source fails with `SourceMismatch` whatever its
/// payload; then a length other than 48 bytes fails with `MalformedResponse`
/// before any decoding; only then is the payload decoded, validated and
/// turned into a time result.
///
/// * `req` - the request packet this datagram must answer
/// * `source_matches` - whether the datagram's source address equals the
///   address the request was sent to
/// * `resp` - the raw datagram
/// * `recv_timestamp` - the local receive time, in wire timestamp format
pub fn process_datagram(
    req: &NtpPacket,
    source_matches: bool,
    resp: &Vec<u8>,
    recv_timestamp: u64,
) -> (r: Result<NtpResult, Error>)
    requires
        source_matches ==> datagram_in_range(*req, resp@, recv_timestamp),
    ensures
        r == datagram_outcome(*req, source_matches, resp@, recv_timestamp),
        !source_matches ==> r == Result::<NtpResult, Error>::Err(Error::SourceMismatch),
        source_matches && resp@.len() != NTP_PACKET_SIZE ==> r == Result::<NtpResult, Error>::Err(
            Error::MalformedResponse,
        ),
{
    if !source_matches {
        Err(Error::SourceMismatch)
    } else if resp.len() != NTP_PACKET_SIZE {
        Err(Error::MalformedResponse)
    } else {
        process_response(req, resp, recv_timestamp)
    }
}

/// Decide at run time whether a datagram satisfies the arithmetic bounds
/// that [`process_datagram`] asks of its caller, so that an unverified
/// caller can test the precondition before handing the datagram over.
pub fn datagram_arith_ok(req: &NtpPacket, resp: &Vec<u8>, recv_timestamp: u64) -> (r: bool)
    ensures
        r == datagram_in_range(*req, resp@, recv_timestamp),
{
    if resp.len() != NTP_PACKET_SIZE {
        return true;
    }
    let packet = decode(resp);
    if validate(req, &packet).is_some() {
        return true;
    }
    let t1 = req.tx_timestamp;
    let t2 = packet.recv_timestamp;
    let t3 = packet.tx_timestamp;
    let t4 = recv_timestamp;
    let imax: u64 = 0x7FFF_FFFF_FFFF_FFFF;
    if !(t1 <= t4 && t2 <= t3) {
        return false;
    }
    if !(t4 - t1 <= imax && t3 - t2 <= imax) {
        return false;
    }
    let diff21_ok: bool = if t2 >= t1 {
        t2 - t1 <= imax
    } else {
        t1 - t2 <= imax
    };
    let diff34_ok: bool = if t3 >= t4 {
        t3 - t4 <= imax
    } else {
        t4 - t3 <= imax
    };
    if !(diff21_ok && diff34_ok) {
        return false;
    }
    let o1: i64 = if t2 >= t1 {
        (t2 - t1) as i64
    } else {
        -((t1 - t2) as i64)
    };
    let o2: i64 = if t3 >= t4 {
        (t3 - t4) as i64
    } else {
        -((t4 - t3) as i64)
    };
    let sum_ok: bool = if o1 >= 0 && o2 >= 0 {
        o1 <= i64::MAX - o2
    } else if o1 < 0 && o2 < 0 {
        o1 >= -i64::MAX - o2
    } else {
        true
    };
    if !sum_ok {
        return false;
    }
    let tx_sec64: u64 = t3 / TIMESTAMP_SECONDS_UNIT;
    let tx_frac: u64 = t3 % TIMESTAMP_SECONDS_UNIT;
    if tx_sec64 < NTP_TIMESTAMP_DELTA as u64 {
        return false;
    }
    (tx_sec64 - NTP_TIMESTAMP_DELTA as u64) + tx_frac / (NSEC_IN_SEC as u64) <= u32::MAX as u64
}

} // verus!
