use sntprs::ntppacket::{encode, NtpPacket, NTP_PACKET_SIZE};
use sntprs::timestamp::NTP_TIMESTAMP_DELTA;
use sntprs::{datagram_arith_ok, process_datagram, Error};

const T1: u64 = (NTP_TIMESTAMP_DELTA as u64 + 100) << 32;
const T2: u64 = T1 + 0x10000;
const T3: u64 = T1 + 0x30000;
const T4: u64 = T1 + 0x100000;

fn request_packet() -> NtpPacket {
    NtpPacket {
        li_vn_mode: 0x23,
        stratum: 0,
        poll: 0,
        precision: 0,
        root_delay: 0,
        root_dispersion: 0,
        ref_id: 0,
        ref_timestamp: 0,
        origin_timestamp: 0,
        recv_timestamp: 0,
        tx_timestamp: T1,
    }
}

fn valid_response() -> NtpPacket {
    NtpPacket {
        li_vn_mode: 0x24,
        stratum: 1,
        poll: 0,
        precision: 0,
        root_delay: 0,
        root_dispersion: 0,
        ref_id: 0,
        ref_timestamp: 0,
        origin_timestamp: T1,
        recv_timestamp: T2,
        tx_timestamp: T3,
    }
}

#[test]
fn test_end_to_end_scripted_response() {
    let req = request_packet();
    let bytes = encode(&valid_response());
    assert!(datagram_arith_ok(&req, &bytes, T4));
    let result = process_datagram(&req, true, &bytes, T4).unwrap();

    // delay = (T4 - T1) - (T3 - T2), offset = ((T2 - T1) + (T3 - T4)) / 2.
    let expected_delay = 0x100000u64 - 0x20000u64;
    let expected_offset = (0x10000i64 + (0x30000i64 - 0x100000i64)) / 2;
    assert_eq!(result.roundtrip(), expected_delay);
    assert_eq!(result.offset(), expected_offset);
    assert_eq!(result.sec(), 100);
    assert_eq!(result.nsec(), 0x30000);
}

#[test]
fn test_source_mismatch_wins_over_valid_payload() {
    let req = request_packet();
    let bytes = encode(&valid_response());
    let result = process_datagram(&req, false, &bytes, T4);
    assert_eq!(result, Err(Error::SourceMismatch));
}

#[test]
fn test_malformed_length_47_and_49() {
    let req = request_packet();
    let mut bytes = encode(&valid_response());
    bytes.pop();
    assert_eq!(bytes.len(), 47);
    let result = process_datagram(&req, true, &bytes, T4);
    assert_eq!(result, Err(Error::MalformedResponse));

    let mut bytes = encode(&valid_response());
    bytes.push(0);
    assert_eq!(bytes.len(), 49);
    let result = process_datagram(&req, true, &bytes, T4);
    assert_eq!(result, Err(Error::MalformedResponse));
}

#[test]
fn test_origin_mismatch_wins_over_stratum() {
    let req = request_packet();
    let mut resp = valid_response();
    resp.origin_timestamp = T1 + 1;
    resp.stratum = 0;
    let bytes = encode(&resp);
    let result = process_datagram(&req, true, &bytes, T4);
    assert_eq!(result, Err(Error::OriginTimestampMismatch));
}

#[test]
fn test_invalid_mode() {
    let req = request_packet();
    let mut resp = valid_response();
    // Mode 3 (client) is not a server response mode.
    resp.li_vn_mode = 0x23;
    let bytes = encode(&resp);
    let result = process_datagram(&req, true, &bytes, T4);
    assert_eq!(result, Err(Error::InvalidMode));
}

#[test]
fn test_version_mismatch() {
    let req = request_packet();
    let mut resp = valid_response();
    // Version 3 against the request's version 4, mode still unicast.
    resp.li_vn_mode = (3 << 3) | 4;
    let bytes = encode(&resp);
    let result = process_datagram(&req, true, &bytes, T4);
    assert_eq!(result, Err(Error::VersionMismatch));
}

#[test]
fn test_invalid_stratum() {
    let req = request_packet();
    let mut resp = valid_response();
    resp.stratum = 0;
    let bytes = encode(&resp);
    let result = process_datagram(&req, true, &bytes, T4);
    assert_eq!(result, Err(Error::InvalidStratum));
}

#[test]
fn test_broadcast_mode_accepted() {
    let req = request_packet();
    let mut resp = valid_response();
    resp.li_vn_mode = 0x25;
    let bytes = encode(&resp);
    let result = process_datagram(&req, true, &bytes, T4);
    assert!(result.is_ok());
}

#[test]
fn test_arith_check_rejects_server_answering_before_request() {
    let req = request_packet();
    let mut resp = valid_response();
    // A transmit timestamp before the receive timestamp breaks the bounds
    // the calculator relies on.
    resp.recv_timestamp = T3;
    resp.tx_timestamp = T2;
    let bytes = encode(&resp);
    assert!(!datagram_arith_ok(&req, &bytes, T4));
}

#[test]
fn test_offset_truncates_toward_zero() {
    // sum = (T2 - T1) + (T3 - T4) = -3 + -2 = -5; the division truncates
    // toward zero, so the offset is -2, not the floor -3.
    let base = (sntprs::timestamp::NTP_TIMESTAMP_DELTA as u64 + 50) << 32;
    let mut req = request_packet();
    req.tx_timestamp = base + 3;
    let mut resp = valid_response();
    resp.origin_timestamp = base + 3;
    resp.recv_timestamp = base;
    resp.tx_timestamp = base + 2;
    let bytes = encode(&resp);
    let t4 = base + 4;
    assert!(datagram_arith_ok(&req, &bytes, t4));
    let result = process_datagram(&req, true, &bytes, t4).unwrap();
    assert_eq!(result.offset(), -2);
    // delay = (T4 - T1) - (T3 - T2) = 1 - 2 = -1, made absolute.
    assert_eq!(result.roundtrip(), 1);
    assert_eq!(result.sec(), 50);
    assert_eq!(result.nsec(), 2);
}

#[test]
fn test_packet_size_is_48() {
    assert_eq!(NTP_PACKET_SIZE, 48);
}
