use sntprs::ntppacket::{decode, encode, NtpPacket, NTP_PACKET_SIZE};
use sntprs::timestamp::{split_timestamp, timestamp_from_unix, NTP_TIMESTAMP_DELTA};

fn sample_packet() -> NtpPacket {
    NtpPacket {
        li_vn_mode: 0x24,
        stratum: 2,
        poll: 6,
        precision: -20,
        root_delay: 0x0102_0304,
        root_dispersion: 0x0506_0708,
        ref_id: 0x474F_4553,
        ref_timestamp: 0x1122_3344_5566_7788,
        origin_timestamp: 0x99AA_BBCC_DDEE_FF00,
        recv_timestamp: 0x0123_4567_89AB_CDEF,
        tx_timestamp: 0xFEDC_BA98_7654_3210,
    }
}

#[test]
fn test_packet_round_trip() {
    let p = sample_packet();
    let bytes = encode(&p);
    assert_eq!(bytes.len(), NTP_PACKET_SIZE);
    let q = decode(&bytes);
    assert_eq!(p, q);
}

#[test]
fn test_encode_big_endian_layout() {
    let p = sample_packet();
    let bytes = encode(&p);
    assert_eq!(bytes[0], 0x24);
    assert_eq!(bytes[1], 2);
    assert_eq!(bytes[2], 6);
    assert_eq!(bytes[3], (-20i8) as u8);
    assert_eq!(&bytes[4..8], &[0x01, 0x02, 0x03, 0x04]);
    assert_eq!(&bytes[8..12], &[0x05, 0x06, 0x07, 0x08]);
    assert_eq!(&bytes[12..16], &[0x47, 0x4F, 0x45, 0x53]);
    assert_eq!(&bytes[16..24], &[0x11, 0x22, 0x33, 0x44, 0x55, 0x66, 0x77, 0x88]);
    assert_eq!(&bytes[24..32], &[0x99, 0xAA, 0xBB, 0xCC, 0xDD, 0xEE, 0xFF, 0x00]);
    assert_eq!(&bytes[32..40], &[0x01, 0x23, 0x45, 0x67, 0x89, 0xAB, 0xCD, 0xEF]);
    assert_eq!(&bytes[40..48], &[0xFE, 0xDC, 0xBA, 0x98, 0x76, 0x54, 0x32, 0x10]);
}

#[test]
fn test_decode_reads_big_endian() {
    let mut bytes = vec![0u8; NTP_PACKET_SIZE];
    bytes[4] = 0x01;
    bytes[5] = 0x02;
    bytes[6] = 0x03;
    bytes[7] = 0x04;
    bytes[40] = 0x11;
    bytes[47] = 0x88;
    let p = decode(&bytes);
    assert_eq!(p.root_delay, 0x0102_0304);
    assert_eq!(p.tx_timestamp, 0x1100_0000_0000_0088);
}

#[test]
fn test_new_request_header() {
    let p = NtpPacket::new();
    assert_eq!(p.li_vn_mode, 0x23);
    assert_eq!(p.stratum, 0);
    assert_eq!(p.poll, 0);
    assert_eq!(p.precision, 0);
    assert_eq!(p.root_delay, 0);
    assert_eq!(p.root_dispersion, 0);
    assert_eq!(p.ref_id, 0);
    assert_eq!(p.ref_timestamp, 0);
    assert_eq!(p.origin_timestamp, 0);
    assert_eq!(p.recv_timestamp, 0);
    // The transmit timestamp is stamped with "now": microsecond fraction in
    // the low half, epoch-shifted seconds in the high half.
    assert!(p.tx_timestamp & 0xFFFF_FFFF < 1_000_000);
    assert!((p.tx_timestamp >> 32) as u32 >= NTP_TIMESTAMP_DELTA);
}

#[test]
fn test_timestamp_pack_and_split() {
    let ts0 = timestamp_from_unix(0, 0);
    assert_eq!(ts0, (NTP_TIMESTAMP_DELTA as u64) << 32);
    assert_eq!(split_timestamp(ts0), (0, 0));

    let ts1 = timestamp_from_unix(1, 999_999);
    assert_eq!(ts1, ((1 + NTP_TIMESTAMP_DELTA as u64) << 32) + 999_999);
    assert_eq!(split_timestamp(ts1), (1, 999_999));
}

#[test]
fn test_timestamp_seconds_wrap_at_era_end() {
    // The epoch-shifted seconds keep only their low 32 bits: at the end of
    // the timestamp era they wrap to zero.
    let secs = 0x1_0000_0000u64 - NTP_TIMESTAMP_DELTA as u64;
    assert_eq!(timestamp_from_unix(secs, 5), 5);
}
