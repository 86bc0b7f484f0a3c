use ntp_client::{Ntp, NtpError};

fn sample_packet() -> Ntp {
    Ntp {
        leap_version_mode: 0xE4,
        stratum: 2,
        poll: 6,
        precision: 0xE9,
        root_delay: 0x0102_0304,
        root_dispersion: 0x0506_0708,
        reference_id: 0x4C4F_434C,
        reference_t_s: 0xE000_0001,
        reference_t_f: 0x8000_0000,
        origin_t_s: 0xDEAD_BEEF,
        origin_t_f: 0x0000_0001,
        receive_t_s: 0xFFFF_FFFF,
        receive_t_f: 0xFFFF_FFFF,
        transmit_t_s: 0x1234_5678,
        transmit_t_f: 0x9ABC_DEF0,
    }
}

#[test]
fn packet_round_trips_through_bytes() {
    let p = sample_packet();
    let bytes = p.to_slice();
    assert_eq!(Ntp::from_slice(bytes), p);
    assert_eq!(Ntp::decode(&bytes), Ok(p));
}

#[test]
fn bytes_round_trip_through_packet() {
    let mut b = [0u8; 48];
    for (i, x) in b.iter_mut().enumerate() {
        *x = (i as u8).wrapping_mul(37).wrapping_add(11);
    }
    assert_eq!(Ntp::from_slice(b).to_slice(), b);
    assert_eq!(Ntp::decode(&b).unwrap().to_slice(), b);
}

#[test]
fn fields_are_big_endian_in_order() {
    let bytes = sample_packet().to_slice();
    assert_eq!(&bytes[0..4], &[0xE4, 2, 6, 0xE9]);
    assert_eq!(&bytes[4..8], &[1, 2, 3, 4]);
    assert_eq!(&bytes[8..12], &[5, 6, 7, 8]);
    assert_eq!(&bytes[12..16], b"LOCL");
    assert_eq!(&bytes[16..24], &[0xE0, 0, 0, 1, 0x80, 0, 0, 0]);
    assert_eq!(&bytes[24..32], &[0xDE, 0xAD, 0xBE, 0xEF, 0, 0, 0, 1]);
    assert_eq!(&bytes[32..40], &[0xFF; 8]);
    assert_eq!(&bytes[40..48], &[0x12, 0x34, 0x56, 0x78, 0x9A, 0xBC, 0xDE, 0xF0]);
}

#[test]
fn decode_reads_each_field() {
    let mut b = [0u8; 48];
    b[0] = 0x24;
    b[1] = 1;
    b[12..16].copy_from_slice(b"GPS\0");
    b[32..36].copy_from_slice(&[0xE9, 0x1F, 0x2A, 0x3B]);
    b[44..48].copy_from_slice(&[0, 0, 1, 0]);
    let p = Ntp::decode(&b).unwrap();
    assert_eq!(p.leap_version_mode, 0x24);
    assert_eq!(p.stratum, 1);
    assert_eq!(p.reference_id, 0x4750_5300);
    assert_eq!(p.receive_t_s, 0xE91F_2A3B);
    assert_eq!(p.transmit_t_f, 256);
    assert_eq!(p.origin_t_s, 0);
}

#[test]
fn decode_rejects_wrong_lengths() {
    let b = [0u8; 100];
    for len in [0usize, 1, 47, 49, 64, 100] {
        assert_eq!(Ntp::decode(&b[..len]), Err(NtpError::MalformedPacket));
    }
    assert!(Ntp::decode(&b[..48]).is_ok());
}

#[test]
fn client_request_shape() {
    let p = Ntp::init_client(4);
    assert_eq!(p.leap_version_mode, 0b00_100_011);
    assert_eq!(p.leap_version_mode, 0x23);
    assert_eq!(p.stratum, 0);
    assert_eq!(p.poll, 10);
    assert_eq!(p.precision, 32);
    let bytes = p.to_slice();
    assert_eq!(&bytes[0..4], &[0x23, 0, 10, 32]);
    assert!(bytes[4..].iter().all(|&x| x == 0));
}

#[test]
fn client_request_other_version() {
    assert_eq!(Ntp::init_client(3).leap_version_mode, 0x1B);
}

#[test]
fn flags_packing() {
    assert_eq!(Ntp::leap_version_mode(0, 4, 3), 0x23);
    assert_eq!(Ntp::leap_version_mode(3, 4, 4), 0xE4);
    assert_eq!(Ntp::leap_version_mode(1, 0, 0), 0x40);
    assert_eq!(Ntp::leap_version_mode(3, 7, 7), 0xFF);
}

#[test]
fn reply_must_echo_request_transmit() {
    let mut request = Ntp::init_client(4);
    request.transmit_t_s = 0xE000_0000;
    request.transmit_t_f = 77;
    let mut reply = sample_packet();
    assert!(!reply.is_reply_to(&request));
    reply.origin_t_s = 0xE000_0000;
    reply.origin_t_f = 77;
    assert!(reply.is_reply_to(&request));
    reply.origin_t_f = 78;
    assert!(!reply.is_reply_to(&request));
}
