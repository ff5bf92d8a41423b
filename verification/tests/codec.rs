use icmp_probe::codec::{encode_echo_request, response_from, IcmpData, Ipv4Address};

/// Recomputes an internet checksum sum over `n` big-endian words starting at
/// `start`, stored checksum included, and folds the carries: a valid region
/// folds to all ones.
fn folded_sum(bytes: &[u8], start: usize, n: usize) -> u32 {
    let mut sum: u32 = 0;
    for i in 0..n {
        sum += (bytes[start + 2 * i] as u32) * 256 + (bytes[start + 2 * i + 1] as u32);
    }
    while sum > 0xFFFF {
        sum = (sum & 0xFFFF) + (sum >> 16);
    }
    sum
}

fn wrap_in_time_exceeded(src: (u8, u8, u8, u8), fragment: &[u8]) -> Vec<u8> {
    let mut env = vec![0u8; 28];
    env[0] = 0x45;
    env[12] = src.0;
    env[13] = src.1;
    env[14] = src.2;
    env[15] = src.3;
    env[20] = 11;
    env.extend_from_slice(fragment);
    env
}

#[test]
fn encode_scenario() {
    let dest = Ipv4Address::from_octets(10, 0, 0, 1);
    let buf = encode_echo_request(dest, 5, 2);
    assert_eq!(buf.len(), 32);
    assert_eq!(buf[0], 0x45);
    assert_eq!(buf[2..4], [0, 32]);
    assert_eq!(buf[8], 5);
    assert_eq!(buf[9], 1);
    assert_eq!(buf[16..20], [10, 0, 0, 1]);
    assert_eq!(buf[20], 8);
    assert_eq!(buf[21], 0);
    assert_eq!(buf[24..26], [0, 2]);
    assert_eq!(buf[26..28], [0, 5]);
}

#[test]
fn encode_checksums_self_verify() {
    for (ttl, ident) in [(1u8, 1u16), (5, 2), (255, 0xFFFF), (64, 0)] {
        let dest = Ipv4Address::from_octets(192, 168, 255, 254);
        let buf = encode_echo_request(dest, ttl, ident);
        assert_ne!(folded_sum(&buf, 0, 10), 0, "header must not be all zero");
        assert_eq!(folded_sum(&buf, 0, 10), 0xFFFF, "IPv4 checksum must self-verify");
        assert_eq!(folded_sum(&buf, 20, 6), 0xFFFF, "ICMP checksum must self-verify");
    }
}

#[test]
fn time_exceeded_scenario() {
    let dest = Ipv4Address::from_octets(10, 0, 0, 1);
    let probe = encode_echo_request(dest, 5, 2);
    let env = wrap_in_time_exceeded((192, 168, 0, 1), &probe);
    let data = IcmpData::new(&env);
    assert_eq!(data.get_type(), 11);
    assert_eq!(data.get_code(), 0);
    assert_eq!(data.get_src(), Ipv4Address::from_octets(192, 168, 0, 1));
    assert_eq!(data.get_identifier(), 2);
    assert_eq!(data.get_sequence_number(), 5);
}

#[test]
fn echo_reply_scenario() {
    let mut env = vec![0u8; 28];
    env[0] = 0x45;
    env[12] = 10;
    env[15] = 1;
    env[20] = 0;
    env[24] = 0;
    env[25] = 7;
    env[26] = 0;
    env[27] = 3;
    let data = IcmpData::new(&env);
    assert_eq!(data.get_src(), Ipv4Address::from_octets(10, 0, 0, 1));
    assert_eq!(data.get_type(), 0);
    assert_eq!(data.get_identifier(), 7);
    assert_eq!(data.get_sequence_number(), 3);
}

#[test]
fn truncated_time_exceeded_degrades() {
    let dest = Ipv4Address::from_octets(10, 0, 0, 1);
    let probe = encode_echo_request(dest, 5, 2);
    let env = wrap_in_time_exceeded((192, 168, 0, 1), &probe);
    // Cut the embedded fragment short at every length that still admits
    // decoding: the outer fields survive, the correlation fields are absent.
    for cut in 22..56 {
        let short = env[..cut].to_vec();
        let data = IcmpData::new(&short);
        assert_eq!(data.get_type(), 11);
        assert_eq!(data.get_src(), Ipv4Address::from_octets(192, 168, 0, 1));
        assert_eq!(data.get_identifier(), 0, "cut at {cut}");
        assert_eq!(data.get_sequence_number(), 0, "cut at {cut}");
    }
    // One byte more than the embedded echo-request header needs: correlated.
    let data = IcmpData::new(&env[..56].to_vec());
    assert_eq!(data.get_identifier(), 2);
    assert_eq!(data.get_sequence_number(), 5);
}

#[test]
fn embedded_fragment_with_options_header() {
    // An embedded IPv4 header of six words (one option word): the echo
    // request sits four bytes further in.
    let mut env = vec![0u8; 28 + 24 + 8];
    env[0] = 0x45;
    env[20] = 11;
    env[28] = 0x46;
    let off = 28 + 24;
    env[off] = 8;
    env[off + 4] = 0x12;
    env[off + 5] = 0x34;
    env[off + 6] = 0;
    env[off + 7] = 9;
    let data = IcmpData::new(&env);
    assert_eq!(data.get_identifier(), 0x1234);
    assert_eq!(data.get_sequence_number(), 9);
}

#[test]
fn embedded_fragment_bad_header_length_degrades() {
    // An embedded header length below five words is malformed: absent fields.
    let mut env = vec![0u8; 60];
    env[0] = 0x45;
    env[20] = 11;
    env[28] = 0x43;
    env[52] = 0xAB;
    env[53] = 0xCD;
    let data = IcmpData::new(&env);
    assert_eq!(data.get_type(), 11);
    assert_eq!(data.get_identifier(), 0);
    assert_eq!(data.get_sequence_number(), 0);
}

#[test]
fn unrecognized_type_not_correlated() {
    // A destination-unreachable message (type 3) is representable but never
    // carries correlation fields.
    let mut env = vec![0u8; 56];
    env[0] = 0x45;
    env[12] = 172;
    env[13] = 16;
    env[14] = 0;
    env[15] = 9;
    env[16] = 10;
    env[19] = 2;
    env[20] = 3;
    env[21] = 1;
    env[24] = 0xBE;
    env[25] = 0xEF;
    let data = IcmpData::new(&env);
    assert_eq!(data.get_src(), Ipv4Address::from_octets(172, 16, 0, 9));
    assert_eq!(data.get_dst(), Ipv4Address::from_octets(10, 0, 0, 2));
    assert_eq!(data.get_type(), 3);
    assert_eq!(data.get_code(), 1);
    assert_eq!(data.get_identifier(), 0);
    assert_eq!(data.get_sequence_number(), 0);
}

#[test]
fn truncated_echo_reply_degrades() {
    let mut env = vec![0u8; 26];
    env[0] = 0x45;
    env[20] = 0;
    env[24] = 0;
    env[25] = 7;
    let data = IcmpData::new(&env);
    assert_eq!(data.get_type(), 0);
    assert_eq!(data.get_identifier(), 0);
    assert_eq!(data.get_sequence_number(), 0);
}

#[test]
fn receive_absence_and_delivery() {
    assert!(response_from(None).is_none());
    let mut env = vec![0u8; 28];
    env[0] = 0x45;
    env[12] = 10;
    env[15] = 1;
    env[24] = 0;
    env[25] = 9;
    env[27] = 4;
    let decoded = response_from(Some(env)).expect("one forwarded datagram, one response");
    assert_eq!(decoded.get_identifier(), 9);
    assert_eq!(decoded.get_sequence_number(), 4);
    assert_eq!(decoded.get_src(), Ipv4Address::from_octets(10, 0, 0, 1));
}

#[test]
fn address_octets_round_trip() {
    let a = Ipv4Address::from_octets(203, 0, 113, 77);
    assert_eq!(a.bits, 0xCB00714D);
    assert_eq!(a.octets(), (203, 0, 113, 77));
}
