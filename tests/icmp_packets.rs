use pong::ping_error::{PingError, ReplyFault};
use pong::task::icmp_ping::{
    build_icmp_v4_echo, build_icmp_v6_echo, check_reply, checksum_v4, IcmpPing, IpFamily,
};

fn with_checksum(buf: &[u8]) -> Vec<u8> {
    let c = checksum_v4(buf);
    let mut out = buf.to_vec();
    if out.len() % 2 == 1 {
        out.push(0);
    }
    out.extend_from_slice(&c.to_be_bytes());
    out
}

#[test]
fn checksum_of_ipv4_header_example() {
    let header = [
        0x45u8, 0x00, 0x00, 0x73, 0x00, 0x00, 0x40, 0x00, 0x40, 0x11, 0x00, 0x00, 0xc0, 0xa8,
        0x00, 0x01, 0xc0, 0xa8, 0x00, 0xc7,
    ];
    assert_eq!(checksum_v4(&header), 0xb861);
}

#[test]
fn checksum_of_empty_buffer() {
    assert_eq!(checksum_v4(&[]), 0xffff);
}

#[test]
fn checksum_pads_odd_trailing_byte() {
    assert_eq!(checksum_v4(&[0x01]), 0xfeff);
    assert_eq!(checksum_v4(&[0x01, 0x02, 0x03]), !(0x0102u16 + 0x0300));
}

#[test]
fn checksum_folds_carries() {
    // 0xffff + 0xffff = 0x1fffe, folded to 0xffff, complemented to 0.
    assert_eq!(checksum_v4(&[0xff, 0xff, 0xff, 0xff]), 0);
    // 0xff00 + 0x0200 = 0x10100, folded to 0x0101.
    assert_eq!(checksum_v4(&[0xff, 0x00, 0x02, 0x00]), !0x0101u16);
}

#[test]
fn checksum_round_trip_even_length() {
    let buf = [0x12u8, 0x34, 0xab, 0xcd, 0xff, 0xee];
    assert_eq!(checksum_v4(&with_checksum(&buf)), 0);
}

#[test]
fn checksum_round_trip_odd_length() {
    let buf = [0x12u8, 0x34, 0xab, 0xcd, 0x99];
    assert_eq!(checksum_v4(&with_checksum(&buf)), 0);
}

#[test]
fn checksum_round_trip_empty() {
    assert_eq!(checksum_v4(&with_checksum(&[])), 0);
    assert_eq!(checksum_v4(&with_checksum(&[0u8])), 0);
}

#[test]
fn v4_echo_request_bytes() {
    let packet = build_icmp_v4_echo(0x1234, 1);
    assert_eq!(packet, vec![8, 0, 0xe5, 0xca, 0x12, 0x34, 0x00, 0x01]);
    assert_eq!(checksum_v4(&packet), 0);
}

#[test]
fn v6_echo_request_bytes() {
    let packet = build_icmp_v6_echo(0x1234, 0xabcd);
    assert_eq!(packet, vec![128, 0, 0, 0, 0x12, 0x34, 0xab, 0xcd]);
}

fn v4_reply_for(packet: &[u8]) -> Vec<u8> {
    let mut reply = vec![0u8; 20];
    reply[0] = 0x45;
    reply.extend_from_slice(&[0, 0, 0, 0]);
    reply.extend_from_slice(&packet[4..8]);
    reply
}

#[test]
fn v4_reply_with_matching_fields_is_accepted() {
    let packet = build_icmp_v4_echo(7, 9);
    let reply = v4_reply_for(&packet);
    assert_eq!(check_reply(IpFamily::V4, &packet, &reply), Ok(()));
}

#[test]
fn v4_reply_with_other_sequence_is_rejected() {
    let packet = build_icmp_v4_echo(7, 9);
    let mut reply = v4_reply_for(&packet);
    reply[27] = 10;
    assert_eq!(
        check_reply(IpFamily::V4, &packet, &reply),
        Err(PingError::InvalidReply(ReplyFault::Echo { sent: packet.clone(), received: reply.clone() }))
    );
}

#[test]
fn v4_reply_with_other_identifier_is_rejected() {
    let packet = build_icmp_v4_echo(7, 9);
    let mut reply = v4_reply_for(&packet);
    reply[25] = 8;
    assert!(matches!(
        check_reply(IpFamily::V4, &packet, &reply),
        Err(PingError::InvalidReply(ReplyFault::Echo { .. }))
    ));
}

#[test]
fn v4_reply_of_wrong_length_is_rejected() {
    let packet = build_icmp_v4_echo(7, 9);
    let mut reply = v4_reply_for(&packet);
    reply.push(0);
    assert!(check_reply(IpFamily::V4, &packet, &reply).is_err());
    assert!(check_reply(IpFamily::V4, &packet, &reply[..27]).is_err());
}

#[test]
fn v6_reply_checks_length_and_fields() {
    let packet = build_icmp_v6_echo(7, 9);
    let reply = vec![129u8, 0, 0x12, 0x34, 0, 7, 0, 9];
    assert_eq!(check_reply(IpFamily::V6, &packet, &reply), Ok(()));
    let other = vec![129u8, 0, 0x12, 0x34, 0, 7, 0, 8];
    assert!(check_reply(IpFamily::V6, &packet, &other).is_err());
    assert!(check_reply(IpFamily::V6, &packet, &v4_reply_for(&packet)).is_err());
}

#[test]
fn identifier_is_truncated_process_id() {
    let ping = IcmpPing::new(70000);
    assert_eq!(ping.id, 4464);
    assert_eq!(ping.seq, 0);
}

#[test]
fn sequence_advances_and_wraps() {
    let mut ping = IcmpPing::new(0x1234);
    let first = ping.next_echo(IpFamily::V4);
    assert_eq!(ping.seq, 1);
    assert_eq!(first, build_icmp_v4_echo(0x1234, 1));
    let second = ping.next_echo(IpFamily::V6);
    assert_eq!(second, build_icmp_v6_echo(0x1234, 2));
    ping.seq = 0xffff;
    let wrapped = ping.next_echo(IpFamily::V4);
    assert_eq!(ping.seq, 0);
    assert_eq!(wrapped, build_icmp_v4_echo(0x1234, 0));
}
