use dhcp_packet::error::DecodeError;
use dhcp_packet::options::parse_dhcp_options;
use dhcp_packet::packet::DhcpPacket;
use dhcp_packet::types::{
    BootpOpcode, DhcpForceRenewNonceAlgos, DhcpOption, DhcpOptionID, HardwareType, Ipv4Address,
};

/// A valid 240-byte fixed header: BootRequest, Ethernet, xid
/// 0x3903f326, 4 elapsed seconds, broadcast flag set, client address
/// 192.168.1.5, the other address fields absent, MAC AA:BB:CC:DD:EE:FF,
/// and the magic cookie.
fn base_header() -> Vec<u8> {
    let mut b = vec![0u8; 240];
    b[0] = 1; // opcode: request
    b[1] = 1; // hardware type: ethernet
    b[2] = 6; // hardware address length
    b[3] = 0; // hops
    b[4] = 0x39;
    b[5] = 0x03;
    b[6] = 0xf3;
    b[7] = 0x26; // xid
    b[8] = 0;
    b[9] = 4; // secs
    b[10] = 0x80;
    b[11] = 0; // flags: broadcast
    b[12] = 192;
    b[13] = 168;
    b[14] = 1;
    b[15] = 5; // ciaddr
    b[28] = 0xAA;
    b[29] = 0xBB;
    b[30] = 0xCC;
    b[31] = 0xDD;
    b[32] = 0xEE;
    b[33] = 0xFF; // chaddr
    b[236] = 0x63;
    b[237] = 0x82;
    b[238] = 0x53;
    b[239] = 0x63; // magic cookie
    b
}

#[test]
fn header_alone_decodes_with_empty_options() {
    let b = base_header();
    let p = DhcpPacket::parse(&b).unwrap();
    assert!(matches!(p.opcode, BootpOpcode::BootRequest));
    assert!(matches!(p.htype, HardwareType::Ethernet));
    assert_eq!(p.hlen, 6);
    assert_eq!(p.hops, 0);
    assert_eq!(p.xid, 0x3903f326);
    assert_eq!(p.secs.secs, 4);
    assert_eq!(p.secs.nanos, 0);
    assert!(p.broadcast);
    assert!(p.options.is_empty());
}

#[test]
fn address_fields_absent_when_all_zero() {
    let b = base_header();
    let p = DhcpPacket::parse(&b).unwrap();
    assert_eq!(p.ciaddr, Some(Ipv4Address::new(192, 168, 1, 5)));
    assert_eq!(p.yiaddr, None);
    assert_eq!(p.siaddr, None);
    assert_eq!(p.giaddr, None);
}

#[test]
fn mac_ignores_ten_reserved_bytes() {
    let mut b = base_header();
    for k in 34..44 {
        b[k] = 0x5A; // arbitrary junk in the reserved region
    }
    let p = DhcpPacket::parse(&b).unwrap();
    assert_eq!(
        (p.chaddr.m0, p.chaddr.m1, p.chaddr.m2, p.chaddr.m3, p.chaddr.m4, p.chaddr.m5),
        (0xAA, 0xBB, 0xCC, 0xDD, 0xEE, 0xFF)
    );
}

#[test]
fn bad_magic_cookie_fails() {
    let mut b = base_header();
    b[239] = 0x64;
    assert_eq!(DhcpPacket::parse(&b).unwrap_err(), DecodeError::BadMagicCookie);
}

#[test]
fn invalid_opcode_fails() {
    let mut b = base_header();
    b[0] = 7;
    assert_eq!(DhcpPacket::parse(&b).unwrap_err(), DecodeError::InvalidOpcode);
}

#[test]
fn boot_reply_opcode_decodes() {
    let mut b = base_header();
    b[0] = 2;
    let p = DhcpPacket::parse(&b).unwrap();
    assert!(matches!(p.opcode, BootpOpcode::BootReply));
}

#[test]
fn unsupported_hardware_type_fails() {
    let mut b = base_header();
    b[1] = 6;
    assert_eq!(DhcpPacket::parse(&b).unwrap_err(), DecodeError::UnsupportedHardwareType);
}

#[test]
fn invalid_flags_fail() {
    let mut b = base_header();
    b[11] = 1;
    assert_eq!(DhcpPacket::parse(&b).unwrap_err(), DecodeError::InvalidFlags);
}

#[test]
fn flags_zero_means_no_broadcast() {
    let mut b = base_header();
    b[10] = 0;
    let p = DhcpPacket::parse(&b).unwrap();
    assert!(!p.broadcast);
}

#[test]
fn short_buffer_is_truncated() {
    let b = base_header();
    assert_eq!(DhcpPacket::parse(&b[..0]).unwrap_err(), DecodeError::Truncated);
    assert_eq!(DhcpPacket::parse(&b[..1]).unwrap_err(), DecodeError::Truncated);
    assert_eq!(DhcpPacket::parse(&b[..11]).unwrap_err(), DecodeError::Truncated);
    assert_eq!(DhcpPacket::parse(&b[..239]).unwrap_err(), DecodeError::Truncated);
}

#[test]
fn message_type_ack_decodes() {
    let mut b = base_header();
    b.extend_from_slice(&[53, 1, 5]);
    let p = DhcpPacket::parse(&b).unwrap();
    match p.options.get(DhcpOptionID::MsgType) {
        Some(DhcpOption::MessageType(t)) => {
            assert_eq!(t.display(), "Ack");
        }
        other => panic!("unexpected option {:?}", other),
    }
}

#[test]
fn message_type_zero_is_invalid() {
    let mut b = base_header();
    b.extend_from_slice(&[53, 1, 0]);
    assert_eq!(DhcpPacket::parse(&b).unwrap_err(), DecodeError::InvalidMessageType);
}

#[test]
fn message_type_ten_is_invalid() {
    let mut b = base_header();
    b.extend_from_slice(&[53, 1, 10]);
    assert_eq!(DhcpPacket::parse(&b).unwrap_err(), DecodeError::InvalidMessageType);
}

#[test]
fn message_type_wrong_length_fails() {
    let mut b = base_header();
    b.extend_from_slice(&[53, 2, 5, 5]);
    assert_eq!(DhcpPacket::parse(&b).unwrap_err(), DecodeError::InvalidOptionLength);
}

#[test]
fn max_message_size_below_minimum_fails() {
    let mut b = base_header();
    b.extend_from_slice(&[57, 2, 0x02, 0x3F]); // 575
    assert_eq!(DhcpPacket::parse(&b).unwrap_err(), DecodeError::InvalidOptionValue);
}

#[test]
fn max_message_size_at_minimum_decodes() {
    let mut b = base_header();
    b.extend_from_slice(&[57, 2, 0x02, 0x40]); // 576
    let p = DhcpPacket::parse(&b).unwrap();
    match p.options.get(DhcpOptionID::MaxMsgSize) {
        Some(DhcpOption::MaxMsgSize(n)) => assert_eq!(*n, 576),
        other => panic!("unexpected option {:?}", other),
    }
}

#[test]
fn max_message_size_typical_decodes() {
    let mut b = base_header();
    b.extend_from_slice(&[57, 2, 0x05, 0xDC]); // 1500
    let p = DhcpPacket::parse(&b).unwrap();
    match p.options.get(DhcpOptionID::MaxMsgSize) {
        Some(DhcpOption::MaxMsgSize(n)) => assert_eq!(*n, 1500),
        other => panic!("unexpected option {:?}", other),
    }
}

#[test]
fn router_list_decodes_in_order() {
    let mut b = base_header();
    b.extend_from_slice(&[3, 8, 0xC0, 0xA8, 0x01, 0x01, 0xC0, 0xA8, 0x01, 0x02]);
    let p = DhcpPacket::parse(&b).unwrap();
    match p.options.get(DhcpOptionID::Router) {
        Some(DhcpOption::Router(l)) => {
            assert_eq!(
                l.0,
                vec![Ipv4Address::new(192, 168, 1, 1), Ipv4Address::new(192, 168, 1, 2)]
            );
        }
        other => panic!("unexpected option {:?}", other),
    }
}

#[test]
fn router_list_unaligned_length_fails() {
    let mut b = base_header();
    b.extend_from_slice(&[3, 6, 0xC0, 0xA8, 0x01, 0x01, 0xC0, 0xA8]);
    assert_eq!(DhcpPacket::parse(&b).unwrap_err(), DecodeError::InvalidOptionLength);
}

#[test]
fn dns_server_list_decodes() {
    let mut b = base_header();
    b.extend_from_slice(&[6, 4, 8, 8, 8, 8]);
    let p = DhcpPacket::parse(&b).unwrap();
    match p.options.get(DhcpOptionID::DNSserver) {
        Some(DhcpOption::DNSserver(l)) => assert_eq!(l.0, vec![Ipv4Address::new(8, 8, 8, 8)]),
        other => panic!("unexpected option {:?}", other),
    }
}

#[test]
fn duplicate_option_last_write_wins() {
    let mut b = base_header();
    b.extend_from_slice(&[51, 4, 0, 0, 0, 60]); // lease time 60
    b.extend_from_slice(&[51, 4, 0, 0, 1, 0]); // lease time 256
    let p = DhcpPacket::parse(&b).unwrap();
    match p.options.get(DhcpOptionID::LeaseTime) {
        Some(DhcpOption::LeaseTime(d)) => assert_eq!(d.secs, 256),
        other => panic!("unexpected option {:?}", other),
    }
}

#[test]
fn pad_between_options_is_skipped() {
    let mut b = base_header();
    b.extend_from_slice(&[12, 5, b'h', b'o', b's', b't', b'1']);
    b.push(0); // pad
    b.extend_from_slice(&[26, 2, 0x05, 0xDC]);
    let p = DhcpPacket::parse(&b).unwrap();
    match p.options.get(DhcpOptionID::HostName) {
        Some(DhcpOption::HostName(s)) => assert_eq!(s, "host1"),
        other => panic!("unexpected option {:?}", other),
    }
    match p.options.get(DhcpOptionID::InterfaceMTU) {
        Some(DhcpOption::InterfaceMTU(m)) => assert_eq!(*m, 1500),
        other => panic!("unexpected option {:?}", other),
    }
    assert!(p.options.get(DhcpOptionID::Pad).is_none());
}

#[test]
fn end_stops_stream_and_garbage_is_ignored() {
    let mut b = base_header();
    b.extend_from_slice(&[12, 5, b'h', b'o', b's', b't', b'1']);
    b.push(255); // end
    b.extend_from_slice(&[53, 99, 7, 0xFF, 0xFF]); // garbage, never examined
    let p = DhcpPacket::parse(&b).unwrap();
    assert!(p.options.get(DhcpOptionID::MsgType).is_none());
    match p.options.get(DhcpOptionID::HostName) {
        Some(DhcpOption::HostName(s)) => assert_eq!(s, "host1"),
        other => panic!("unexpected option {:?}", other),
    }
}

#[test]
fn hostname_utf8_round_trips() {
    let mut b = base_header();
    // "café" in UTF-8: the accented letter is the two bytes C3 A9
    b.extend_from_slice(&[12, 5, b'c', b'a', b'f', 0xC3, 0xA9]);
    let p = DhcpPacket::parse(&b).unwrap();
    match p.options.get(DhcpOptionID::HostName) {
        Some(DhcpOption::HostName(s)) => {
            assert_eq!(s, "caf\u{e9}");
            assert_eq!(s.chars().count(), 4);
        }
        other => panic!("unexpected option {:?}", other),
    }
}

#[test]
fn hostname_invalid_utf8_fails() {
    let mut b = base_header();
    b.extend_from_slice(&[12, 2, 0xFF, 0xFE]);
    assert_eq!(DhcpPacket::parse(&b).unwrap_err(), DecodeError::InvalidEncoding);
}

#[test]
fn hostname_empty_length_fails() {
    let mut b = base_header();
    b.extend_from_slice(&[12, 0]);
    assert_eq!(DhcpPacket::parse(&b).unwrap_err(), DecodeError::InvalidOptionLength);
}

#[test]
fn option_length_beyond_buffer_is_truncated() {
    let mut b = base_header();
    b.extend_from_slice(&[61, 10, 1, 2, 3]);
    assert_eq!(DhcpPacket::parse(&b).unwrap_err(), DecodeError::Truncated);
}

#[test]
fn option_missing_length_byte_is_truncated() {
    let mut b = base_header();
    b.push(61);
    assert_eq!(DhcpPacket::parse(&b).unwrap_err(), DecodeError::Truncated);
}

#[test]
fn client_identifier_needs_more_than_two_bytes() {
    let mut b = base_header();
    b.extend_from_slice(&[61, 2, 1, 2]);
    assert_eq!(DhcpPacket::parse(&b).unwrap_err(), DecodeError::InvalidOptionLength);
}

#[test]
fn client_identifier_decodes() {
    let mut b = base_header();
    b.extend_from_slice(&[61, 3, 1, 0xAB, 0xCD]);
    let p = DhcpPacket::parse(&b).unwrap();
    match p.options.get(DhcpOptionID::ClientIdentifier) {
        Some(DhcpOption::ClientIdentifier(bytes)) => assert_eq!(bytes.0, vec![1, 0xAB, 0xCD]),
        other => panic!("unexpected option {:?}", other),
    }
}

#[test]
fn rapid_commit_needs_empty_payload() {
    let mut b = base_header();
    b.extend_from_slice(&[80, 0]);
    let p = DhcpPacket::parse(&b).unwrap();
    assert!(matches!(p.options.get(DhcpOptionID::RapidCommit), Some(DhcpOption::RapidCommit)));
    let mut c = base_header();
    c.extend_from_slice(&[80, 1, 0]);
    assert_eq!(DhcpPacket::parse(&c).unwrap_err(), DecodeError::InvalidOptionLength);
}

#[test]
fn force_renew_nonce_algorithms_decode() {
    let mut b = base_header();
    b.extend_from_slice(&[145, 2, 1, 3]);
    let p = DhcpPacket::parse(&b).unwrap();
    match p.options.get(DhcpOptionID::ForceRenewNonceCap) {
        Some(DhcpOption::ForceRenewNonceCapable(a)) => {
            assert_eq!(
                a.0,
                vec![DhcpForceRenewNonceAlgos::HmacMd5, DhcpForceRenewNonceAlgos::Other(3)]
            );
        }
        other => panic!("unexpected option {:?}", other),
    }
}

#[test]
fn parameter_request_list_decodes() {
    let mut b = base_header();
    b.extend_from_slice(&[55, 3, 1, 3, 200]);
    let p = DhcpPacket::parse(&b).unwrap();
    match p.options.get(DhcpOptionID::ParameterRequestList) {
        Some(DhcpOption::ParameterRequestList(ids)) => {
            assert_eq!(
                ids.0,
                vec![DhcpOptionID::SubnetMask, DhcpOptionID::Router, DhcpOptionID::Other(200)]
            );
        }
        other => panic!("unexpected option {:?}", other),
    }
}

#[test]
fn unknown_option_keeps_code_and_payload() {
    let mut b = base_header();
    b.extend_from_slice(&[137, 2, 0xDE, 0xAD]);
    let p = DhcpPacket::parse(&b).unwrap();
    match p.options.get(DhcpOptionID::Other(137)) {
        Some(DhcpOption::Other(o)) => {
            assert_eq!(o.option_id, 137);
            assert_eq!(o.option.0, vec![0xDE, 0xAD]);
        }
        other => panic!("unexpected option {:?}", other),
    }
}

#[test]
fn domain_search_accepts_any_payload() {
    let mut b = base_header();
    b.extend_from_slice(&[119, 0]);
    let p = DhcpPacket::parse(&b).unwrap();
    match p.options.get(DhcpOptionID::DomainSearch) {
        Some(DhcpOption::DomainSearch(bytes)) => assert_eq!(bytes.0, Vec::<u8>::new()),
        other => panic!("unexpected option {:?}", other),
    }
}

#[test]
fn subnet_mask_and_server_id_decode() {
    let mut b = base_header();
    b.extend_from_slice(&[1, 4, 0xFF, 0xFF, 0xFF, 0x00]);
    b.extend_from_slice(&[54, 4, 10, 0, 0, 1]);
    b.extend_from_slice(&[28, 4, 192, 168, 1, 255]);
    let p = DhcpPacket::parse(&b).unwrap();
    match p.options.get(DhcpOptionID::SubnetMask) {
        Some(DhcpOption::SubNetMask(m)) => assert_eq!(*m, 0xFFFFFF00),
        other => panic!("unexpected option {:?}", other),
    }
    match p.options.get(DhcpOptionID::ServerID) {
        Some(DhcpOption::ServerID(a)) => assert_eq!(*a, Ipv4Address::new(10, 0, 0, 1)),
        other => panic!("unexpected option {:?}", other),
    }
    match p.options.get(DhcpOptionID::BroadcastAddr) {
        Some(DhcpOption::BroadcastAddr(a)) => assert_eq!(*a, Ipv4Address::new(192, 168, 1, 255)),
        other => panic!("unexpected option {:?}", other),
    }
}

#[test]
fn intervals_decode_as_durations() {
    let mut b = base_header();
    b.extend_from_slice(&[58, 4, 0, 0, 0, 30]);
    b.extend_from_slice(&[59, 4, 0, 0, 0, 52]);
    let p = DhcpPacket::parse(&b).unwrap();
    match p.options.get(DhcpOptionID::RenewalInterval) {
        Some(DhcpOption::RenewalPeriod(d)) => assert_eq!(d.secs, 30),
        other => panic!("unexpected option {:?}", other),
    }
    match p.options.get(DhcpOptionID::RebindingInterval) {
        Some(DhcpOption::RebindingPeriod(d)) => assert_eq!(d.secs, 52),
        other => panic!("unexpected option {:?}", other),
    }
}

#[test]
fn vendor_class_and_domain_name_decode() {
    let mut b = base_header();
    b.extend_from_slice(&[60, 4, b'a', b'n', b'd', b'r']);
    b.extend_from_slice(&[15, 3, b'l', b'a', b'n']);
    let p = DhcpPacket::parse(&b).unwrap();
    match p.options.get(DhcpOptionID::VendorClassId) {
        Some(DhcpOption::VendorClassId(s)) => assert_eq!(s, "andr"),
        other => panic!("unexpected option {:?}", other),
    }
    match p.options.get(DhcpOptionID::DomainName) {
        Some(DhcpOption::DomainName(s)) => assert_eq!(s, "lan"),
        other => panic!("unexpected option {:?}", other),
    }
}

#[test]
fn option_stream_alone_parses() {
    let stream = [53u8, 1, 1, 12, 2, b'p', b'c', 255];
    let m = parse_dhcp_options(&stream).unwrap();
    assert!(m.contains_key(DhcpOptionID::MsgType));
    assert!(m.contains_key(DhcpOptionID::HostName));
    assert!(!m.contains_key(DhcpOptionID::OptionEnd));
    assert!(!m.is_empty());
}

#[test]
fn from_code_maps_every_named_code() {
    assert_eq!(DhcpOptionID::from(1), DhcpOptionID::SubnetMask);
    assert_eq!(DhcpOptionID::from(3), DhcpOptionID::Router);
    assert_eq!(DhcpOptionID::from(6), DhcpOptionID::DNSserver);
    assert_eq!(DhcpOptionID::from(12), DhcpOptionID::HostName);
    assert_eq!(DhcpOptionID::from(15), DhcpOptionID::DomainName);
    assert_eq!(DhcpOptionID::from(26), DhcpOptionID::InterfaceMTU);
    assert_eq!(DhcpOptionID::from(28), DhcpOptionID::BroadcastAddr);
    assert_eq!(DhcpOptionID::from(51), DhcpOptionID::LeaseTime);
    assert_eq!(DhcpOptionID::from(53), DhcpOptionID::MsgType);
    assert_eq!(DhcpOptionID::from(54), DhcpOptionID::ServerID);
    assert_eq!(DhcpOptionID::from(55), DhcpOptionID::ParameterRequestList);
    assert_eq!(DhcpOptionID::from(57), DhcpOptionID::MaxMsgSize);
    assert_eq!(DhcpOptionID::from(58), DhcpOptionID::RenewalInterval);
    assert_eq!(DhcpOptionID::from(59), DhcpOptionID::RebindingInterval);
    assert_eq!(DhcpOptionID::from(60), DhcpOptionID::VendorClassId);
    assert_eq!(DhcpOptionID::from(61), DhcpOptionID::ClientIdentifier);
    assert_eq!(DhcpOptionID::from(80), DhcpOptionID::RapidCommit);
    assert_eq!(DhcpOptionID::from(119), DhcpOptionID::DomainSearch);
    assert_eq!(DhcpOptionID::from(145), DhcpOptionID::ForceRenewNonceCap);
    assert_eq!(DhcpOptionID::from(255), DhcpOptionID::OptionEnd);
    assert_eq!(DhcpOptionID::from(0), DhcpOptionID::Pad);
    assert_eq!(DhcpOptionID::from(42), DhcpOptionID::Other(42));
    assert_eq!(DhcpOptionID::from(200), DhcpOptionID::Other(200));
}

#[test]
fn single_option_parse_reports_position() {
    let (val, next) = DhcpOption::parse(DhcpOptionID::MsgType, &[1, 5], 0).unwrap();
    assert!(matches!(val, DhcpOption::MessageType(_)));
    assert_eq!(next, 2);
    let r = DhcpOption::parse(DhcpOptionID::MsgType, &[1], 0);
    assert_eq!(r.unwrap_err(), DecodeError::Truncated);
}

#[test]
fn nonce_algorithm_codes_resolve() {
    assert_eq!(DhcpForceRenewNonceAlgos::parse(1), DhcpForceRenewNonceAlgos::HmacMd5);
    assert_eq!(DhcpForceRenewNonceAlgos::parse(0), DhcpForceRenewNonceAlgos::Other(0));
    assert_eq!(DhcpForceRenewNonceAlgos::parse(9), DhcpForceRenewNonceAlgos::Other(9));
}

#[test]
fn truncation_checked_before_width_rule() {
    // The declared length exceeds the remaining buffer *and* violates
    // the width rule: the missing value bytes decide, so the failure
    // is Truncated, not InvalidOptionLength.
    let mut b = base_header();
    b.extend_from_slice(&[53, 2, 5]); // message type claiming 2 bytes, 1 left
    assert_eq!(DhcpPacket::parse(&b).unwrap_err(), DecodeError::Truncated);
    let mut c = base_header();
    c.extend_from_slice(&[1, 9, 0, 0]); // subnet mask claiming 9 bytes, 2 left
    assert_eq!(DhcpPacket::parse(&c).unwrap_err(), DecodeError::Truncated);
}
