use nl_dump::nl::cursor::{Cursor, Endian};
use nl_dump::nl::error::{DecodeError, Field};
use nl_dump::nl::netlink::{NetlinkFamily, NlMsgType};
use nl_dump::nl::rtnetlink::{AddressFamily, Ifla, NdAttr, NrMsgType, Rtn, TcAttr};
use nl_dump::nl::{BodyKind, CookedHeader, NlMsg, NlMsgEnum, NlMsgTypeEnum, Nlmsghdr};

fn cooked(family: u16) -> Vec<u8> {
    let mut v = vec![0u8, 4, 3, 56, 0, 0, 0, 0, 0, 0, 0, 0, 0, 0];
    v.extend_from_slice(&family.to_be_bytes());
    v
}

fn packet(family: u16, nlmsg_len: u32, nlmsg_type: u16, body: &[u8]) -> Vec<u8> {
    let mut v = cooked(family);
    v.extend_from_slice(&nlmsg_len.to_le_bytes());
    v.extend_from_slice(&nlmsg_type.to_le_bytes());
    v.extend_from_slice(&[5, 3, 89, 7, 185, 85, 249, 2, 128, 0]);
    v.extend_from_slice(body);
    v
}

fn link_body() -> Vec<u8> {
    vec![
        0, 0, 4, 3, 1, 0, 0, 0, 0x49, 0, 1, 0, 0, 0, 0, 0, // fixed part
        7, 0, 3, 0, b'l', b'o', 0, 0, // IFLA_IFNAME
    ]
}

#[test]
fn link_type_with_a_link_body_is_decoded() {
    let data = packet(0, 56, 18, &link_body());
    let msg = NlMsg::read_with_order(&data, Endian::Little).unwrap();
    assert_eq!(msg.netlink_family, NetlinkFamily::NETLINK_ROUTE);
    assert_eq!(msg.nlmsghdr.nlmsg_len, 56);
    assert_eq!(msg.nlmsghdr.nlmsg_type, NlMsgTypeEnum::NrMsgType(NrMsgType::RTM_GETLINK));
    assert_eq!(msg.nlmsghdr.nlmsg_flags, 773);
    assert_eq!(msg.nlmsghdr.nlmsg_seq, 1438189401);
    assert_eq!(msg.nlmsghdr.nlmsg_pid, 8389369);
    match msg.nlmsg {
        NlMsgEnum::Ifinfomsg(m) => {
            assert_eq!(m.ifi_family, AddressFamily::AF_UNSPEC);
            assert_eq!(m.ifi_type, 772);
            assert_eq!(m.ifi_index, 1);
            assert_eq!(m.ifi_flags, 0x10049);
            assert_eq!(m.ifi_attr.len(), 1);
            assert_eq!(m.ifi_attr[0].rta_type, Ifla::IFLA_IFNAME);
            assert_eq!(m.ifi_attr[0].rta_value, vec![b'l', b'o', 0]);
        },
        other => panic!("{:?}", other),
    }
}

#[test]
fn header_length_is_the_offset_where_attributes_end() {
    // the length counts from the start of the buffer: at 48, where the
    // attributes start, a length of 48 or less leaves none to decode
    let data = packet(0, 40, 16, &link_body());
    let msg = NlMsg::read_with_order(&data, Endian::Little).unwrap();
    match msg.nlmsg {
        NlMsgEnum::Ifinfomsg(m) => assert!(m.ifi_attr.is_empty()),
        other => panic!("{:?}", other),
    }
}

#[test]
fn link_type_with_a_truncated_body_is_malformed() {
    let body = link_body();
    for keep in [0usize, 1, 10, 15, 18, 22] {
        let data = packet(0, 56, 18, &body[..keep]);
        let msg = NlMsg::read_with_order(&data, Endian::Little).unwrap();
        assert_eq!(msg.nlmsghdr.nlmsg_type, NlMsgTypeEnum::NrMsgType(NrMsgType::RTM_GETLINK));
        assert_eq!(msg.nlmsg, NlMsgEnum::Malformed);
    }
}

#[test]
fn body_with_an_unlisted_value_is_malformed() {
    let mut body = link_body();
    body[0] = 77;
    let data = packet(0, 56, 17, &body);
    let msg = NlMsg::read_with_order(&data, Endian::Little).unwrap();
    assert_eq!(msg.nlmsg, NlMsgEnum::Malformed);

    let mut body = link_body();
    body[18] = 200;
    let data = packet(0, 56, 17, &body);
    let msg = NlMsg::read_with_order(&data, Endian::Little).unwrap();
    assert_eq!(msg.nlmsg, NlMsgEnum::Malformed);
}

#[test]
fn recognized_type_without_a_decoder_is_unsupported() {
    for t in [19u16, 32, 33, 34, 48, 52, 68, 90] {
        let data = packet(0, 32, t, &[1, 2, 3, 4]);
        let msg = NlMsg::read_with_order(&data, Endian::Little).unwrap();
        assert!(matches!(msg.nlmsghdr.nlmsg_type, NlMsgTypeEnum::NrMsgType(_)));
        assert_eq!(msg.nlmsg, NlMsgEnum::Unsupported);
    }
}

#[test]
fn unlisted_type_is_kept_as_a_number() {
    let data = packet(0, 32, 23, &[]);
    let msg = NlMsg::read_with_order(&data, Endian::Little).unwrap();
    assert_eq!(msg.nlmsghdr.nlmsg_type, NlMsgTypeEnum::Raw(23));
    assert_eq!(msg.nlmsg, NlMsgEnum::Unsupported);

    let data = packet(16, 32, 18, &link_body());
    let msg = NlMsg::read_with_order(&data, Endian::Little).unwrap();
    assert_eq!(msg.netlink_family, NetlinkFamily::NETLINK_GENERIC);
    assert_eq!(msg.nlmsghdr.nlmsg_type, NlMsgTypeEnum::Raw(18));
    assert_eq!(msg.nlmsg, NlMsgEnum::Unsupported);
}

#[test]
fn control_type_has_no_body() {
    for (family, t, expected) in [
        (0u16, 1u16, NlMsgType::NLMSG_NOOP),
        (0, 2, NlMsgType::NLMSG_ERROR),
        (16, 3, NlMsgType::NLMSG_DONE),
        (12, 4, NlMsgType::NLMSG_OVERRUN),
    ] {
        let data = packet(family, 20, t, &[0, 0, 0, 0]);
        let msg = NlMsg::read_with_order(&data, Endian::Little).unwrap();
        assert_eq!(msg.nlmsghdr.nlmsg_type, NlMsgTypeEnum::NlMsgType(expected));
        assert_eq!(msg.nlmsg, NlMsgEnum::NoBody);
    }
}

#[test]
fn resolve_message_type() {
    let route = NetlinkFamily::NETLINK_ROUTE;
    let generic = NetlinkFamily::NETLINK_GENERIC;
    assert_eq!(NlMsgTypeEnum::resolve(0, route), NlMsgTypeEnum::Raw(0));
    assert_eq!(NlMsgTypeEnum::resolve(0, generic), NlMsgTypeEnum::Raw(0));
    assert_eq!(NlMsgTypeEnum::resolve(1, generic), NlMsgTypeEnum::NlMsgType(NlMsgType::NLMSG_NOOP));
    assert_eq!(NlMsgTypeEnum::resolve(4, route), NlMsgTypeEnum::NlMsgType(NlMsgType::NLMSG_OVERRUN));
    assert_eq!(NlMsgTypeEnum::resolve(5, route), NlMsgTypeEnum::Raw(5));
    assert_eq!(NlMsgTypeEnum::resolve(26, route), NlMsgTypeEnum::NrMsgType(NrMsgType::RTM_GETROUTE));
    assert_eq!(NlMsgTypeEnum::resolve(26, generic), NlMsgTypeEnum::Raw(26));
    assert_eq!(NlMsgTypeEnum::resolve(65535, route), NlMsgTypeEnum::Raw(65535));
    assert_eq!(NlMsgTypeEnum::default(), NlMsgTypeEnum::Raw(0));
}

#[test]
fn body_kind_of_each_type() {
    for t in [NrMsgType::RTM_NEWLINK, NrMsgType::RTM_DELLINK, NrMsgType::RTM_GETLINK] {
        assert_eq!(BodyKind::of(t), BodyKind::Ifinfomsg);
    }
    for t in [NrMsgType::RTM_NEWADDR, NrMsgType::RTM_DELADDR, NrMsgType::RTM_GETADDR] {
        assert_eq!(BodyKind::of(t), BodyKind::Ifaddrmsg);
    }
    for t in [NrMsgType::RTM_NEWROUTE, NrMsgType::RTM_DELROUTE, NrMsgType::RTM_GETROUTE] {
        assert_eq!(BodyKind::of(t), BodyKind::Rtmsg);
    }
    for t in [NrMsgType::RTM_NEWNEIGH, NrMsgType::RTM_DELNEIGH, NrMsgType::RTM_GETNEIGH] {
        assert_eq!(BodyKind::of(t), BodyKind::Ndmsg);
    }
    for t in [
        NrMsgType::RTM_NEWQDISC, NrMsgType::RTM_DELQDISC, NrMsgType::RTM_GETQDISC, NrMsgType::RTM_NEWTCLASS, NrMsgType::RTM_DELTCLASS, NrMsgType::RTM_GETTCLASS,
        NrMsgType::RTM_NEWTFILTER, NrMsgType::RTM_DELTFILTER, NrMsgType::RTM_GETTFILTER,
    ] {
        assert_eq!(BodyKind::of(t), BodyKind::Tcmsg);
    }
    for t in [NrMsgType::RTM_SETLINK, NrMsgType::RTM_NEWRULE, NrMsgType::RTM_NEWPREFIX, NrMsgType::RTM_GETNSID, NrMsgType::RTM_NEWACTION] {
        assert_eq!(BodyKind::of(t), BodyKind::Other);
    }
}

#[test]
fn each_body_kind_is_dispatched() {
    let addr = [2u8, 24, 0, 0, 2, 0, 0, 0];
    let msg = NlMsg::read_with_order(&packet(0, 0, 20, &addr), Endian::Little).unwrap();
    assert!(matches!(msg.nlmsg, NlMsgEnum::Ifaddrmsg(ref m) if m.ifa_prefixlen == 24));

    let route = [2u8, 0, 0, 0, 254, 3, 0, 1, 0, 0, 0, 0];
    let msg = NlMsg::read_with_order(&packet(0, 0, 24, &route), Endian::Little).unwrap();
    assert!(matches!(msg.nlmsg, NlMsgEnum::Rtmsg(ref m) if m.rtm_type == Rtn::RTN_UNICAST));

    let neigh = [2u8, 0, 0, 0, 3, 0, 0, 0, 2, 0, 0, 1];
    let msg = NlMsg::read_with_order(&packet(0, 0, 28, &neigh), Endian::Little).unwrap();
    assert!(matches!(msg.nlmsg, NlMsgEnum::Ndmsg(ref m) if m.ndm_type == NdAttr::NDA_DST));

    let mut tc = vec![0u8, 0, 0, 0, 2, 0, 0, 0, 0, 0, 1, 0, 0xFF, 0xFF, 0xFF, 0xFF, 2, 0, 0, 0];
    tc.extend_from_slice(&[6, 0, 1, 0, b'f', b'q', 0, 0]);
    for t in [36u16, 40, 44, 46] {
        let msg = NlMsg::read_with_order(&packet(0, 60, t, &tc), Endian::Little).unwrap();
        match msg.nlmsg {
            NlMsgEnum::Tcmsg(ref m) => {
                assert_eq!(m.tcm_handle, 0x10000);
                assert_eq!(m.tcm_attr.len(), 1);
                assert_eq!(m.tcm_attr[0].rta_type, TcAttr::TCA_KIND);
            },
            ref other => panic!("{:?}", other),
        }
    }
}

#[test]
fn body_read_on_its_own() {
    let body = link_body();
    let mut cursor = Cursor::with_order(&body, Endian::Little);
    let link = NlMsgTypeEnum::NrMsgType(NrMsgType::RTM_NEWLINK);
    assert!(matches!(NlMsgEnum::read(&mut cursor, link, 24), NlMsgEnum::Ifinfomsg(_)));
    assert_eq!(cursor.position(), 24);

    let mut cursor = Cursor::with_order(&body, Endian::Little);
    assert_eq!(NlMsgEnum::read(&mut cursor, NlMsgTypeEnum::Raw(16), 24), NlMsgEnum::Unsupported);
    assert_eq!(cursor.position(), 0);

    let mut cursor = Cursor::with_order(&body, Endian::Little);
    let done = NlMsgTypeEnum::NlMsgType(NlMsgType::NLMSG_DONE);
    assert_eq!(NlMsgEnum::read(&mut cursor, done, 24), NlMsgEnum::NoBody);
    assert_eq!(cursor.position(), 0);

    let mut cursor = Cursor::with_order(&body[..9], Endian::Little);
    assert_eq!(NlMsgEnum::read(&mut cursor, link, 24), NlMsgEnum::Malformed);
    assert_eq!(cursor.position(), 8);
    assert_eq!(NlMsgEnum::default(), NlMsgEnum::Unsupported);
}

#[test]
fn a_header_that_does_not_decode_fails_the_packet() {
    let data = packet(0, 56, 18, &link_body());
    assert_eq!(
        NlMsg::read_with_order(&data[..0], Endian::Little),
        Err(DecodeError::UnexpectedEof { offset: 0, field: Field::HeaderType })
    );
    assert_eq!(
        NlMsg::read_with_order(&data[..3], Endian::Little),
        Err(DecodeError::UnexpectedEof { offset: 2, field: Field::ArphdrType })
    );
    assert_eq!(
        NlMsg::read_with_order(&data[..5], Endian::Little),
        Err(DecodeError::UnexpectedEof { offset: 4, field: Field::AddressLength })
    );
    assert_eq!(
        NlMsg::read_with_order(&data[..13], Endian::Little),
        Err(DecodeError::UnexpectedEof { offset: 6, field: Field::Address })
    );
    assert_eq!(
        NlMsg::read_with_order(&data[..15], Endian::Little),
        Err(DecodeError::UnexpectedEof { offset: 14, field: Field::NetlinkFamily })
    );
    assert_eq!(
        NlMsg::read_with_order(&data[..16], Endian::Little),
        Err(DecodeError::UnexpectedEof { offset: 16, field: Field::NlmsgLen })
    );
    assert_eq!(
        NlMsg::read_with_order(&data[..21], Endian::Little),
        Err(DecodeError::UnexpectedEof { offset: 20, field: Field::NlmsgType })
    );
    assert_eq!(
        NlMsg::read_with_order(&data[..23], Endian::Little),
        Err(DecodeError::UnexpectedEof { offset: 22, field: Field::NlmsgFlags })
    );
    assert_eq!(
        NlMsg::read_with_order(&data[..27], Endian::Little),
        Err(DecodeError::UnexpectedEof { offset: 24, field: Field::NlmsgSeq })
    );
    assert_eq!(
        NlMsg::read_with_order(&data[..31], Endian::Little),
        Err(DecodeError::UnexpectedEof { offset: 28, field: Field::NlmsgPid })
    );
    let unknown = packet(17, 56, 18, &link_body());
    assert_eq!(
        NlMsg::read_with_order(&unknown, Endian::Little),
        Err(DecodeError::UnknownValue { offset: 14, field: Field::NetlinkFamily, value: 17 })
    );
}

#[test]
fn cooked_header_fields_and_cursor() {
    let data = [0u8, 4, 3, 56, 0, 6, 1, 2, 3, 4, 5, 6, 7, 8, 0, 0, 0xAA];
    let mut cursor = Cursor::new(&data);
    let h = CookedHeader::read(&mut cursor).unwrap();
    assert_eq!(h.header_type, 4);
    assert_eq!(h.arphdr_type, 824);
    assert_eq!(h.address_length, 6);
    assert_eq!(h.address, [1, 2, 3, 4, 5, 6, 7, 8]);
    assert_eq!(h.netlink_family, NetlinkFamily::NETLINK_ROUTE);
    assert_eq!(cursor.position(), 16);

    let mut cursor = Cursor::new(&data[..15]);
    assert!(CookedHeader::read(&mut cursor).is_err());
    assert_eq!(cursor.position(), 14);

    let d = CookedHeader::default();
    assert_eq!(d.address, [0u8; 8]);
    assert_eq!(d.netlink_family, NetlinkFamily::NETLINK_ROUTE);
}

#[test]
fn big_endian_host() {
    let mut data = cooked(0);
    data.extend_from_slice(&[0, 0, 0, 48, 0, 18, 3, 5, 0, 0, 0, 9, 0, 0, 0, 7]);
    data.extend_from_slice(&[2, 0, 0, 1, 0, 0, 0, 2, 0, 0, 0, 3, 0, 0, 0, 4]);
    let msg = NlMsg::read_with_order(&data, Endian::Big).unwrap();
    assert_eq!(msg.nlmsghdr.nlmsg_len, 48);
    assert_eq!(msg.nlmsghdr.nlmsg_type, NlMsgTypeEnum::NrMsgType(NrMsgType::RTM_GETLINK));
    assert_eq!(msg.nlmsghdr.nlmsg_flags, 0x305);
    assert_eq!(msg.nlmsghdr.nlmsg_seq, 9);
    assert_eq!(msg.nlmsghdr.nlmsg_pid, 7);
    match msg.nlmsg {
        NlMsgEnum::Ifinfomsg(m) => {
            assert_eq!(m.ifi_family, AddressFamily::AF_INET);
            assert_eq!(m.ifi_type, 1);
            assert_eq!(m.ifi_index, 2);
            assert_eq!(m.ifi_flags, 3);
            assert_eq!(m.ifi_change, 4);
        },
        other => panic!("{:?}", other),
    }
    let mut cursor = Cursor::with_order(&data[16..], Endian::Big);
    let h = Nlmsghdr::read(&mut cursor, NetlinkFamily::NETLINK_AUDIT).unwrap();
    assert_eq!(h.nlmsg_type, NlMsgTypeEnum::Raw(18));
    assert_eq!(cursor.position(), 16);
}

#[test]
fn decoding_a_packet_twice_gives_the_same_message() {
    let data = packet(0, 56, 18, &link_body());
    let a = NlMsg::read(&data);
    let b = NlMsg::read(&data);
    assert_eq!(a, b);
    let mut cursor = Cursor::new(&data);
    let c = NlMsg::read_from(&mut cursor);
    assert_eq!(a, c);
    assert_eq!(cursor.position(), 56);
    assert_eq!(NlMsg::default().nlmsg, NlMsgEnum::Unsupported);
    assert_eq!(NlMsg::default().nlmsghdr, Nlmsghdr::default());
}
