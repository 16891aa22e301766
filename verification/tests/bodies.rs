use nl_dump::nl::cursor::{Cursor, Endian};
use nl_dump::nl::error::{DecodeError, Field};
use nl_dump::nl::rtnetlink::{
    AddressFamily, Ifa, Ifaddrmsg, Ifinfomsg, Ifla, NdAttr, NdaCacheinfo, Ndmsg, RtmAttr, Rtmsg,
    Rtn, Rtprot, TcAttr, Tcmsg,
};

fn link_message() -> Vec<u8> {
    vec![
        0, 0, 4, 3, // AF_UNSPEC, padding, device type 772
        1, 0, 0, 0, // interface index
        0x49, 0, 1, 0, // flags 0x10049
        0, 0, 0, 0, // change mask
        7, 0, 3, 0, b'l', b'o', 0, 0, // IFLA_IFNAME
        8, 0, 4, 0, 0, 0, 1, 0, // IFLA_MTU 65536
    ]
}

#[test]
fn link_message_decodes() {
    let data = link_message();
    let mut cursor = Cursor::with_order(&data, Endian::Little);
    let m = Ifinfomsg::read(&mut cursor, data.len()).unwrap();
    assert_eq!(m.ifi_family, AddressFamily::AF_UNSPEC);
    assert_eq!(m.ifi_type, 772);
    assert_eq!(m.ifi_index, 1);
    assert_eq!(m.ifi_flags, 0x10049);
    assert_eq!(m.ifi_change, 0);
    assert_eq!(m.ifi_attr.len(), 2);
    assert_eq!(m.ifi_attr[0].rta_type, Ifla::IFLA_IFNAME);
    assert_eq!(m.ifi_attr[0].rta_value, vec![b'l', b'o', 0]);
    assert_eq!(m.ifi_attr[1].rta_type, Ifla::IFLA_MTU);
    assert_eq!(m.ifi_attr[1].rta_value, vec![0, 0, 1, 0]);
    assert_eq!(cursor.position(), 32);
}

#[test]
fn link_message_in_big_endian_with_negative_index() {
    let data = [10u8, 0xFF, 0, 1, 0xFF, 0xFF, 0xFF, 0xFD, 0, 0, 0x10, 0x02, 0xFF, 0xFF, 0xFF, 0xFF];
    let mut cursor = Cursor::with_order(&data, Endian::Big);
    let m = Ifinfomsg::read(&mut cursor, data.len()).unwrap();
    assert_eq!(m.ifi_family, AddressFamily::AF_INET6);
    assert_eq!(m.ifi_type, 1);
    assert_eq!(m.ifi_index, -3);
    assert_eq!(m.ifi_flags, 0x1002);
    assert_eq!(m.ifi_change, 0xFFFF_FFFF);
    assert!(m.ifi_attr.is_empty());
    assert_eq!(cursor.position(), 16);
}

#[test]
fn link_message_failures() {
    let data = link_message();
    let expected = [
        (0, 0, Field::IfiFamily),
        (1, 1, Field::IfiPad),
        (2, 2, Field::IfiType),
        (3, 2, Field::IfiType),
        (4, 4, Field::IfiIndex),
        (7, 4, Field::IfiIndex),
        (8, 8, Field::IfiFlags),
        (11, 8, Field::IfiFlags),
        (12, 12, Field::IfiChange),
        (15, 12, Field::IfiChange),
        (17, 16, Field::RtaLen),
        (19, 18, Field::RtaType),
        (22, 20, Field::RtaValue),
    ];
    for (len, offset, field) in expected {
        let mut cursor = Cursor::with_order(&data[..len], Endian::Little);
        let r = Ifinfomsg::read(&mut cursor, 32);
        assert_eq!(r, Err(DecodeError::UnexpectedEof { offset, field }));
        assert_eq!(cursor.position(), offset);
    }
    let mut bad = data.clone();
    bad[0] = 200;
    let mut cursor = Cursor::with_order(&bad, Endian::Little);
    assert_eq!(
        Ifinfomsg::read(&mut cursor, 32),
        Err(DecodeError::UnknownValue { offset: 0, field: Field::IfiFamily, value: 200 })
    );
    assert_eq!(cursor.position(), 1);
}

#[test]
fn address_message_decodes() {
    let data = [
        2u8, 24, 0x80, 0, 2, 0, 0, 0, // AF_INET /24 permanent, universe, index 2
        8, 0, 1, 0, 192, 168, 1, 10, // IFA_ADDRESS
        7, 0, 3, 0, b'e', b't', b'h', 0, // IFA_LABEL
    ];
    let mut cursor = Cursor::with_order(&data, Endian::Little);
    let m = Ifaddrmsg::read(&mut cursor, data.len()).unwrap();
    assert_eq!(m.ifa_family, AddressFamily::AF_INET);
    assert_eq!(m.ifa_prefixlen, 24);
    assert_eq!(m.ifa_flags, 0x80);
    assert_eq!(m.ifa_scope, 0);
    assert_eq!(m.ifa_index, 2);
    assert_eq!(m.ifa_attr.len(), 2);
    assert_eq!(m.ifa_attr[0].rta_type, Ifa::IFA_ADDRESS);
    assert_eq!(m.ifa_attr[0].rta_value, vec![192, 168, 1, 10]);
    assert_eq!(m.ifa_attr[1].rta_type, Ifa::IFA_LABEL);
    assert_eq!(cursor.position(), 24);
}

#[test]
fn address_message_failures() {
    let data = [2u8, 24, 0x80, 0, 2, 0, 0, 0];
    let expected = [
        (0, 0, Field::IfaFamily),
        (1, 1, Field::IfaPrefixlen),
        (2, 2, Field::IfaFlags),
        (3, 3, Field::IfaScope),
        (4, 4, Field::IfaIndex),
        (7, 4, Field::IfaIndex),
    ];
    for (len, offset, field) in expected {
        let mut cursor = Cursor::with_order(&data[..len], Endian::Little);
        assert_eq!(
            Ifaddrmsg::read(&mut cursor, 8),
            Err(DecodeError::UnexpectedEof { offset, field })
        );
    }
    let bad = [41u8, 24, 0x80, 0, 2, 0, 0, 0];
    let mut cursor = Cursor::with_order(&bad, Endian::Little);
    assert_eq!(
        Ifaddrmsg::read(&mut cursor, 8),
        Err(DecodeError::UnknownValue { offset: 0, field: Field::IfaFamily, value: 41 })
    );
}

fn route_message() -> Vec<u8> {
    vec![
        2, 0, 0, 0, // AF_INET, no prefixes, no TOS
        254, 3, 0, 1, // main table, boot, universe, unicast
        0, 2, 0, 0, // flags 0x200
        8, 0, 5, 0, 10, 0, 0, 1, // RTA_GATEWAY
        8, 0, 4, 0, 2, 0, 0, 0, // RTA_OIF
    ]
}

#[test]
fn route_message_decodes() {
    let data = route_message();
    let mut cursor = Cursor::with_order(&data, Endian::Little);
    let m = Rtmsg::read(&mut cursor, data.len()).unwrap();
    assert_eq!(m.rtm_family, AddressFamily::AF_INET);
    assert_eq!(m.rtm_dst_len, 0);
    assert_eq!(m.rtm_src_len, 0);
    assert_eq!(m.rtm_tos, 0);
    assert_eq!(m.rtm_table, 254);
    assert_eq!(m.rtm_protocol, Rtprot::RTPROT_BOOT);
    assert_eq!(m.rtm_scope, 0);
    assert_eq!(m.rtm_type, Rtn::RTN_UNICAST);
    assert_eq!(m.rtm_flags, 0x200);
    assert_eq!(m.rtm_attr.len(), 2);
    assert_eq!(m.rtm_attr[0].rta_type, RtmAttr::RTA_GATEWAY);
    assert_eq!(m.rtm_attr[0].rta_value, vec![10, 0, 0, 1]);
    assert_eq!(m.rtm_attr[1].rta_type, RtmAttr::RTA_OIF);
    assert_eq!(cursor.position(), 28);
}

#[test]
fn route_message_failures() {
    let data = route_message();
    let expected = [
        (0, 0, Field::RtmFamily),
        (1, 1, Field::RtmDstLen),
        (2, 2, Field::RtmSrcLen),
        (3, 3, Field::RtmTos),
        (4, 4, Field::RtmTable),
        (5, 5, Field::RtmProtocol),
        (6, 6, Field::RtmScope),
        (7, 7, Field::RtmType),
        (8, 8, Field::RtmFlags),
        (11, 8, Field::RtmFlags),
    ];
    for (len, offset, field) in expected {
        let mut cursor = Cursor::with_order(&data[..len], Endian::Little);
        assert_eq!(Rtmsg::read(&mut cursor, 28), Err(DecodeError::UnexpectedEof { offset, field }));
        assert_eq!(cursor.position(), offset);
    }
    for (at, field, value) in
        [(0usize, Field::RtmFamily, 99u8), (5, Field::RtmProtocol, 5), (7, Field::RtmType, 12)]
    {
        let mut bad = data.clone();
        bad[at] = value;
        let mut cursor = Cursor::with_order(&bad, Endian::Little);
        assert_eq!(
            Rtmsg::read(&mut cursor, 28),
            Err(DecodeError::UnknownValue { offset: at, field, value: value as u16 })
        );
        assert_eq!(cursor.position(), at + 1);
    }
    // an unlisted family is reported even where the message is short as well
    let mut cursor = Cursor::with_order(&[99u8], Endian::Little);
    assert_eq!(
        Rtmsg::read(&mut cursor, 28),
        Err(DecodeError::UnknownValue { offset: 0, field: Field::RtmFamily, value: 99 })
    );
}

#[test]
fn cache_record_decodes() {
    let data = [1u8, 0, 0, 0, 2, 0, 0, 0, 0, 1, 0, 0, 4, 0, 0, 0];
    let mut cursor = Cursor::with_order(&data, Endian::Little);
    let c = NdaCacheinfo::read(&mut cursor).unwrap();
    assert_eq!(
        c,
        NdaCacheinfo { ndm_confirmed: 1, ndm_used: 2, ndm_updated: 256, ndm_flags: 4 }
    );
    assert_eq!(cursor.position(), 16);
    for (len, offset, field) in [
        (3, 0, Field::CacheinfoConfirmed),
        (4, 4, Field::CacheinfoUsed),
        (9, 8, Field::CacheinfoUpdated),
        (15, 12, Field::CacheinfoFlags),
    ] {
        let mut cursor = Cursor::with_order(&data[..len], Endian::Little);
        assert_eq!(
            NdaCacheinfo::read(&mut cursor),
            Err(DecodeError::UnexpectedEof { offset, field })
        );
    }
}

#[test]
fn neighbour_message_without_cache_record() {
    let data = [
        2u8, 0, 0, 0, // AF_INET, padding
        3, 0, 0, 0, // interface index
        2, 0, 0, 1, // reachable, no flags, type NDA_DST
        8, 0, 1, 0, 10, 0, 0, 2, // NDA_DST
        10, 0, 2, 0, 1, 2, 3, 4, 5, 6, 0, 0, // NDA_LLADDR
    ];
    let mut cursor = Cursor::with_order(&data, Endian::Little);
    let m = Ndmsg::read(&mut cursor, data.len()).unwrap();
    assert_eq!(m.ndm_family, 2);
    assert_eq!(m.ndm_ifindex, 3);
    assert_eq!(m.ndm_state, 2);
    assert_eq!(m.ndm_flags, 0);
    assert_eq!(m.ndm_type, NdAttr::NDA_DST);
    assert_eq!(m.ndm_cacheinfo, None);
    assert_eq!(m.ndm_attr.len(), 2);
    assert_eq!(m.ndm_attr[0].rta_type, NdAttr::NDA_DST);
    assert_eq!(m.ndm_attr[1].rta_type, NdAttr::NDA_LLADDR);
    assert_eq!(m.ndm_attr[1].rta_value, vec![1, 2, 3, 4, 5, 6]);
    assert_eq!(cursor.position(), 32);
}

#[test]
fn neighbour_message_with_cache_record() {
    let data = [
        10u8, 0, 0, 0, // AF_INET6, padding
        0xFF, 0xFF, 0xFF, 0xFF, // interface index -1
        0x80, 0, 0x02, 3, // permanent, NTF_SELF, type NDA_CACHEINFO
        5, 0, 0, 0, 6, 0, 0, 0, 7, 0, 0, 0, 8, 0, 0, 0, // cache record
        8, 0, 4, 0, 3, 0, 0, 0, // NDA_PROBES
    ];
    let mut cursor = Cursor::with_order(&data, Endian::Little);
    let m = Ndmsg::read(&mut cursor, data.len()).unwrap();
    assert_eq!(m.ndm_family, 10);
    assert_eq!(m.ndm_ifindex, -1);
    assert_eq!(m.ndm_state, 0x80);
    assert_eq!(m.ndm_flags, 2);
    assert_eq!(m.ndm_type, NdAttr::NDA_CACHEINFO);
    assert_eq!(
        m.ndm_cacheinfo,
        Some(NdaCacheinfo { ndm_confirmed: 5, ndm_used: 6, ndm_updated: 7, ndm_flags: 8 })
    );
    assert_eq!(m.ndm_attr.len(), 1);
    assert_eq!(m.ndm_attr[0].rta_type, NdAttr::NDA_PROBES);
    assert_eq!(cursor.position(), 36);

    let mut cursor = Cursor::with_order(&data[..20], Endian::Little);
    assert_eq!(
        Ndmsg::read(&mut cursor, 36),
        Err(DecodeError::UnexpectedEof { offset: 20, field: Field::CacheinfoUpdated })
    );
}

#[test]
fn neighbour_message_failures() {
    let data = [2u8, 0, 0, 0, 3, 0, 0, 0, 2, 0, 0, 1];
    let expected = [
        (0, 0, Field::NdmFamily),
        (1, 1, Field::NdmPad1),
        (3, 2, Field::NdmPad2),
        (7, 4, Field::NdmIfindex),
        (9, 8, Field::NdmState),
        (10, 10, Field::NdmFlags),
        (11, 11, Field::NdmType),
    ];
    for (len, offset, field) in expected {
        let mut cursor = Cursor::with_order(&data[..len], Endian::Little);
        assert_eq!(Ndmsg::read(&mut cursor, 12), Err(DecodeError::UnexpectedEof { offset, field }));
    }
    let mut bad = data;
    bad[11] = 11;
    let mut cursor = Cursor::with_order(&bad, Endian::Little);
    assert_eq!(
        Ndmsg::read(&mut cursor, 12),
        Err(DecodeError::UnknownValue { offset: 11, field: Field::NdmType, value: 11 })
    );
    assert_eq!(cursor.position(), 12);
}

#[test]
fn traffic_control_message_decodes() {
    let mut data = vec![
        0u8, 0, 0, 0, // family, padding
        2, 0, 0, 0, // interface index
        0, 0, 1, 0, // handle 0x10000
        0xFF, 0xFF, 0xFF, 0xFF, // parent
        2, 0, 0, 0, // info
        15, 0, 1, 0, // TCA_KIND
    ];
    data.extend_from_slice(b"pfifo_fast\0");
    data.push(0);
    let mut cursor = Cursor::with_order(&data, Endian::Little);
    let m = Tcmsg::read(&mut cursor, data.len()).unwrap();
    assert_eq!(m.tcm_family, 0);
    assert_eq!(m.tcm_ifindex, 2);
    assert_eq!(m.tcm_handle, 0x10000);
    assert_eq!(m.tcm_parent, 0xFFFF_FFFF);
    assert_eq!(m.tcm_info, 2);
    assert_eq!(m.tcm_attr.len(), 1);
    assert_eq!(m.tcm_attr[0].rta_type, TcAttr::TCA_KIND);
    assert_eq!(m.tcm_attr[0].rta_value, b"pfifo_fast\0".to_vec());
    assert_eq!(cursor.position(), 36);

    let expected = [
        (0, 0, Field::TcmFamily),
        (1, 1, Field::TcmPad1),
        (2, 2, Field::TcmPad2),
        (4, 4, Field::TcmIfindex),
        (8, 8, Field::TcmHandle),
        (12, 12, Field::TcmParent),
        (19, 16, Field::TcmInfo),
    ];
    for (len, offset, field) in expected {
        let mut cursor = Cursor::with_order(&data[..len], Endian::Little);
        assert_eq!(Tcmsg::read(&mut cursor, 36), Err(DecodeError::UnexpectedEof { offset, field }));
    }
}

#[test]
fn body_starts_where_the_cursor_stands() {
    let mut data = vec![0xEEu8; 4];
    data.extend_from_slice(&link_message());
    let mut cursor = Cursor::with_order(&data, Endian::Little);
    cursor.set_position(4);
    let m = Ifinfomsg::read(&mut cursor, data.len()).unwrap();
    assert_eq!(m.ifi_type, 772);
    assert_eq!(m.ifi_attr.len(), 2);
    assert_eq!(cursor.position(), 36);
}

#[test]
fn default_bodies_are_empty() {
    let link = Ifinfomsg::default();
    assert_eq!(link.ifi_family, AddressFamily::AF_UNSPEC);
    assert_eq!((link.ifi_type, link.ifi_index, link.ifi_flags, link.ifi_change), (0, 0, 0, 0));
    assert!(link.ifi_attr.is_empty());
    let addr = Ifaddrmsg::default();
    assert_eq!(addr.ifa_family, AddressFamily::AF_UNSPEC);
    assert_eq!((addr.ifa_prefixlen, addr.ifa_flags, addr.ifa_scope, addr.ifa_index), (0, 0, 0, 0));
    assert!(addr.ifa_attr.is_empty());
    let route = Rtmsg::default();
    assert_eq!(route.rtm_protocol, Rtprot::RTPROT_UNSPEC);
    assert_eq!(route.rtm_type, Rtn::RTN_UNSPEC);
    assert_eq!((route.rtm_table, route.rtm_scope, route.rtm_flags), (0, 0, 0));
    assert!(route.rtm_attr.is_empty());
    let neigh = Ndmsg::default();
    assert_eq!(neigh.ndm_type, NdAttr::NDA_UNSPEC);
    assert_eq!(neigh.ndm_cacheinfo, None);
    assert!(neigh.ndm_attr.is_empty());
    let tc = Tcmsg::default();
    assert_eq!((tc.tcm_family, tc.tcm_ifindex, tc.tcm_handle, tc.tcm_parent, tc.tcm_info), (0, 0, 0, 0, 0));
    assert!(tc.tcm_attr.is_empty());
    assert_eq!(
        NdaCacheinfo::default(),
        NdaCacheinfo { ndm_confirmed: 0, ndm_used: 0, ndm_updated: 0, ndm_flags: 0 }
    );
}
