use nl_dump::nl::cursor::{Cursor, Endian};
use nl_dump::nl::netlink::{NetlinkFamily, NlMsgType};
use nl_dump::nl::rtnetlink::{
    IfaFlags, Ifaddrmsg, Ifinfomsg, Ifla, NdFlags, NdState, NdaCacheinfo, Ndmsg, NetDeviceFlags,
    NrMsgType, RtScope, RtTable, RtmFlags, Rtattr, Rtmsg, Tcmsg,
};
use nl_dump::nl::text::{
    byte_list, format_indent, push_dec, push_flags, push_hex, push_int, push_name_or_user_defined,
};
use nl_dump::nl::{CookedHeader, NlMsg, NlMsgEnum, NlMsgTypeEnum, Nlmsghdr};

fn decimal(n: u64) -> String {
    let mut s = String::new();
    push_dec(&mut s, n);
    s
}

fn signed(n: i64) -> String {
    let mut s = String::new();
    push_int(&mut s, n);
    s
}

fn hex(n: u64) -> String {
    let mut s = String::new();
    push_hex(&mut s, n);
    s
}

#[test]
fn indentation() {
    assert_eq!(format_indent(0), "");
    assert_eq!(format_indent(1), "    ");
    assert_eq!(format_indent(3), "            ");
    assert_eq!(format_indent(-1), "");
    assert_eq!(format_indent(i32::MIN), "");
}

#[test]
fn decimal_numbers() {
    assert_eq!(decimal(0), "0");
    assert_eq!(decimal(7), "7");
    assert_eq!(decimal(10), "10");
    assert_eq!(decimal(1438189401), "1438189401");
    assert_eq!(decimal(u64::MAX), "18446744073709551615");
    for n in [0u64, 9, 99, 100, 65535, 4294967295, 1 << 40] {
        assert_eq!(decimal(n), format!("{}", n));
    }
    let mut s = String::from("x=");
    push_dec(&mut s, 42);
    assert_eq!(s, "x=42");
}

#[test]
fn signed_numbers() {
    assert_eq!(signed(0), "0");
    assert_eq!(signed(-1), "-1");
    assert_eq!(signed(2147483647), "2147483647");
    assert_eq!(signed(-2147483648), "-2147483648");
    assert_eq!(signed(i64::MIN), "-9223372036854775808");
    assert_eq!(signed(i64::MAX), "9223372036854775807");
}

#[test]
fn hexadecimal_numbers() {
    assert_eq!(hex(0), "0x0");
    assert_eq!(hex(10), "0xA");
    assert_eq!(hex(255), "0xFF");
    assert_eq!(hex(0x10049), "0x10049");
    assert_eq!(hex(0xDEADBEEF), "0xDEADBEEF");
    for n in [1u64, 15, 16, 0x305, 0xABCDEF, u64::MAX] {
        assert_eq!(hex(n), format!("{:#X}", n));
    }
}

#[test]
fn byte_lists() {
    assert_eq!(byte_list(&[], true), "");
    assert_eq!(byte_list(&[], false), "");
    assert_eq!(byte_list(&[0], true), " 0x0");
    assert_eq!(byte_list(&[1, 2, 255], true), " 0x1, 0x2, 0xFF");
    assert_eq!(byte_list(&[1, 2, 255], false), " 1, 2, 255");
}

fn flags<T: nl_dump::nl::table::FlagTable>(mask: u32) -> String {
    let mut s = String::new();
    push_flags::<T>(&mut s, mask);
    s
}

#[test]
fn flag_masks_are_decomposed() {
    assert_eq!(flags::<NetDeviceFlags>(0), "");
    assert_eq!(flags::<NetDeviceFlags>(1), "IFF_UP");
    assert_eq!(
        flags::<NetDeviceFlags>(0x10049),
        "IFF_UP|IFF_LOOPBACK|IFF_RUNNING|IFF_LOWER_UP"
    );
    assert_eq!(flags::<NetDeviceFlags>(0x40000), "IFF_ECHO");
    assert_eq!(flags::<IfaFlags>(0x80), "IFA_F_PERMANENT");
    assert_eq!(flags::<IfaFlags>(0x81), "IFA_F_SECONDARY|IFA_F_PERMANENT");
    assert_eq!(flags::<RtmFlags>(0x300), "RTM_F_NOTIFY|RTM_F_CLONED");
    assert_eq!(flags::<NdState>(0x42), "NUD_REACHABLE|NUD_NOARP");
    assert_eq!(flags::<NdFlags>(0x82), "NTF_SELF|NTF_ROUTER");
}

#[test]
fn unlisted_bits_are_written_as_numbers() {
    assert_eq!(flags::<NdFlags>(0x20), "0x20");
    assert_eq!(flags::<NdFlags>(0x61), "NTF_USE|0x20|0x40");
    assert_eq!(flags::<RtmFlags>(0x101), "0x1|RTM_F_NOTIFY");
    assert_eq!(flags::<RtmFlags>(0xFF), "0x1|0x2|0x4|0x8|0x10|0x20|0x40|0x80");
}

#[test]
fn bits_above_the_largest_flag_are_not_looked_at() {
    assert_eq!(flags::<NdFlags>(0x100), "");
    assert_eq!(flags::<NdFlags>(0x181), "NTF_USE|NTF_ROUTER");
    assert_eq!(flags::<NetDeviceFlags>(0x80000), "");
    assert_eq!(flags::<NetDeviceFlags>(0xFFF80001), "IFF_UP");
    assert_eq!(flags::<RtmFlags>(0x1800), "RTM_F_PREFIX");
}

#[test]
fn names_of_tables_and_scopes() {
    let mut s = String::new();
    RtTable::pretty_fmt(&mut s, 254);
    s.push('/');
    RtTable::pretty_fmt(&mut s, 100);
    s.push('/');
    RtScope::pretty_fmt(&mut s, 0);
    s.push('/');
    RtScope::pretty_fmt(&mut s, 7);
    s.push('/');
    push_name_or_user_defined::<RtScope>(&mut s, 253);
    assert_eq!(s, "RT_TABLE_MAIN/user defined/RT_SCOPE_UNIVERSE/user defined/RT_SCOPE_LINK");
}

#[test]
fn message_type_text() {
    assert_eq!(NlMsgTypeEnum::Raw(26).to_text(), "Raw(26)");
    assert_eq!(
        NlMsgTypeEnum::NlMsgType(NlMsgType::NLMSG_DONE).to_text(),
        "NlMsgType(NLMSG_DONE)"
    );
    assert_eq!(
        NlMsgTypeEnum::NrMsgType(NrMsgType::RTM_NEWADDR).to_text(),
        "NrMsgType(RTM_NEWADDR)"
    );
}

fn name_attr() -> Rtattr<Ifla> {
    Rtattr { rta_len: 7, rta_type: Ifla::IFLA_IFNAME, rta_value: vec![b'l', b'o', 0] }
}

#[test]
fn attribute_text() {
    let a = name_attr();
    assert_eq!(
        a.to_text(0),
        "{\n    rta_len: 7,\n    rta_type: IFLA_IFNAME,\n    rta_value: [ 0x6C, 0x6F, 0x0 ],\n}"
    );
    assert_eq!(
        a.to_text(1),
        "{\n        rta_len: 7,\n        rta_type: IFLA_IFNAME,\n        rta_value: [ 0x6C, 0x6F, 0x0 ],\n    }"
    );
    let empty = Rtattr { rta_len: 4, rta_type: Ifla::IFLA_UNSPEC, rta_value: vec![] };
    assert_eq!(
        empty.to_text(0),
        "{\n    rta_len: 4,\n    rta_type: IFLA_UNSPEC,\n    rta_value: [ ],\n}"
    );
    let mut f = String::from("attr = ");
    a.pretty_fmt(&mut f, 0);
    assert_eq!(f, format!("attr = {}", a.to_text(0)));
    assert_eq!(Rtattr::<Ifla>::list_to_text(&vec![], 1), "");
    assert_eq!(Rtattr::list_to_text(&vec![a.clone()], 1), a.to_text(1));
    assert_eq!(
        Rtattr::list_to_text(&vec![a.clone(), empty.clone(), a.clone()], 2),
        format!("{},\n        {},\n        {}", a.to_text(2), empty.to_text(2), a.to_text(2))
    );
}

#[test]
fn link_message_text() {
    let data = [
        0u8, 0, 4, 3, 0xFE, 0xFF, 0xFF, 0xFF, 0x49, 0, 1, 0, 5, 0, 0, 0, 7, 0, 3, 0, b'l', b'o',
        0, 0, 8, 0, 4, 0, 0, 0, 1, 0,
    ];
    let mut cursor = Cursor::with_order(&data, Endian::Little);
    let m = Ifinfomsg::read(&mut cursor, data.len()).unwrap();
    let expected = "{\n\
        \x20   ifi_family: AF_UNSPEC,\n\
        \x20   ifi_type: 772,\n\
        \x20   ifi_index: -2,\n\
        \x20   ifi_flags: 0x10049 (IFF_UP|IFF_LOOPBACK|IFF_RUNNING|IFF_LOWER_UP),\n\
        \x20   ifi_change: 5,\n\
        \x20   ifi_attr: [ {\n\
        \x20       rta_len: 7,\n\
        \x20       rta_type: IFLA_IFNAME,\n\
        \x20       rta_value: [ 0x6C, 0x6F, 0x0 ],\n\
        \x20   },\n\
        \x20   {\n\
        \x20       rta_len: 8,\n\
        \x20       rta_type: IFLA_MTU,\n\
        \x20       rta_value: [ 0x0, 0x0, 0x1, 0x0 ],\n\
        \x20   } ],\n\
        }";
    assert_eq!(m.to_text(0), expected);
    let mut f = String::from(">");
    m.pretty_fmt(&mut f, 0);
    assert_eq!(f, format!(">{}", expected));
}

#[test]
fn address_message_text() {
    let data = [2u8, 24, 0x81, 253, 2, 0, 0, 0];
    let mut cursor = Cursor::with_order(&data, Endian::Little);
    let m = Ifaddrmsg::read(&mut cursor, data.len()).unwrap();
    assert_eq!(
        m.to_text(1),
        "{\n\
        \x20       ifa_family: AF_INET,\n\
        \x20       ifa_prefixlen: 24,\n\
        \x20       ifa_flags: 0x81 (IFA_F_SECONDARY|IFA_F_PERMANENT),\n\
        \x20       ifa_scope: 253,\n\
        \x20       ifa_index: 2,\n\
        \x20       ifa_attr: [  ],\n\
        \x20   }"
    );
}

#[test]
fn route_message_text() {
    let data = [2u8, 16, 0, 0, 254, 3, 200, 1, 0, 2, 0, 0];
    let mut cursor = Cursor::with_order(&data, Endian::Little);
    let m = Rtmsg::read(&mut cursor, data.len()).unwrap();
    assert_eq!(
        m.to_text(0),
        "{\n\
        \x20   rtm_family: AF_INET,\n\
        \x20   rtm_dst_len: 16,\n\
        \x20   rtm_src_len: 0,\n\
        \x20   rtm_tos: 0,\n\
        \x20   rtm_table: 254 (RT_TABLE_MAIN),\n\
        \x20   rtm_protocol: RTPROT_BOOT,\n\
        \x20   rtm_scope: 200 (RT_SCOPE_SITE),\n\
        \x20   rtm_type: RTN_UNICAST,\n\
        \x20   rtm_flags: 0x200 (RTM_F_CLONED),\n\
        \x20   rtm_attr: [  ],\n\
        }"
    );
    let other = [2u8, 0, 0, 0, 7, 3, 9, 1, 0, 0, 0, 0];
    let mut cursor = Cursor::with_order(&other, Endian::Little);
    let m = Rtmsg::read(&mut cursor, other.len()).unwrap();
    assert!(m.to_text(0).contains("    rtm_table: 7 (user defined),\n"));
    assert!(m.to_text(0).contains("    rtm_scope: 9 (user defined),\n"));
    assert!(m.to_text(0).contains("    rtm_flags: 0x0 (),\n"));
}

#[test]
fn neighbour_message_text() {
    let c = NdaCacheinfo { ndm_confirmed: 5, ndm_used: 6, ndm_updated: 255, ndm_flags: 16 };
    assert_eq!(
        c.to_text(0),
        "{\n    ndm_confirmed: 5,\n    ndm_used: 6,\n    ndm_updated: 0xFF,\n    ndm_flags: 0x10,\n}"
    );
    let mut f = String::new();
    c.pretty_fmt(&mut f, 0);
    assert_eq!(f, c.to_text(0));

    let data = [
        10u8, 0, 0, 0, 0xFF, 0xFF, 0xFF, 0xFF, 0x80, 0, 0x22, 3, 5, 0, 0, 0, 6, 0, 0, 0, 0xFF, 0,
        0, 0, 16, 0, 0, 0,
    ];
    let mut cursor = Cursor::with_order(&data, Endian::Little);
    let m = Ndmsg::read(&mut cursor, data.len()).unwrap();
    assert_eq!(
        m.to_text(0),
        "{\n\
        \x20   ndm_family: 10,\n\
        \x20   ndm_ifindex: -1,\n\
        \x20   ndm_state: 0x80 (NUD_PERMANENT),\n\
        \x20   ndm_flags: 0x22 (NTF_SELF|0x20),\n\
        \x20   ndm_type: NDA_CACHEINFO,\n\
        \x20   ndm_cacheinfo: {\n\
        \x20       ndm_confirmed: 5,\n\
        \x20       ndm_used: 6,\n\
        \x20       ndm_updated: 0xFF,\n\
        \x20       ndm_flags: 0x10,\n\
        \x20   },\n\
        \x20   ndm_attr: [  ],\n\
        }"
    );
    let plain = [2u8, 0, 0, 0, 3, 0, 0, 0, 2, 0, 0, 1];
    let mut cursor = Cursor::with_order(&plain, Endian::Little);
    let m = Ndmsg::read(&mut cursor, plain.len()).unwrap();
    assert!(m.to_text(0).contains("    ndm_cacheinfo: None,\n"));
}

#[test]
fn traffic_control_message_text() {
    let data = [0u8, 0, 0, 0, 2, 0, 0, 0, 0, 0, 1, 0, 0xFF, 0xFF, 0xFF, 0xFF, 2, 0, 0, 0];
    let mut cursor = Cursor::with_order(&data, Endian::Little);
    let m = Tcmsg::read(&mut cursor, data.len()).unwrap();
    assert_eq!(
        m.to_text(0),
        "{\n\
        \x20   tcm_family: 0,\n\
        \x20   tcm_ifindex: 2,\n\
        \x20   tcm_handle: 0x10000,\n\
        \x20   tcm_parent: 0xFFFFFFFF,\n\
        \x20   tcm_info: 2,\n\
        \x20   tcm_attr: [  ],\n\
        }"
    );
}

#[test]
fn header_texts() {
    let h = CookedHeader {
        header_type: 4,
        arphdr_type: 824,
        address_length: 0,
        address: [0, 1, 2, 3, 4, 5, 6, 255],
        netlink_family: NetlinkFamily::NETLINK_GENERIC,
    };
    assert_eq!(
        h.to_text(0),
        "{\n\
        \x20   header_type: 4,\n\
        \x20   arphdr_type: 824,\n\
        \x20   address_length: 0,\n\
        \x20   address = [ 0, 1, 2, 3, 4, 5, 6, 255 ]\n\
        \x20   netlink_family: NETLINK_GENERIC,\n\
        }"
    );
    let n = Nlmsghdr {
        nlmsg_len: 36,
        nlmsg_type: NlMsgTypeEnum::Raw(26),
        nlmsg_flags: 773,
        nlmsg_seq: 1438189401,
        nlmsg_pid: 8389369,
    };
    assert_eq!(
        n.to_text(1),
        "{\n\
        \x20       nlmsg_len: 36,\n\
        \x20       nlmsg_type: Raw(26),\n\
        \x20       nlmsg_flags: 0x305,\n\
        \x20       nlmsg_seq: 1438189401,\n\
        \x20       nlmsg_pid: 8389369,\n\
        \x20   }"
    );
    let mut f = String::new();
    h.pretty_fmt(&mut f, 2);
    n.pretty_fmt(&mut f, 3);
    assert_eq!(f, format!("{}{}", h.to_text(2), n.to_text(3)));
}

#[test]
fn packet_text() {
    let raw_data = [0u8, 4, 3, 56, 0, 0, 0, 0, 0, 0, 0, 0, 0, 0, 0, 16, 36, 0,
                    0, 0, 26, 0, 5, 3, 89, 7, 185, 85, 249, 2, 128, 0, 32, 0,
                    0, 0, 8, 0, 3, 0, 2, 0, 0, 0, 8, 0, 1, 0, 0, 0, 0, 0];
    let msg = NlMsg::read_with_order(&raw_data, Endian::Little).unwrap();
    assert_eq!(
        msg.to_text(0),
        "{\n\
        \x20   netlink_family: NETLINK_GENERIC\n\
        \x20   nlmsghdr: {\n\
        \x20       nlmsg_len: 36,\n\
        \x20       nlmsg_type: Raw(26),\n\
        \x20       nlmsg_flags: 0x305,\n\
        \x20       nlmsg_seq: 1438189401,\n\
        \x20       nlmsg_pid: 8389369,\n\
        \x20   }\n\
        \x20   nlmsg: Unsupported\n\
        }"
    );
    let mut f = String::new();
    msg.pretty_fmt(&mut f, 0);
    assert_eq!(f, msg.to_text(0));
}

#[test]
fn body_text() {
    assert_eq!(NlMsgEnum::NoBody.to_text(0), "None");
    assert_eq!(NlMsgEnum::Unsupported.to_text(3), "Unsupported");
    assert_eq!(NlMsgEnum::Malformed.to_text(0), "Malformed");
    let data = [0u8, 0, 0, 0, 2, 0, 0, 0, 0, 0, 1, 0, 0xFF, 0xFF, 0xFF, 0xFF, 2, 0, 0, 0];
    let mut cursor = Cursor::with_order(&data, Endian::Little);
    let m = Tcmsg::read(&mut cursor, data.len()).unwrap();
    let body = NlMsgEnum::Tcmsg(m.clone());
    assert_eq!(body.to_text(0), format!("Tcmsg({})", m.to_text(1)));
    let mut f = String::from("nlmsg: ");
    body.pretty_fmt(&mut f, 1);
    assert_eq!(f, format!("nlmsg: Tcmsg({})", m.to_text(2)));
}
