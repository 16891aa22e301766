use nl_dump::nl::netlink::{NetlinkFamily, NlMsgType};
use nl_dump::nl::rtnetlink::{
    AddressFamily, Ifa, IfaFlags, Ifla, NdAttr, NdFlags, NdState, NetDeviceFlags, NrMsgType,
    RtScope, RtTable, RtmAttr, RtmFlags, Rtn, Rtprot, TcAttr,
};
use nl_dump::nl::table::{FlagTable, Table};

fn round_trips<T: Table + PartialEq + std::fmt::Debug>(limit: u32) -> u32 {
    let mut listed = 0;
    for v in 0..=limit {
        if let Some(x) = T::from_value(v) {
            assert_eq!(x.value(), v);
            assert_eq!(T::from_value(x.value()), Some(x));
            assert!(!x.name().is_empty());
            assert_eq!(T::from_str(x.name()), Some(x));
            assert_eq!(T::from_str(&x.name().to_lowercase()), None);
            assert_eq!(T::from_str(&format!("{} ", x.name())), None);
            listed += 1;
        }
    }
    listed
}

#[test]
fn every_listed_number_round_trips() {
    assert_eq!(round_trips::<NetlinkFamily>(1000), 21);
    assert_eq!(round_trips::<NlMsgType>(1000), 4);
    assert_eq!(round_trips::<AddressFamily>(1000), 41);
    assert_eq!(round_trips::<NetDeviceFlags>(0x100000), 19);
    assert_eq!(round_trips::<Ifla>(1000), 40);
    assert_eq!(round_trips::<IfaFlags>(0x10000), 12);
    assert_eq!(round_trips::<Ifa>(1000), 9);
    assert_eq!(round_trips::<Rtn>(1000), 12);
    assert_eq!(round_trips::<Rtprot>(1000), 16);
    assert_eq!(round_trips::<RtScope>(1000), 5);
    assert_eq!(round_trips::<RtTable>(1000), 5);
    assert_eq!(round_trips::<RtmFlags>(0x10000), 4);
    assert_eq!(round_trips::<RtmAttr>(1000), 21);
    assert_eq!(round_trips::<NdState>(0x1000), 9);
    assert_eq!(round_trips::<NdFlags>(0x1000), 6);
    assert_eq!(round_trips::<NdAttr>(1000), 11);
    assert_eq!(round_trips::<TcAttr>(1000), 9);
    assert_eq!(round_trips::<NrMsgType>(1000), 48);
}

#[test]
fn unlisted_numbers_give_no_match() {
    assert_eq!(NetlinkFamily::from_value(17), None);
    assert_eq!(NetlinkFamily::from_value(22), None);
    assert_eq!(NlMsgType::from_value(0), None);
    assert_eq!(NlMsgType::from_value(5), None);
    assert_eq!(AddressFamily::from_value(41), None);
    assert_eq!(NetDeviceFlags::from_value(3), None);
    assert_eq!(NetDeviceFlags::from_value(0x80000), None);
    assert_eq!(Ifla::from_value(40), None);
    assert_eq!(Ifa::from_value(9), None);
    assert_eq!(Rtprot::from_value(5), None);
    assert_eq!(RtScope::from_value(1), None);
    assert_eq!(RtTable::from_value(100), None);
    assert_eq!(RtmFlags::from_value(0x80), None);
    assert_eq!(NdFlags::from_value(0x20), None);
    assert_eq!(NdAttr::from_value(11), None);
    assert_eq!(TcAttr::from_value(9), None);
    assert_eq!(NrMsgType::from_value(23), None);
    assert_eq!(NrMsgType::from_value(u32::MAX), None);
}

#[test]
fn known_numbers_and_names() {
    assert_eq!(NetlinkFamily::from_value(0), Some(NetlinkFamily::NETLINK_ROUTE));
    assert_eq!(NetlinkFamily::from_value(16), Some(NetlinkFamily::NETLINK_GENERIC));
    assert_eq!(NetlinkFamily::NETLINK_GENERIC.name(), "NETLINK_GENERIC");
    assert_eq!(NlMsgType::from_value(3), Some(NlMsgType::NLMSG_DONE));
    assert_eq!(NlMsgType::NLMSG_OVERRUN.value(), 4);
    assert_eq!(AddressFamily::from_value(2), Some(AddressFamily::AF_INET));
    assert_eq!(AddressFamily::from_value(10), Some(AddressFamily::AF_INET6));
    assert_eq!(AddressFamily::AF_PACKET.value(), 17);
    assert_eq!(NetDeviceFlags::IFF_LOWER_UP.value(), 0x10000);
    assert_eq!(Ifla::from_value(3), Some(Ifla::IFLA_IFNAME));
    assert_eq!(Ifla::IFLA_IFNAME.name(), "IFLA_IFNAME");
    assert_eq!(Ifa::from_value(6), Some(Ifa::IFA_CACHEINFO));
    assert_eq!(IfaFlags::IFA_F_PERMANENT.value(), 0x80);
    assert_eq!(Rtn::from_value(1), Some(Rtn::RTN_UNICAST));
    assert_eq!(Rtprot::from_value(42), Some(Rtprot::RTPROT_BABEL));
    assert_eq!(RtScope::from_value(253), Some(RtScope::RT_SCOPE_LINK));
    assert_eq!(RtTable::from_value(254), Some(RtTable::RT_TABLE_MAIN));
    assert_eq!(RtmFlags::RTM_F_CLONED.value(), 0x200);
    assert_eq!(RtmAttr::from_value(5), Some(RtmAttr::RTA_GATEWAY));
    assert_eq!(NdState::from_value(0x02), Some(NdState::NUD_REACHABLE));
    assert_eq!(NdFlags::from_value(0x80), Some(NdFlags::NTF_ROUTER));
    assert_eq!(NdAttr::from_value(3), Some(NdAttr::NDA_CACHEINFO));
    assert_eq!(TcAttr::from_value(1), Some(TcAttr::TCA_KIND));
    assert_eq!(NrMsgType::from_value(18), Some(NrMsgType::RTM_GETLINK));
    assert_eq!(NrMsgType::RTM_GETNSID.value(), 90);
}

#[test]
fn largest_flag_values() {
    assert_eq!(NetDeviceFlags::max_value(), 0x40000);
    assert_eq!(IfaFlags::max_value(), 0x800);
    assert_eq!(RtmFlags::max_value(), 0x800);
    assert_eq!(NdState::max_value(), 0x80);
    assert_eq!(NdFlags::max_value(), 0x80);
}

#[test]
fn control_type_from_primitive() {
    assert_eq!(NlMsgType::from_u64(1), Some(NlMsgType::NLMSG_NOOP));
    assert_eq!(NlMsgType::from_u64(2), Some(NlMsgType::NLMSG_ERROR));
    assert_eq!(NlMsgType::from_u64(5), None);
    assert_eq!(NlMsgType::from_u64(0x1_0000_0001), None);
    assert_eq!(NlMsgType::from_i64(4), Some(NlMsgType::NLMSG_OVERRUN));
    assert_eq!(NlMsgType::from_i64(-1), None);
    assert_eq!(NlMsgType::from_i64(0x1_0000_0003), None);
    assert_eq!(NlMsgType::default(), NlMsgType::NLMSG_NOOP);
    assert_eq!(NetlinkFamily::default(), NetlinkFamily::NETLINK_ROUTE);
}

#[test]
fn names_parse_back() {
    assert_eq!(NlMsgType::from_str("NLMSG_NOOP"), Some(NlMsgType::NLMSG_NOOP));
    assert_eq!(NlMsgType::from_str("NLMSG_DONE"), Some(NlMsgType::NLMSG_DONE));
    assert_eq!(NlMsgType::from_str("NLMSG_done"), None);
    assert_eq!(NlMsgType::from_str(""), None);
    assert_eq!(NetlinkFamily::from_str("NETLINK_ROUTE"), Some(NetlinkFamily::NETLINK_ROUTE));
    assert_eq!(NetlinkFamily::from_str("NETLINK_GENERIC"), Some(NetlinkFamily::NETLINK_GENERIC));
    assert_eq!(NetlinkFamily::from_str("NETLINK_"), None);
    for v in 0..32u32 {
        if let Some(f) = NetlinkFamily::from_value(v) {
            assert_eq!(NetlinkFamily::from_str(f.name()), Some(f));
        }
    }
}

#[test]
fn names_of_other_tables_are_refused() {
    assert_eq!(Ifla::from_str("IFLA_MTU"), Some(Ifla::IFLA_MTU));
    assert_eq!(Ifa::from_str("IFLA_MTU"), None);
    assert_eq!(Ifa::from_str("IFA_LOCAL"), Some(Ifa::IFA_LOCAL));
    assert_eq!(NrMsgType::from_str("RTM_GETLINK"), Some(NrMsgType::RTM_GETLINK));
    assert_eq!(NrMsgType::from_str("RTM_GETLIN"), None);
    assert_eq!(AddressFamily::from_str("AF_DECnet"), Some(AddressFamily::AF_DECnet));
    assert_eq!(AddressFamily::from_str("AF_DECNET"), None);
    assert_eq!(NdState::from_str("NUD_NONE"), Some(NdState::NUD_NONE));
    assert_eq!(RtScope::from_str(""), None);
}

#[test]
fn default_is_the_lowest_constant() {
    assert_eq!(AddressFamily::default(), AddressFamily::AF_UNSPEC);
    assert_eq!(NetDeviceFlags::default(), NetDeviceFlags::IFF_UP);
    assert_eq!(Ifla::default(), Ifla::IFLA_UNSPEC);
    assert_eq!(IfaFlags::default(), IfaFlags::IFA_F_SECONDARY);
    assert_eq!(Ifa::default(), Ifa::IFA_UNSPEC);
    assert_eq!(Rtn::default(), Rtn::RTN_UNSPEC);
    assert_eq!(Rtprot::default(), Rtprot::RTPROT_UNSPEC);
    assert_eq!(RtScope::default(), RtScope::RT_SCOPE_UNIVERSE);
    assert_eq!(RtTable::default(), RtTable::RT_TABLE_UNSPEC);
    assert_eq!(RtmFlags::default(), RtmFlags::RTM_F_NOTIFY);
    assert_eq!(RtmAttr::default(), RtmAttr::RTA_UNSPEC);
    assert_eq!(NdState::default(), NdState::NUD_NONE);
    assert_eq!(NdFlags::default(), NdFlags::NTF_USE);
    assert_eq!(NdAttr::default(), NdAttr::NDA_UNSPEC);
    assert_eq!(TcAttr::default(), TcAttr::TCA_UNSPEC);
    assert_eq!(NrMsgType::default(), NrMsgType::RTM_NEWLINK);
}
