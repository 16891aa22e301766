use nl_dump::nl::cursor::Cursor;
use nl_dump::nl::netlink::NetlinkFamily;
use nl_dump::nl::{CookedHeader, NlMsg, NlMsgTypeEnum, Nlmsghdr, COOKED_HEADER_SIZE};

#[test]
fn test_cookedheader_read() {
    let raw_data = [0u8, 4, 3, 56, 0, 0, 0, 0, 0, 0, 0, 0, 0, 0, 0, 16, 36, 0,
                    0, 0, 26, 0, 5, 3, 89, 7, 185, 85, 249, 2, 128, 0, 32, 0,
                    0, 0, 8, 0, 3, 0, 2, 0, 0, 0, 8, 0, 1, 0, 0, 0, 0, 0];
    let mut cursor = Cursor::new(&raw_data as &[u8]);
    let h = CookedHeader::read(&mut cursor).unwrap();
    println!("h = {:?}", h);

    assert!(h.header_type == 4);
    assert!(h.arphdr_type == 824);
    assert!(h.address_length == 0);
    for a in h.address.iter() {
        assert!(*a == 0);
    }
    assert!(h.netlink_family == NetlinkFamily::NETLINK_GENERIC);
}

#[test]
fn test_nlmsghdr_read() {
    let raw_data = [0u8, 4, 3, 56, 0, 0, 0, 0, 0, 0, 0, 0, 0, 0, 0, 16, 36, 0,
                    0, 0, 26, 0, 5, 3, 89, 7, 185, 85, 249, 2, 128, 0, 32, 0,
                    0, 0, 8, 0, 3, 0, 2, 0, 0, 0, 8, 0, 1, 0, 0, 0, 0, 0];
    let mut cursor = Cursor::new(&raw_data[COOKED_HEADER_SIZE ..] as &[u8]);
    let h = Nlmsghdr::read(&mut cursor, NetlinkFamily::NETLINK_GENERIC).unwrap();
    println!("h = {:?}", h);

    assert!(h.nlmsg_len == 36);
    assert!(h.nlmsg_type == NlMsgTypeEnum::Raw(26));
    assert!(h.nlmsg_flags == 773);
    assert!(h.nlmsg_seq == 1438189401);
    assert!(h.nlmsg_pid == 8389369);
}

#[allow(non_snake_case)]
#[test]
fn test_NlMsg_read() {
    let raw_data = [0u8, 4, 3, 56, 0, 0, 0, 0, 0, 0, 0, 0, 0, 0, 0, 16, 36, 0,
                    0, 0, 26, 0, 5, 3, 89, 7, 185, 85, 249, 2, 128, 0, 32, 0,
                    0, 0, 8, 0, 3, 0, 2, 0, 0, 0, 8, 0, 1, 0, 0, 0, 0, 0];
    let msg = NlMsg::read(&raw_data).unwrap();
    println!("msg = {:?}", msg);

    assert!(msg.netlink_family == NetlinkFamily::NETLINK_GENERIC);
    assert!(msg.nlmsghdr.nlmsg_len == 36);
    assert!(msg.nlmsghdr.nlmsg_type == NlMsgTypeEnum::Raw(26));
    assert!(msg.nlmsghdr.nlmsg_flags == 773);
    assert!(msg.nlmsghdr.nlmsg_seq == 1438189401);
    assert!(msg.nlmsghdr.nlmsg_pid == 8389369);
}

#[allow(non_snake_case)]
#[test]
fn test_NlMsg_nlmsg_align() {
    let raw_data = [0u8, 0, 0, 0, 0, 0, 0, 0];
    let mut cursor = Cursor::new(&raw_data as &[u8]);

    assert!(cursor.position() == 0);
    NlMsg::nlmsg_align(&mut cursor);
    assert!(cursor.position() == 0);

    cursor.set_position(1);
    assert!(cursor.position() == 1);
    NlMsg::nlmsg_align(&mut cursor);
    assert!(cursor.position() == 4);

    cursor.set_position(4);
    NlMsg::nlmsg_align(&mut cursor);
    assert!(cursor.position() == 4);

    cursor.set_position(5);
    NlMsg::nlmsg_align(&mut cursor);
    assert!(cursor.position() == 8);

    cursor.set_position(6);
    NlMsg::nlmsg_align(&mut cursor);
    assert!(cursor.position() == 8);

    cursor.set_position(7);
    NlMsg::nlmsg_align(&mut cursor);
    assert!(cursor.position() == 8);

    cursor.set_position(8);
    NlMsg::nlmsg_align(&mut cursor);
    assert!(cursor.position() == 8);
}
