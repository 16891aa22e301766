//! Tables of the link messages: address families, device flags and link
//! attribute kinds.

use vstd::prelude::*;
use crate::nl::table::{same_text, FlagTable, Table};

verus! {

/// Address families (`AF_*`).
#[allow(non_camel_case_types)]
#[derive(Clone, Copy, Debug, PartialEq, Eq, Structural)]
pub enum AddressFamily {
    AF_UNSPEC,
    AF_UNIX,
    AF_INET,
    AF_AX25,
    AF_IPX,
    AF_APPLETALK,
    AF_NETROM,
    AF_BRIDGE,
    AF_ATMPVC,
    AF_X25,
    AF_INET6,
    AF_ROSE,
    AF_DECnet,
    AF_NETBEUI,
    AF_SECURITY,
    AF_KEY,
    AF_NETLINK,
    AF_PACKET,
    AF_ASH,
    AF_ECONET,
    AF_ATMSVC,
    AF_RDS,
    AF_SNA,
    AF_IRDA,
    AF_PPPOX,
    AF_WANPIPE,
    AF_LLC,
    AF_IB,
    AF_MPLS,
    AF_CAN,
    AF_TIPC,
    AF_BLUETOOTH,
    AF_IUCV,
    AF_RXRPC,
    AF_ISDN,
    AF_PHONET,
    AF_IEEE802154,
    AF_CAIF,
    AF_ALG,
    AF_NFC,
    AF_VSOCK,
}

impl Table for AddressFamily {
    open spec fn spec_value(self) -> u32 {
        match self {
            AddressFamily::AF_UNSPEC => 0,
            AddressFamily::AF_UNIX => 1,
            AddressFamily::AF_INET => 2,
            AddressFamily::AF_AX25 => 3,
            AddressFamily::AF_IPX => 4,
            AddressFamily::AF_APPLETALK => 5,
            AddressFamily::AF_NETROM => 6,
            AddressFamily::AF_BRIDGE => 7,
            AddressFamily::AF_ATMPVC => 8,
            AddressFamily::AF_X25 => 9,
            AddressFamily::AF_INET6 => 10,
            AddressFamily::AF_ROSE => 11,
            AddressFamily::AF_DECnet => 12,
            AddressFamily::AF_NETBEUI => 13,
            AddressFamily::AF_SECURITY => 14,
            AddressFamily::AF_KEY => 15,
            AddressFamily::AF_NETLINK => 16,
            AddressFamily::AF_PACKET => 17,
            AddressFamily::AF_ASH => 18,
            AddressFamily::AF_ECONET => 19,
            AddressFamily::AF_ATMSVC => 20,
            AddressFamily::AF_RDS => 21,
            AddressFamily::AF_SNA => 22,
            AddressFamily::AF_IRDA => 23,
            AddressFamily::AF_PPPOX => 24,
            AddressFamily::AF_WANPIPE => 25,
            AddressFamily::AF_LLC => 26,
            AddressFamily::AF_IB => 27,
            AddressFamily::AF_MPLS => 28,
            AddressFamily::AF_CAN => 29,
            AddressFamily::AF_TIPC => 30,
            AddressFamily::AF_BLUETOOTH => 31,
            AddressFamily::AF_IUCV => 32,
            AddressFamily::AF_RXRPC => 33,
            AddressFamily::AF_ISDN => 34,
            AddressFamily::AF_PHONET => 35,
            AddressFamily::AF_IEEE802154 => 36,
            AddressFamily::AF_CAIF => 37,
            AddressFamily::AF_ALG => 38,
            AddressFamily::AF_NFC => 39,
            AddressFamily::AF_VSOCK => 40,
        }
    }

    open spec fn spec_from_value(v: u32) -> Option<Self> {
        if v == 0 {
            Some(AddressFamily::AF_UNSPEC)
        } else if v == 1 {
            Some(AddressFamily::AF_UNIX)
        } else if v == 2 {
            Some(AddressFamily::AF_INET)
        } else if v == 3 {
            Some(AddressFamily::AF_AX25)
        } else if v == 4 {
            Some(AddressFamily::AF_IPX)
        } else if v == 5 {
            Some(AddressFamily::AF_APPLETALK)
        } else if v == 6 {
            Some(AddressFamily::AF_NETROM)
        } else if v == 7 {
            Some(AddressFamily::AF_BRIDGE)
        } else if v == 8 {
            Some(AddressFamily::AF_ATMPVC)
        } else if v == 9 {
            Some(AddressFamily::AF_X25)
        } else if v == 10 {
            Some(AddressFamily::AF_INET6)
        } else if v == 11 {
            Some(AddressFamily::AF_ROSE)
        } else if v == 12 {
            Some(AddressFamily::AF_DECnet)
        } else if v == 13 {
            Some(AddressFamily::AF_NETBEUI)
        } else if v == 14 {
            Some(AddressFamily::AF_SECURITY)
        } else if v == 15 {
            Some(AddressFamily::AF_KEY)
        } else if v == 16 {
            Some(AddressFamily::AF_NETLINK)
        } else if v == 17 {
            Some(AddressFamily::AF_PACKET)
        } else if v == 18 {
            Some(AddressFamily::AF_ASH)
        } else if v == 19 {
            Some(AddressFamily::AF_ECONET)
        } else if v == 20 {
            Some(AddressFamily::AF_ATMSVC)
        } else if v == 21 {
            Some(AddressFamily::AF_RDS)
        } else if v == 22 {
            Some(AddressFamily::AF_SNA)
        } else if v == 23 {
            Some(AddressFamily::AF_IRDA)
        } else if v == 24 {
            Some(AddressFamily::AF_PPPOX)
        } else if v == 25 {
            Some(AddressFamily::AF_WANPIPE)
        } else if v == 26 {
            Some(AddressFamily::AF_LLC)
        } else if v == 27 {
            Some(AddressFamily::AF_IB)
        } else if v == 28 {
            Some(AddressFamily::AF_MPLS)
        } else if v == 29 {
            Some(AddressFamily::AF_CAN)
        } else if v == 30 {
            Some(AddressFamily::AF_TIPC)
        } else if v == 31 {
            Some(AddressFamily::AF_BLUETOOTH)
        } else if v == 32 {
            Some(AddressFamily::AF_IUCV)
        } else if v == 33 {
            Some(AddressFamily::AF_RXRPC)
        } else if v == 34 {
            Some(AddressFamily::AF_ISDN)
        } else if v == 35 {
            Some(AddressFamily::AF_PHONET)
        } else if v == 36 {
            Some(AddressFamily::AF_IEEE802154)
        } else if v == 37 {
            Some(AddressFamily::AF_CAIF)
        } else if v == 38 {
            Some(AddressFamily::AF_ALG)
        } else if v == 39 {
            Some(AddressFamily::AF_NFC)
        } else if v == 40 {
            Some(AddressFamily::AF_VSOCK)
        } else {
            None
        }
    }

    open spec fn spec_name(self) -> Seq<char> {
        match self {
            AddressFamily::AF_UNSPEC => "AF_UNSPEC"@,
            AddressFamily::AF_UNIX => "AF_UNIX"@,
            AddressFamily::AF_INET => "AF_INET"@,
            AddressFamily::AF_AX25 => "AF_AX25"@,
            AddressFamily::AF_IPX => "AF_IPX"@,
            AddressFamily::AF_APPLETALK => "AF_APPLETALK"@,
            AddressFamily::AF_NETROM => "AF_NETROM"@,
            AddressFamily::AF_BRIDGE => "AF_BRIDGE"@,
            AddressFamily::AF_ATMPVC => "AF_ATMPVC"@,
            AddressFamily::AF_X25 => "AF_X25"@,
            AddressFamily::AF_INET6 => "AF_INET6"@,
            AddressFamily::AF_ROSE => "AF_ROSE"@,
            AddressFamily::AF_DECnet => "AF_DECnet"@,
            AddressFamily::AF_NETBEUI => "AF_NETBEUI"@,
            AddressFamily::AF_SECURITY => "AF_SECURITY"@,
            AddressFamily::AF_KEY => "AF_KEY"@,
            AddressFamily::AF_NETLINK => "AF_NETLINK"@,
            AddressFamily::AF_PACKET => "AF_PACKET"@,
            AddressFamily::AF_ASH => "AF_ASH"@,
            AddressFamily::AF_ECONET => "AF_ECONET"@,
            AddressFamily::AF_ATMSVC => "AF_ATMSVC"@,
            AddressFamily::AF_RDS => "AF_RDS"@,
            AddressFamily::AF_SNA => "AF_SNA"@,
            AddressFamily::AF_IRDA => "AF_IRDA"@,
            AddressFamily::AF_PPPOX => "AF_PPPOX"@,
            AddressFamily::AF_WANPIPE => "AF_WANPIPE"@,
            AddressFamily::AF_LLC => "AF_LLC"@,
            AddressFamily::AF_IB => "AF_IB"@,
            AddressFamily::AF_MPLS => "AF_MPLS"@,
            AddressFamily::AF_CAN => "AF_CAN"@,
            AddressFamily::AF_TIPC => "AF_TIPC"@,
            AddressFamily::AF_BLUETOOTH => "AF_BLUETOOTH"@,
            AddressFamily::AF_IUCV => "AF_IUCV"@,
            AddressFamily::AF_RXRPC => "AF_RXRPC"@,
            AddressFamily::AF_ISDN => "AF_ISDN"@,
            AddressFamily::AF_PHONET => "AF_PHONET"@,
            AddressFamily::AF_IEEE802154 => "AF_IEEE802154"@,
            AddressFamily::AF_CAIF => "AF_CAIF"@,
            AddressFamily::AF_ALG => "AF_ALG"@,
            AddressFamily::AF_NFC => "AF_NFC"@,
            AddressFamily::AF_VSOCK => "AF_VSOCK"@,
        }
    }

    fn value(self) -> (r: u32) {
        match self {
            AddressFamily::AF_UNSPEC => 0,
            AddressFamily::AF_UNIX => 1,
            AddressFamily::AF_INET => 2,
            AddressFamily::AF_AX25 => 3,
            AddressFamily::AF_IPX => 4,
            AddressFamily::AF_APPLETALK => 5,
            AddressFamily::AF_NETROM => 6,
            AddressFamily::AF_BRIDGE => 7,
            AddressFamily::AF_ATMPVC => 8,
            AddressFamily::AF_X25 => 9,
            AddressFamily::AF_INET6 => 10,
            AddressFamily::AF_ROSE => 11,
            AddressFamily::AF_DECnet => 12,
            AddressFamily::AF_NETBEUI => 13,
            AddressFamily::AF_SECURITY => 14,
            AddressFamily::AF_KEY => 15,
            AddressFamily::AF_NETLINK => 16,
            AddressFamily::AF_PACKET => 17,
            AddressFamily::AF_ASH => 18,
            AddressFamily::AF_ECONET => 19,
            AddressFamily::AF_ATMSVC => 20,
            AddressFamily::AF_RDS => 21,
            AddressFamily::AF_SNA => 22,
            AddressFamily::AF_IRDA => 23,
            AddressFamily::AF_PPPOX => 24,
            AddressFamily::AF_WANPIPE => 25,
            AddressFamily::AF_LLC => 26,
            AddressFamily::AF_IB => 27,
            AddressFamily::AF_MPLS => 28,
            AddressFamily::AF_CAN => 29,
            AddressFamily::AF_TIPC => 30,
            AddressFamily::AF_BLUETOOTH => 31,
            AddressFamily::AF_IUCV => 32,
            AddressFamily::AF_RXRPC => 33,
            AddressFamily::AF_ISDN => 34,
            AddressFamily::AF_PHONET => 35,
            AddressFamily::AF_IEEE802154 => 36,
            AddressFamily::AF_CAIF => 37,
            AddressFamily::AF_ALG => 38,
            AddressFamily::AF_NFC => 39,
            AddressFamily::AF_VSOCK => 40,
        }
    }

    fn from_value(v: u32) -> (r: Option<Self>) {
        match v {
            0 => Some(AddressFamily::AF_UNSPEC),
            1 => Some(AddressFamily::AF_UNIX),
            2 => Some(AddressFamily::AF_INET),
            3 => Some(AddressFamily::AF_AX25),
            4 => Some(AddressFamily::AF_IPX),
            5 => Some(AddressFamily::AF_APPLETALK),
            6 => Some(AddressFamily::AF_NETROM),
            7 => Some(AddressFamily::AF_BRIDGE),
            8 => Some(AddressFamily::AF_ATMPVC),
            9 => Some(AddressFamily::AF_X25),
            10 => Some(AddressFamily::AF_INET6),
            11 => Some(AddressFamily::AF_ROSE),
            12 => Some(AddressFamily::AF_DECnet),
            13 => Some(AddressFamily::AF_NETBEUI),
            14 => Some(AddressFamily::AF_SECURITY),
            15 => Some(AddressFamily::AF_KEY),
            16 => Some(AddressFamily::AF_NETLINK),
            17 => Some(AddressFamily::AF_PACKET),
            18 => Some(AddressFamily::AF_ASH),
            19 => Some(AddressFamily::AF_ECONET),
            20 => Some(AddressFamily::AF_ATMSVC),
            21 => Some(AddressFamily::AF_RDS),
            22 => Some(AddressFamily::AF_SNA),
            23 => Some(AddressFamily::AF_IRDA),
            24 => Some(AddressFamily::AF_PPPOX),
            25 => Some(AddressFamily::AF_WANPIPE),
            26 => Some(AddressFamily::AF_LLC),
            27 => Some(AddressFamily::AF_IB),
            28 => Some(AddressFamily::AF_MPLS),
            29 => Some(AddressFamily::AF_CAN),
            30 => Some(AddressFamily::AF_TIPC),
            31 => Some(AddressFamily::AF_BLUETOOTH),
            32 => Some(AddressFamily::AF_IUCV),
            33 => Some(AddressFamily::AF_RXRPC),
            34 => Some(AddressFamily::AF_ISDN),
            35 => Some(AddressFamily::AF_PHONET),
            36 => Some(AddressFamily::AF_IEEE802154),
            37 => Some(AddressFamily::AF_CAIF),
            38 => Some(AddressFamily::AF_ALG),
            39 => Some(AddressFamily::AF_NFC),
            40 => Some(AddressFamily::AF_VSOCK),
            _ => None,
        }
    }

    fn name(self) -> (r: &'static str) {
        match self {
            AddressFamily::AF_UNSPEC => "AF_UNSPEC",
            AddressFamily::AF_UNIX => "AF_UNIX",
            AddressFamily::AF_INET => "AF_INET",
            AddressFamily::AF_AX25 => "AF_AX25",
            AddressFamily::AF_IPX => "AF_IPX",
            AddressFamily::AF_APPLETALK => "AF_APPLETALK",
            AddressFamily::AF_NETROM => "AF_NETROM",
            AddressFamily::AF_BRIDGE => "AF_BRIDGE",
            AddressFamily::AF_ATMPVC => "AF_ATMPVC",
            AddressFamily::AF_X25 => "AF_X25",
            AddressFamily::AF_INET6 => "AF_INET6",
            AddressFamily::AF_ROSE => "AF_ROSE",
            AddressFamily::AF_DECnet => "AF_DECnet",
            AddressFamily::AF_NETBEUI => "AF_NETBEUI",
            AddressFamily::AF_SECURITY => "AF_SECURITY",
            AddressFamily::AF_KEY => "AF_KEY",
            AddressFamily::AF_NETLINK => "AF_NETLINK",
            AddressFamily::AF_PACKET => "AF_PACKET",
            AddressFamily::AF_ASH => "AF_ASH",
            AddressFamily::AF_ECONET => "AF_ECONET",
            AddressFamily::AF_ATMSVC => "AF_ATMSVC",
            AddressFamily::AF_RDS => "AF_RDS",
            AddressFamily::AF_SNA => "AF_SNA",
            AddressFamily::AF_IRDA => "AF_IRDA",
            AddressFamily::AF_PPPOX => "AF_PPPOX",
            AddressFamily::AF_WANPIPE => "AF_WANPIPE",
            AddressFamily::AF_LLC => "AF_LLC",
            AddressFamily::AF_IB => "AF_IB",
            AddressFamily::AF_MPLS => "AF_MPLS",
            AddressFamily::AF_CAN => "AF_CAN",
            AddressFamily::AF_TIPC => "AF_TIPC",
            AddressFamily::AF_BLUETOOTH => "AF_BLUETOOTH",
            AddressFamily::AF_IUCV => "AF_IUCV",
            AddressFamily::AF_RXRPC => "AF_RXRPC",
            AddressFamily::AF_ISDN => "AF_ISDN",
            AddressFamily::AF_PHONET => "AF_PHONET",
            AddressFamily::AF_IEEE802154 => "AF_IEEE802154",
            AddressFamily::AF_CAIF => "AF_CAIF",
            AddressFamily::AF_ALG => "AF_ALG",
            AddressFamily::AF_NFC => "AF_NFC",
            AddressFamily::AF_VSOCK => "AF_VSOCK",
        }
    }

    proof fn lemma_value_round_trip(self) {
    }

    proof fn lemma_from_value_exact(v: u32) {
    }

    open spec fn spec_from_str(s: Seq<char>) -> Option<Self> {
        if s == "AF_UNSPEC"@ {
            Some(AddressFamily::AF_UNSPEC)
        } else if s == "AF_UNIX"@ {
            Some(AddressFamily::AF_UNIX)
        } else if s == "AF_INET"@ {
            Some(AddressFamily::AF_INET)
        } else if s == "AF_AX25"@ {
            Some(AddressFamily::AF_AX25)
        } else if s == "AF_IPX"@ {
            Some(AddressFamily::AF_IPX)
        } else if s == "AF_APPLETALK"@ {
            Some(AddressFamily::AF_APPLETALK)
        } else if s == "AF_NETROM"@ {
            Some(AddressFamily::AF_NETROM)
        } else if s == "AF_BRIDGE"@ {
            Some(AddressFamily::AF_BRIDGE)
        } else if s == "AF_ATMPVC"@ {
            Some(AddressFamily::AF_ATMPVC)
        } else if s == "AF_X25"@ {
            Some(AddressFamily::AF_X25)
        } else if s == "AF_INET6"@ {
            Some(AddressFamily::AF_INET6)
        } else if s == "AF_ROSE"@ {
            Some(AddressFamily::AF_ROSE)
        } else if s == "AF_DECnet"@ {
            Some(AddressFamily::AF_DECnet)
        } else if s == "AF_NETBEUI"@ {
            Some(AddressFamily::AF_NETBEUI)
        } else if s == "AF_SECURITY"@ {
            Some(AddressFamily::AF_SECURITY)
        } else if s == "AF_KEY"@ {
            Some(AddressFamily::AF_KEY)
        } else if s == "AF_NETLINK"@ {
            Some(AddressFamily::AF_NETLINK)
        } else if s == "AF_PACKET"@ {
            Some(AddressFamily::AF_PACKET)
        } else if s == "AF_ASH"@ {
            Some(AddressFamily::AF_ASH)
        } else if s == "AF_ECONET"@ {
            Some(AddressFamily::AF_ECONET)
        } else if s == "AF_ATMSVC"@ {
            Some(AddressFamily::AF_ATMSVC)
        } else if s == "AF_RDS"@ {
            Some(AddressFamily::AF_RDS)
        } else if s == "AF_SNA"@ {
            Some(AddressFamily::AF_SNA)
        } else if s == "AF_IRDA"@ {
            Some(AddressFamily::AF_IRDA)
        } else if s == "AF_PPPOX"@ {
            Some(AddressFamily::AF_PPPOX)
        } else if s == "AF_WANPIPE"@ {
            Some(AddressFamily::AF_WANPIPE)
        } else if s == "AF_LLC"@ {
            Some(AddressFamily::AF_LLC)
        } else if s == "AF_IB"@ {
            Some(AddressFamily::AF_IB)
        } else if s == "AF_MPLS"@ {
            Some(AddressFamily::AF_MPLS)
        } else if s == "AF_CAN"@ {
            Some(AddressFamily::AF_CAN)
        } else if s == "AF_TIPC"@ {
            Some(AddressFamily::AF_TIPC)
        } else if s == "AF_BLUETOOTH"@ {
            Some(AddressFamily::AF_BLUETOOTH)
        } else if s == "AF_IUCV"@ {
            Some(AddressFamily::AF_IUCV)
        } else if s == "AF_RXRPC"@ {
            Some(AddressFamily::AF_RXRPC)
        } else if s == "AF_ISDN"@ {
            Some(AddressFamily::AF_ISDN)
        } else if s == "AF_PHONET"@ {
            Some(AddressFamily::AF_PHONET)
        } else if s == "AF_IEEE802154"@ {
            Some(AddressFamily::AF_IEEE802154)
        } else if s == "AF_CAIF"@ {
            Some(AddressFamily::AF_CAIF)
        } else if s == "AF_ALG"@ {
            Some(AddressFamily::AF_ALG)
        } else if s == "AF_NFC"@ {
            Some(AddressFamily::AF_NFC)
        } else if s == "AF_VSOCK"@ {
            Some(AddressFamily::AF_VSOCK)
        } else {
            None
        }
    }

    fn from_str(s: &str) -> (r: Option<Self>) {
        if same_text(s, "AF_UNSPEC") {
            Some(AddressFamily::AF_UNSPEC)
        } else if same_text(s, "AF_UNIX") {
            Some(AddressFamily::AF_UNIX)
        } else if same_text(s, "AF_INET") {
            Some(AddressFamily::AF_INET)
        } else if same_text(s, "AF_AX25") {
            Some(AddressFamily::AF_AX25)
        } else if same_text(s, "AF_IPX") {
            Some(AddressFamily::AF_IPX)
        } else if same_text(s, "AF_APPLETALK") {
            Some(AddressFamily::AF_APPLETALK)
        } else if same_text(s, "AF_NETROM") {
            Some(AddressFamily::AF_NETROM)
        } else if same_text(s, "AF_BRIDGE") {
            Some(AddressFamily::AF_BRIDGE)
        } else if same_text(s, "AF_ATMPVC") {
            Some(AddressFamily::AF_ATMPVC)
        } else if same_text(s, "AF_X25") {
            Some(AddressFamily::AF_X25)
        } else if same_text(s, "AF_INET6") {
            Some(AddressFamily::AF_INET6)
        } else if same_text(s, "AF_ROSE") {
            Some(AddressFamily::AF_ROSE)
        } else if same_text(s, "AF_DECnet") {
            Some(AddressFamily::AF_DECnet)
        } else if same_text(s, "AF_NETBEUI") {
            Some(AddressFamily::AF_NETBEUI)
        } else if same_text(s, "AF_SECURITY") {
            Some(AddressFamily::AF_SECURITY)
        } else if same_text(s, "AF_KEY") {
            Some(AddressFamily::AF_KEY)
        } else if same_text(s, "AF_NETLINK") {
            Some(AddressFamily::AF_NETLINK)
        } else if same_text(s, "AF_PACKET") {
            Some(AddressFamily::AF_PACKET)
        } else if same_text(s, "AF_ASH") {
            Some(AddressFamily::AF_ASH)
        } else if same_text(s, "AF_ECONET") {
            Some(AddressFamily::AF_ECONET)
        } else if same_text(s, "AF_ATMSVC") {
            Some(AddressFamily::AF_ATMSVC)
        } else if same_text(s, "AF_RDS") {
            Some(AddressFamily::AF_RDS)
        } else if same_text(s, "AF_SNA") {
            Some(AddressFamily::AF_SNA)
        } else if same_text(s, "AF_IRDA") {
            Some(AddressFamily::AF_IRDA)
        } else if same_text(s, "AF_PPPOX") {
            Some(AddressFamily::AF_PPPOX)
        } else if same_text(s, "AF_WANPIPE") {
            Some(AddressFamily::AF_WANPIPE)
        } else if same_text(s, "AF_LLC") {
            Some(AddressFamily::AF_LLC)
        } else if same_text(s, "AF_IB") {
            Some(AddressFamily::AF_IB)
        } else if same_text(s, "AF_MPLS") {
            Some(AddressFamily::AF_MPLS)
        } else if same_text(s, "AF_CAN") {
            Some(AddressFamily::AF_CAN)
        } else if same_text(s, "AF_TIPC") {
            Some(AddressFamily::AF_TIPC)
        } else if same_text(s, "AF_BLUETOOTH") {
            Some(AddressFamily::AF_BLUETOOTH)
        } else if same_text(s, "AF_IUCV") {
            Some(AddressFamily::AF_IUCV)
        } else if same_text(s, "AF_RXRPC") {
            Some(AddressFamily::AF_RXRPC)
        } else if same_text(s, "AF_ISDN") {
            Some(AddressFamily::AF_ISDN)
        } else if same_text(s, "AF_PHONET") {
            Some(AddressFamily::AF_PHONET)
        } else if same_text(s, "AF_IEEE802154") {
            Some(AddressFamily::AF_IEEE802154)
        } else if same_text(s, "AF_CAIF") {
            Some(AddressFamily::AF_CAIF)
        } else if same_text(s, "AF_ALG") {
            Some(AddressFamily::AF_ALG)
        } else if same_text(s, "AF_NFC") {
            Some(AddressFamily::AF_NFC)
        } else if same_text(s, "AF_VSOCK") {
            Some(AddressFamily::AF_VSOCK)
        } else {
            None
        }
    }

    proof fn lemma_name_round_trip(self) {
        reveal_strlit("AF_UNSPEC");
        reveal_strlit("AF_UNIX");
        reveal_strlit("AF_INET");
        reveal_strlit("AF_AX25");
        reveal_strlit("AF_IPX");
        reveal_strlit("AF_APPLETALK");
        reveal_strlit("AF_NETROM");
        reveal_strlit("AF_BRIDGE");
        reveal_strlit("AF_ATMPVC");
        reveal_strlit("AF_X25");
        reveal_strlit("AF_INET6");
        reveal_strlit("AF_ROSE");
        reveal_strlit("AF_DECnet");
        reveal_strlit("AF_NETBEUI");
        reveal_strlit("AF_SECURITY");
        reveal_strlit("AF_KEY");
        reveal_strlit("AF_NETLINK");
        reveal_strlit("AF_PACKET");
        reveal_strlit("AF_ASH");
        reveal_strlit("AF_ECONET");
        reveal_strlit("AF_ATMSVC");
        reveal_strlit("AF_RDS");
        reveal_strlit("AF_SNA");
        reveal_strlit("AF_IRDA");
        reveal_strlit("AF_PPPOX");
        reveal_strlit("AF_WANPIPE");
        reveal_strlit("AF_LLC");
        reveal_strlit("AF_IB");
        reveal_strlit("AF_MPLS");
        reveal_strlit("AF_CAN");
        reveal_strlit("AF_TIPC");
        reveal_strlit("AF_BLUETOOTH");
        reveal_strlit("AF_IUCV");
        reveal_strlit("AF_RXRPC");
        reveal_strlit("AF_ISDN");
        reveal_strlit("AF_PHONET");
        reveal_strlit("AF_IEEE802154");
        reveal_strlit("AF_CAIF");
        reveal_strlit("AF_ALG");
        reveal_strlit("AF_NFC");
        reveal_strlit("AF_VSOCK");
        assert("AF_UNSPEC"@.len() == 9);
        assert("AF_UNIX"@.len() == 7);
        assert("AF_INET"@.len() == 7);
        assert("AF_AX25"@.len() == 7);
        assert("AF_IPX"@.len() == 6);
        assert("AF_APPLETALK"@.len() == 12);
        assert("AF_NETROM"@.len() == 9);
        assert("AF_BRIDGE"@.len() == 9);
        assert("AF_ATMPVC"@.len() == 9);
        assert("AF_X25"@.len() == 6);
        assert("AF_INET6"@.len() == 8);
        assert("AF_ROSE"@.len() == 7);
        assert("AF_DECnet"@.len() == 9);
        assert("AF_NETBEUI"@.len() == 10);
        assert("AF_SECURITY"@.len() == 11);
        assert("AF_KEY"@.len() == 6);
        assert("AF_NETLINK"@.len() == 10);
        assert("AF_PACKET"@.len() == 9);
        assert("AF_ASH"@.len() == 6);
        assert("AF_ECONET"@.len() == 9);
        assert("AF_ATMSVC"@.len() == 9);
        assert("AF_RDS"@.len() == 6);
        assert("AF_SNA"@.len() == 6);
        assert("AF_IRDA"@.len() == 7);
        assert("AF_PPPOX"@.len() == 8);
        assert("AF_WANPIPE"@.len() == 10);
        assert("AF_LLC"@.len() == 6);
        assert("AF_IB"@.len() == 5);
        assert("AF_MPLS"@.len() == 7);
        assert("AF_CAN"@.len() == 6);
        assert("AF_TIPC"@.len() == 7);
        assert("AF_BLUETOOTH"@.len() == 12);
        assert("AF_IUCV"@.len() == 7);
        assert("AF_RXRPC"@.len() == 8);
        assert("AF_ISDN"@.len() == 7);
        assert("AF_PHONET"@.len() == 9);
        assert("AF_IEEE802154"@.len() == 13);
        assert("AF_CAIF"@.len() == 7);
        assert("AF_ALG"@.len() == 6);
        assert("AF_NFC"@.len() == 6);
        assert("AF_VSOCK"@.len() == 8);
        assert("AF_IPX"@[3] == 'I');
        assert("AF_IPX"@[4] == 'P');
        assert("AF_X25"@[3] == 'X');
        assert("AF_X25"@[4] == '2');
        assert("AF_KEY"@[3] == 'K');
        assert("AF_KEY"@[4] == 'E');
        assert("AF_ASH"@[3] == 'A');
        assert("AF_ASH"@[4] == 'S');
        assert("AF_RDS"@[3] == 'R');
        assert("AF_RDS"@[4] == 'D');
        assert("AF_SNA"@[3] == 'S');
        assert("AF_SNA"@[4] == 'N');
        assert("AF_LLC"@[3] == 'L');
        assert("AF_LLC"@[4] == 'L');
        assert("AF_CAN"@[3] == 'C');
        assert("AF_CAN"@[4] == 'A');
        assert("AF_ALG"@[3] == 'A');
        assert("AF_ALG"@[4] == 'L');
        assert("AF_NFC"@[3] == 'N');
        assert("AF_NFC"@[4] == 'F');
        assert("AF_UNIX"@[6] == 'X');
        assert("AF_INET"@[6] == 'T');
        assert("AF_AX25"@[6] == '5');
        assert("AF_ROSE"@[6] == 'E');
        assert("AF_IRDA"@[6] == 'A');
        assert("AF_MPLS"@[6] == 'S');
        assert("AF_TIPC"@[6] == 'C');
        assert("AF_IUCV"@[6] == 'V');
        assert("AF_ISDN"@[6] == 'N');
        assert("AF_CAIF"@[6] == 'F');
        assert("AF_INET6"@[3] == 'I');
        assert("AF_PPPOX"@[3] == 'P');
        assert("AF_RXRPC"@[3] == 'R');
        assert("AF_VSOCK"@[3] == 'V');
        assert("AF_UNSPEC"@[3] == 'U');
        assert("AF_UNSPEC"@[6] == 'P');
        assert("AF_NETROM"@[3] == 'N');
        assert("AF_NETROM"@[6] == 'R');
        assert("AF_BRIDGE"@[3] == 'B');
        assert("AF_BRIDGE"@[6] == 'D');
        assert("AF_ATMPVC"@[3] == 'A');
        assert("AF_ATMPVC"@[6] == 'P');
        assert("AF_DECnet"@[3] == 'D');
        assert("AF_DECnet"@[6] == 'n');
        assert("AF_PACKET"@[3] == 'P');
        assert("AF_PACKET"@[6] == 'K');
        assert("AF_ECONET"@[3] == 'E');
        assert("AF_ECONET"@[6] == 'N');
        assert("AF_ATMSVC"@[3] == 'A');
        assert("AF_ATMSVC"@[6] == 'S');
        assert("AF_PHONET"@[3] == 'P');
        assert("AF_PHONET"@[6] == 'N');
        assert("AF_NETBEUI"@[6] == 'B');
        assert("AF_NETLINK"@[6] == 'L');
        assert("AF_WANPIPE"@[6] == 'P');
        assert("AF_APPLETALK"@[3] == 'A');
        assert("AF_BLUETOOTH"@[3] == 'B');
    }
}

impl Default for AddressFamily {
    /// The constant with the lowest number.
    fn default() -> (r: AddressFamily)
        ensures
            r == AddressFamily::AF_UNSPEC,
    {
        AddressFamily::AF_UNSPEC
    }
}

/// Device flags (`IFF_*`), one bit each.
#[allow(non_camel_case_types)]
#[derive(Clone, Copy, Debug, PartialEq, Eq, Structural)]
pub enum NetDeviceFlags {
    IFF_UP,
    IFF_BROADCAST,
    IFF_DEBUG,
    IFF_LOOPBACK,
    IFF_POINTOPOINT,
    IFF_NOTRAILERS,
    IFF_RUNNING,
    IFF_NOARP,
    IFF_PROMISC,
    IFF_ALLMULTI,
    IFF_MASTER,
    IFF_SLAVE,
    IFF_MULTICAST,
    IFF_PORTSEL,
    IFF_AUTOMEDIA,
    IFF_DYNAMIC,
    IFF_LOWER_UP,
    IFF_DORMANT,
    IFF_ECHO,
}

impl Table for NetDeviceFlags {
    open spec fn spec_value(self) -> u32 {
        match self {
            NetDeviceFlags::IFF_UP => 0x1,
            NetDeviceFlags::IFF_BROADCAST => 0x2,
            NetDeviceFlags::IFF_DEBUG => 0x4,
            NetDeviceFlags::IFF_LOOPBACK => 0x8,
            NetDeviceFlags::IFF_POINTOPOINT => 0x10,
            NetDeviceFlags::IFF_NOTRAILERS => 0x20,
            NetDeviceFlags::IFF_RUNNING => 0x40,
            NetDeviceFlags::IFF_NOARP => 0x80,
            NetDeviceFlags::IFF_PROMISC => 0x100,
            NetDeviceFlags::IFF_ALLMULTI => 0x200,
            NetDeviceFlags::IFF_MASTER => 0x400,
            NetDeviceFlags::IFF_SLAVE => 0x800,
            NetDeviceFlags::IFF_MULTICAST => 0x1000,
            NetDeviceFlags::IFF_PORTSEL => 0x2000,
            NetDeviceFlags::IFF_AUTOMEDIA => 0x4000,
            NetDeviceFlags::IFF_DYNAMIC => 0x8000,
            NetDeviceFlags::IFF_LOWER_UP => 0x10000,
            NetDeviceFlags::IFF_DORMANT => 0x20000,
            NetDeviceFlags::IFF_ECHO => 0x40000,
        }
    }

    open spec fn spec_from_value(v: u32) -> Option<Self> {
        if v == 0x1 {
            Some(NetDeviceFlags::IFF_UP)
        } else if v == 0x2 {
            Some(NetDeviceFlags::IFF_BROADCAST)
        } else if v == 0x4 {
            Some(NetDeviceFlags::IFF_DEBUG)
        } else if v == 0x8 {
            Some(NetDeviceFlags::IFF_LOOPBACK)
        } else if v == 0x10 {
            Some(NetDeviceFlags::IFF_POINTOPOINT)
        } else if v == 0x20 {
            Some(NetDeviceFlags::IFF_NOTRAILERS)
        } else if v == 0x40 {
            Some(NetDeviceFlags::IFF_RUNNING)
        } else if v == 0x80 {
            Some(NetDeviceFlags::IFF_NOARP)
        } else if v == 0x100 {
            Some(NetDeviceFlags::IFF_PROMISC)
        } else if v == 0x200 {
            Some(NetDeviceFlags::IFF_ALLMULTI)
        } else if v == 0x400 {
            Some(NetDeviceFlags::IFF_MASTER)
        } else if v == 0x800 {
            Some(NetDeviceFlags::IFF_SLAVE)
        } else if v == 0x1000 {
            Some(NetDeviceFlags::IFF_MULTICAST)
        } else if v == 0x2000 {
            Some(NetDeviceFlags::IFF_PORTSEL)
        } else if v == 0x4000 {
            Some(NetDeviceFlags::IFF_AUTOMEDIA)
        } else if v == 0x8000 {
            Some(NetDeviceFlags::IFF_DYNAMIC)
        } else if v == 0x10000 {
            Some(NetDeviceFlags::IFF_LOWER_UP)
        } else if v == 0x20000 {
            Some(NetDeviceFlags::IFF_DORMANT)
        } else if v == 0x40000 {
            Some(NetDeviceFlags::IFF_ECHO)
        } else {
            None
        }
    }

    open spec fn spec_name(self) -> Seq<char> {
        match self {
            NetDeviceFlags::IFF_UP => "IFF_UP"@,
            NetDeviceFlags::IFF_BROADCAST => "IFF_BROADCAST"@,
            NetDeviceFlags::IFF_DEBUG => "IFF_DEBUG"@,
            NetDeviceFlags::IFF_LOOPBACK => "IFF_LOOPBACK"@,
            NetDeviceFlags::IFF_POINTOPOINT => "IFF_POINTOPOINT"@,
            NetDeviceFlags::IFF_NOTRAILERS => "IFF_NOTRAILERS"@,
            NetDeviceFlags::IFF_RUNNING => "IFF_RUNNING"@,
            NetDeviceFlags::IFF_NOARP => "IFF_NOARP"@,
            NetDeviceFlags::IFF_PROMISC => "IFF_PROMISC"@,
            NetDeviceFlags::IFF_ALLMULTI => "IFF_ALLMULTI"@,
            NetDeviceFlags::IFF_MASTER => "IFF_MASTER"@,
            NetDeviceFlags::IFF_SLAVE => "IFF_SLAVE"@,
            NetDeviceFlags::IFF_MULTICAST => "IFF_MULTICAST"@,
            NetDeviceFlags::IFF_PORTSEL => "IFF_PORTSEL"@,
            NetDeviceFlags::IFF_AUTOMEDIA => "IFF_AUTOMEDIA"@,
            NetDeviceFlags::IFF_DYNAMIC => "IFF_DYNAMIC"@,
            NetDeviceFlags::IFF_LOWER_UP => "IFF_LOWER_UP"@,
            NetDeviceFlags::IFF_DORMANT => "IFF_DORMANT"@,
            NetDeviceFlags::IFF_ECHO => "IFF_ECHO"@,
        }
    }

    fn value(self) -> (r: u32) {
        match self {
            NetDeviceFlags::IFF_UP => 0x1,
            NetDeviceFlags::IFF_BROADCAST => 0x2,
            NetDeviceFlags::IFF_DEBUG => 0x4,
            NetDeviceFlags::IFF_LOOPBACK => 0x8,
            NetDeviceFlags::IFF_POINTOPOINT => 0x10,
            NetDeviceFlags::IFF_NOTRAILERS => 0x20,
            NetDeviceFlags::IFF_RUNNING => 0x40,
            NetDeviceFlags::IFF_NOARP => 0x80,
            NetDeviceFlags::IFF_PROMISC => 0x100,
            NetDeviceFlags::IFF_ALLMULTI => 0x200,
            NetDeviceFlags::IFF_MASTER => 0x400,
            NetDeviceFlags::IFF_SLAVE => 0x800,
            NetDeviceFlags::IFF_MULTICAST => 0x1000,
            NetDeviceFlags::IFF_PORTSEL => 0x2000,
            NetDeviceFlags::IFF_AUTOMEDIA => 0x4000,
            NetDeviceFlags::IFF_DYNAMIC => 0x8000,
            NetDeviceFlags::IFF_LOWER_UP => 0x10000,
            NetDeviceFlags::IFF_DORMANT => 0x20000,
            NetDeviceFlags::IFF_ECHO => 0x40000,
        }
    }

    fn from_value(v: u32) -> (r: Option<Self>) {
        match v {
            0x1 => Some(NetDeviceFlags::IFF_UP),
            0x2 => Some(NetDeviceFlags::IFF_BROADCAST),
            0x4 => Some(NetDeviceFlags::IFF_DEBUG),
            0x8 => Some(NetDeviceFlags::IFF_LOOPBACK),
            0x10 => Some(NetDeviceFlags::IFF_POINTOPOINT),
            0x20 => Some(NetDeviceFlags::IFF_NOTRAILERS),
            0x40 => Some(NetDeviceFlags::IFF_RUNNING),
            0x80 => Some(NetDeviceFlags::IFF_NOARP),
            0x100 => Some(NetDeviceFlags::IFF_PROMISC),
            0x200 => Some(NetDeviceFlags::IFF_ALLMULTI),
            0x400 => Some(NetDeviceFlags::IFF_MASTER),
            0x800 => Some(NetDeviceFlags::IFF_SLAVE),
            0x1000 => Some(NetDeviceFlags::IFF_MULTICAST),
            0x2000 => Some(NetDeviceFlags::IFF_PORTSEL),
            0x4000 => Some(NetDeviceFlags::IFF_AUTOMEDIA),
            0x8000 => Some(NetDeviceFlags::IFF_DYNAMIC),
            0x10000 => Some(NetDeviceFlags::IFF_LOWER_UP),
            0x20000 => Some(NetDeviceFlags::IFF_DORMANT),
            0x40000 => Some(NetDeviceFlags::IFF_ECHO),
            _ => None,
        }
    }

    fn name(self) -> (r: &'static str) {
        match self {
            NetDeviceFlags::IFF_UP => "IFF_UP",
            NetDeviceFlags::IFF_BROADCAST => "IFF_BROADCAST",
            NetDeviceFlags::IFF_DEBUG => "IFF_DEBUG",
            NetDeviceFlags::IFF_LOOPBACK => "IFF_LOOPBACK",
            NetDeviceFlags::IFF_POINTOPOINT => "IFF_POINTOPOINT",
            NetDeviceFlags::IFF_NOTRAILERS => "IFF_NOTRAILERS",
            NetDeviceFlags::IFF_RUNNING => "IFF_RUNNING",
            NetDeviceFlags::IFF_NOARP => "IFF_NOARP",
            NetDeviceFlags::IFF_PROMISC => "IFF_PROMISC",
            NetDeviceFlags::IFF_ALLMULTI => "IFF_ALLMULTI",
            NetDeviceFlags::IFF_MASTER => "IFF_MASTER",
            NetDeviceFlags::IFF_SLAVE => "IFF_SLAVE",
            NetDeviceFlags::IFF_MULTICAST => "IFF_MULTICAST",
            NetDeviceFlags::IFF_PORTSEL => "IFF_PORTSEL",
            NetDeviceFlags::IFF_AUTOMEDIA => "IFF_AUTOMEDIA",
            NetDeviceFlags::IFF_DYNAMIC => "IFF_DYNAMIC",
            NetDeviceFlags::IFF_LOWER_UP => "IFF_LOWER_UP",
            NetDeviceFlags::IFF_DORMANT => "IFF_DORMANT",
            NetDeviceFlags::IFF_ECHO => "IFF_ECHO",
        }
    }

    proof fn lemma_value_round_trip(self) {
    }

    proof fn lemma_from_value_exact(v: u32) {
    }

    open spec fn spec_from_str(s: Seq<char>) -> Option<Self> {
        if s == "IFF_UP"@ {
            Some(NetDeviceFlags::IFF_UP)
        } else if s == "IFF_BROADCAST"@ {
            Some(NetDeviceFlags::IFF_BROADCAST)
        } else if s == "IFF_DEBUG"@ {
            Some(NetDeviceFlags::IFF_DEBUG)
        } else if s == "IFF_LOOPBACK"@ {
            Some(NetDeviceFlags::IFF_LOOPBACK)
        } else if s == "IFF_POINTOPOINT"@ {
            Some(NetDeviceFlags::IFF_POINTOPOINT)
        } else if s == "IFF_NOTRAILERS"@ {
            Some(NetDeviceFlags::IFF_NOTRAILERS)
        } else if s == "IFF_RUNNING"@ {
            Some(NetDeviceFlags::IFF_RUNNING)
        } else if s == "IFF_NOARP"@ {
            Some(NetDeviceFlags::IFF_NOARP)
        } else if s == "IFF_PROMISC"@ {
            Some(NetDeviceFlags::IFF_PROMISC)
        } else if s == "IFF_ALLMULTI"@ {
            Some(NetDeviceFlags::IFF_ALLMULTI)
        } else if s == "IFF_MASTER"@ {
            Some(NetDeviceFlags::IFF_MASTER)
        } else if s == "IFF_SLAVE"@ {
            Some(NetDeviceFlags::IFF_SLAVE)
        } else if s == "IFF_MULTICAST"@ {
            Some(NetDeviceFlags::IFF_MULTICAST)
        } else if s == "IFF_PORTSEL"@ {
            Some(NetDeviceFlags::IFF_PORTSEL)
        } else if s == "IFF_AUTOMEDIA"@ {
            Some(NetDeviceFlags::IFF_AUTOMEDIA)
        } else if s == "IFF_DYNAMIC"@ {
            Some(NetDeviceFlags::IFF_DYNAMIC)
        } else if s == "IFF_LOWER_UP"@ {
            Some(NetDeviceFlags::IFF_LOWER_UP)
        } else if s == "IFF_DORMANT"@ {
            Some(NetDeviceFlags::IFF_DORMANT)
        } else if s == "IFF_ECHO"@ {
            Some(NetDeviceFlags::IFF_ECHO)
        } else {
            None
        }
    }

    fn from_str(s: &str) -> (r: Option<Self>) {
        if same_text(s, "IFF_UP") {
            Some(NetDeviceFlags::IFF_UP)
        } else if same_text(s, "IFF_BROADCAST") {
            Some(NetDeviceFlags::IFF_BROADCAST)
        } else if same_text(s, "IFF_DEBUG") {
            Some(NetDeviceFlags::IFF_DEBUG)
        } else if same_text(s, "IFF_LOOPBACK") {
            Some(NetDeviceFlags::IFF_LOOPBACK)
        } else if same_text(s, "IFF_POINTOPOINT") {
            Some(NetDeviceFlags::IFF_POINTOPOINT)
        } else if same_text(s, "IFF_NOTRAILERS") {
            Some(NetDeviceFlags::IFF_NOTRAILERS)
        } else if same_text(s, "IFF_RUNNING") {
            Some(NetDeviceFlags::IFF_RUNNING)
        } else if same_text(s, "IFF_NOARP") {
            Some(NetDeviceFlags::IFF_NOARP)
        } else if same_text(s, "IFF_PROMISC") {
            Some(NetDeviceFlags::IFF_PROMISC)
        } else if same_text(s, "IFF_ALLMULTI") {
            Some(NetDeviceFlags::IFF_ALLMULTI)
        } else if same_text(s, "IFF_MASTER") {
            Some(NetDeviceFlags::IFF_MASTER)
        } else if same_text(s, "IFF_SLAVE") {
            Some(NetDeviceFlags::IFF_SLAVE)
        } else if same_text(s, "IFF_MULTICAST") {
            Some(NetDeviceFlags::IFF_MULTICAST)
        } else if same_text(s, "IFF_PORTSEL") {
            Some(NetDeviceFlags::IFF_PORTSEL)
        } else if same_text(s, "IFF_AUTOMEDIA") {
            Some(NetDeviceFlags::IFF_AUTOMEDIA)
        } else if same_text(s, "IFF_DYNAMIC") {
            Some(NetDeviceFlags::IFF_DYNAMIC)
        } else if same_text(s, "IFF_LOWER_UP") {
            Some(NetDeviceFlags::IFF_LOWER_UP)
        } else if same_text(s, "IFF_DORMANT") {
            Some(NetDeviceFlags::IFF_DORMANT)
        } else if same_text(s, "IFF_ECHO") {
            Some(NetDeviceFlags::IFF_ECHO)
        } else {
            None
        }
    }

    proof fn lemma_name_round_trip(self) {
        reveal_strlit("IFF_UP");
        reveal_strlit("IFF_BROADCAST");
        reveal_strlit("IFF_DEBUG");
        reveal_strlit("IFF_LOOPBACK");
        reveal_strlit("IFF_POINTOPOINT");
        reveal_strlit("IFF_NOTRAILERS");
        reveal_strlit("IFF_RUNNING");
        reveal_strlit("IFF_NOARP");
        reveal_strlit("IFF_PROMISC");
        reveal_strlit("IFF_ALLMULTI");
        reveal_strlit("IFF_MASTER");
        reveal_strlit("IFF_SLAVE");
        reveal_strlit("IFF_MULTICAST");
        reveal_strlit("IFF_PORTSEL");
        reveal_strlit("IFF_AUTOMEDIA");
        reveal_strlit("IFF_DYNAMIC");
        reveal_strlit("IFF_LOWER_UP");
        reveal_strlit("IFF_DORMANT");
        reveal_strlit("IFF_ECHO");
        assert("IFF_UP"@.len() == 6);
        assert("IFF_BROADCAST"@.len() == 13);
        assert("IFF_DEBUG"@.len() == 9);
        assert("IFF_LOOPBACK"@.len() == 12);
        assert("IFF_POINTOPOINT"@.len() == 15);
        assert("IFF_NOTRAILERS"@.len() == 14);
        assert("IFF_RUNNING"@.len() == 11);
        assert("IFF_NOARP"@.len() == 9);
        assert("IFF_PROMISC"@.len() == 11);
        assert("IFF_ALLMULTI"@.len() == 12);
        assert("IFF_MASTER"@.len() == 10);
        assert("IFF_SLAVE"@.len() == 9);
        assert("IFF_MULTICAST"@.len() == 13);
        assert("IFF_PORTSEL"@.len() == 11);
        assert("IFF_AUTOMEDIA"@.len() == 13);
        assert("IFF_DYNAMIC"@.len() == 11);
        assert("IFF_LOWER_UP"@.len() == 12);
        assert("IFF_DORMANT"@.len() == 11);
        assert("IFF_ECHO"@.len() == 8);
        assert("IFF_DEBUG"@[4] == 'D');
        assert("IFF_NOARP"@[4] == 'N');
        assert("IFF_SLAVE"@[4] == 'S');
        assert("IFF_RUNNING"@[4] == 'R');
        assert("IFF_RUNNING"@[5] == 'U');
        assert("IFF_PROMISC"@[4] == 'P');
        assert("IFF_PROMISC"@[5] == 'R');
        assert("IFF_PORTSEL"@[4] == 'P');
        assert("IFF_PORTSEL"@[5] == 'O');
        assert("IFF_DYNAMIC"@[4] == 'D');
        assert("IFF_DYNAMIC"@[5] == 'Y');
        assert("IFF_DORMANT"@[4] == 'D');
        assert("IFF_DORMANT"@[5] == 'O');
        assert("IFF_LOOPBACK"@[6] == 'O');
        assert("IFF_ALLMULTI"@[6] == 'L');
        assert("IFF_LOWER_UP"@[6] == 'W');
        assert("IFF_BROADCAST"@[4] == 'B');
        assert("IFF_MULTICAST"@[4] == 'M');
        assert("IFF_AUTOMEDIA"@[4] == 'A');
    }
}

impl Default for NetDeviceFlags {
    /// The constant with the lowest number.
    fn default() -> (r: NetDeviceFlags)
        ensures
            r == NetDeviceFlags::IFF_UP,
    {
        NetDeviceFlags::IFF_UP
    }
}

impl FlagTable for NetDeviceFlags {
    open spec fn spec_max_value() -> u32 {
        0x40000
    }

    fn max_value() -> (r: u32) {
        0x40000
    }
}

/// Kinds of link attribute (`IFLA_*`).
#[allow(non_camel_case_types)]
#[derive(Clone, Copy, Debug, PartialEq, Eq, Structural)]
pub enum Ifla {
    IFLA_UNSPEC,
    IFLA_ADDRESS,
    IFLA_BROADCAST,
    IFLA_IFNAME,
    IFLA_MTU,
    IFLA_LINK,
    IFLA_QDISC,
    IFLA_STATS,
    IFLA_COST,
    IFLA_PRIORITY,
    IFLA_MASTER,
    IFLA_WIRELESS,
    IFLA_PROTINFO,
    IFLA_TXQLEN,
    IFLA_MAP,
    IFLA_WEIGHT,
    IFLA_OPERSTATE,
    IFLA_LINKMODE,
    IFLA_LINKINFO,
    IFLA_NET_NS_PID,
    IFLA_IFALIAS,
    IFLA_NUM_VF,
    IFLA_VFINFO_LIST,
    IFLA_STATS64,
    IFLA_VF_PORTS,
    IFLA_PORT_SELF,
    IFLA_AF_SPEC,
    IFLA_GROUP,
    IFLA_NET_NS_FD,
    IFLA_EXT_MASK,
    IFLA_PROMISCUITY,
    IFLA_NUM_TX_QUEUES,
    IFLA_NUM_RX_QUEUES,
    IFLA_CARRIER,
    IFLA_PHYS_PORT_ID,
    IFLA_CARRIER_CHANGES,
    IFLA_PHYS_SWITCH_ID,
    IFLA_LINK_NETNSID,
    IFLA_PHYS_PORT_NAME,
    IFLA_PROTO_DOWN,
}

impl Table for Ifla {
    open spec fn spec_value(self) -> u32 {
        match self {
            Ifla::IFLA_UNSPEC => 0,
            Ifla::IFLA_ADDRESS => 1,
            Ifla::IFLA_BROADCAST => 2,
            Ifla::IFLA_IFNAME => 3,
            Ifla::IFLA_MTU => 4,
            Ifla::IFLA_LINK => 5,
            Ifla::IFLA_QDISC => 6,
            Ifla::IFLA_STATS => 7,
            Ifla::IFLA_COST => 8,
            Ifla::IFLA_PRIORITY => 9,
            Ifla::IFLA_MASTER => 10,
            Ifla::IFLA_WIRELESS => 11,
            Ifla::IFLA_PROTINFO => 12,
            Ifla::IFLA_TXQLEN => 13,
            Ifla::IFLA_MAP => 14,
            Ifla::IFLA_WEIGHT => 15,
            Ifla::IFLA_OPERSTATE => 16,
            Ifla::IFLA_LINKMODE => 17,
            Ifla::IFLA_LINKINFO => 18,
            Ifla::IFLA_NET_NS_PID => 19,
            Ifla::IFLA_IFALIAS => 20,
            Ifla::IFLA_NUM_VF => 21,
            Ifla::IFLA_VFINFO_LIST => 22,
            Ifla::IFLA_STATS64 => 23,
            Ifla::IFLA_VF_PORTS => 24,
            Ifla::IFLA_PORT_SELF => 25,
            Ifla::IFLA_AF_SPEC => 26,
            Ifla::IFLA_GROUP => 27,
            Ifla::IFLA_NET_NS_FD => 28,
            Ifla::IFLA_EXT_MASK => 29,
            Ifla::IFLA_PROMISCUITY => 30,
            Ifla::IFLA_NUM_TX_QUEUES => 31,
            Ifla::IFLA_NUM_RX_QUEUES => 32,
            Ifla::IFLA_CARRIER => 33,
            Ifla::IFLA_PHYS_PORT_ID => 34,
            Ifla::IFLA_CARRIER_CHANGES => 35,
            Ifla::IFLA_PHYS_SWITCH_ID => 36,
            Ifla::IFLA_LINK_NETNSID => 37,
            Ifla::IFLA_PHYS_PORT_NAME => 38,
            Ifla::IFLA_PROTO_DOWN => 39,
        }
    }

    open spec fn spec_from_value(v: u32) -> Option<Self> {
        if v == 0 {
            Some(Ifla::IFLA_UNSPEC)
        } else if v == 1 {
            Some(Ifla::IFLA_ADDRESS)
        } else if v == 2 {
            Some(Ifla::IFLA_BROADCAST)
        } else if v == 3 {
            Some(Ifla::IFLA_IFNAME)
        } else if v == 4 {
            Some(Ifla::IFLA_MTU)
        } else if v == 5 {
            Some(Ifla::IFLA_LINK)
        } else if v == 6 {
            Some(Ifla::IFLA_QDISC)
        } else if v == 7 {
            Some(Ifla::IFLA_STATS)
        } else if v == 8 {
            Some(Ifla::IFLA_COST)
        } else if v == 9 {
            Some(Ifla::IFLA_PRIORITY)
        } else if v == 10 {
            Some(Ifla::IFLA_MASTER)
        } else if v == 11 {
            Some(Ifla::IFLA_WIRELESS)
        } else if v == 12 {
            Some(Ifla::IFLA_PROTINFO)
        } else if v == 13 {
            Some(Ifla::IFLA_TXQLEN)
        } else if v == 14 {
            Some(Ifla::IFLA_MAP)
        } else if v == 15 {
            Some(Ifla::IFLA_WEIGHT)
        } else if v == 16 {
            Some(Ifla::IFLA_OPERSTATE)
        } else if v == 17 {
            Some(Ifla::IFLA_LINKMODE)
        } else if v == 18 {
            Some(Ifla::IFLA_LINKINFO)
        } else if v == 19 {
            Some(Ifla::IFLA_NET_NS_PID)
        } else if v == 20 {
            Some(Ifla::IFLA_IFALIAS)
        } else if v == 21 {
            Some(Ifla::IFLA_NUM_VF)
        } else if v == 22 {
            Some(Ifla::IFLA_VFINFO_LIST)
        } else if v == 23 {
            Some(Ifla::IFLA_STATS64)
        } else if v == 24 {
            Some(Ifla::IFLA_VF_PORTS)
        } else if v == 25 {
            Some(Ifla::IFLA_PORT_SELF)
        } else if v == 26 {
            Some(Ifla::IFLA_AF_SPEC)
        } else if v == 27 {
            Some(Ifla::IFLA_GROUP)
        } else if v == 28 {
            Some(Ifla::IFLA_NET_NS_FD)
        } else if v == 29 {
            Some(Ifla::IFLA_EXT_MASK)
        } else if v == 30 {
            Some(Ifla::IFLA_PROMISCUITY)
        } else if v == 31 {
            Some(Ifla::IFLA_NUM_TX_QUEUES)
        } else if v == 32 {
            Some(Ifla::IFLA_NUM_RX_QUEUES)
        } else if v == 33 {
            Some(Ifla::IFLA_CARRIER)
        } else if v == 34 {
            Some(Ifla::IFLA_PHYS_PORT_ID)
        } else if v == 35 {
            Some(Ifla::IFLA_CARRIER_CHANGES)
        } else if v == 36 {
            Some(Ifla::IFLA_PHYS_SWITCH_ID)
        } else if v == 37 {
            Some(Ifla::IFLA_LINK_NETNSID)
        } else if v == 38 {
            Some(Ifla::IFLA_PHYS_PORT_NAME)
        } else if v == 39 {
            Some(Ifla::IFLA_PROTO_DOWN)
        } else {
            None
        }
    }

    open spec fn spec_name(self) -> Seq<char> {
        match self {
            Ifla::IFLA_UNSPEC => "IFLA_UNSPEC"@,
            Ifla::IFLA_ADDRESS => "IFLA_ADDRESS"@,
            Ifla::IFLA_BROADCAST => "IFLA_BROADCAST"@,
            Ifla::IFLA_IFNAME => "IFLA_IFNAME"@,
            Ifla::IFLA_MTU => "IFLA_MTU"@,
            Ifla::IFLA_LINK => "IFLA_LINK"@,
            Ifla::IFLA_QDISC => "IFLA_QDISC"@,
            Ifla::IFLA_STATS => "IFLA_STATS"@,
            Ifla::IFLA_COST => "IFLA_COST"@,
            Ifla::IFLA_PRIORITY => "IFLA_PRIORITY"@,
            Ifla::IFLA_MASTER => "IFLA_MASTER"@,
            Ifla::IFLA_WIRELESS => "IFLA_WIRELESS"@,
            Ifla::IFLA_PROTINFO => "IFLA_PROTINFO"@,
            Ifla::IFLA_TXQLEN => "IFLA_TXQLEN"@,
            Ifla::IFLA_MAP => "IFLA_MAP"@,
            Ifla::IFLA_WEIGHT => "IFLA_WEIGHT"@,
            Ifla::IFLA_OPERSTATE => "IFLA_OPERSTATE"@,
            Ifla::IFLA_LINKMODE => "IFLA_LINKMODE"@,
            Ifla::IFLA_LINKINFO => "IFLA_LINKINFO"@,
            Ifla::IFLA_NET_NS_PID => "IFLA_NET_NS_PID"@,
            Ifla::IFLA_IFALIAS => "IFLA_IFALIAS"@,
            Ifla::IFLA_NUM_VF => "IFLA_NUM_VF"@,
            Ifla::IFLA_VFINFO_LIST => "IFLA_VFINFO_LIST"@,
            Ifla::IFLA_STATS64 => "IFLA_STATS64"@,
            Ifla::IFLA_VF_PORTS => "IFLA_VF_PORTS"@,
            Ifla::IFLA_PORT_SELF => "IFLA_PORT_SELF"@,
            Ifla::IFLA_AF_SPEC => "IFLA_AF_SPEC"@,
            Ifla::IFLA_GROUP => "IFLA_GROUP"@,
            Ifla::IFLA_NET_NS_FD => "IFLA_NET_NS_FD"@,
            Ifla::IFLA_EXT_MASK => "IFLA_EXT_MASK"@,
            Ifla::IFLA_PROMISCUITY => "IFLA_PROMISCUITY"@,
            Ifla::IFLA_NUM_TX_QUEUES => "IFLA_NUM_TX_QUEUES"@,
            Ifla::IFLA_NUM_RX_QUEUES => "IFLA_NUM_RX_QUEUES"@,
            Ifla::IFLA_CARRIER => "IFLA_CARRIER"@,
            Ifla::IFLA_PHYS_PORT_ID => "IFLA_PHYS_PORT_ID"@,
            Ifla::IFLA_CARRIER_CHANGES => "IFLA_CARRIER_CHANGES"@,
            Ifla::IFLA_PHYS_SWITCH_ID => "IFLA_PHYS_SWITCH_ID"@,
            Ifla::IFLA_LINK_NETNSID => "IFLA_LINK_NETNSID"@,
            Ifla::IFLA_PHYS_PORT_NAME => "IFLA_PHYS_PORT_NAME"@,
            Ifla::IFLA_PROTO_DOWN => "IFLA_PROTO_DOWN"@,
        }
    }

    fn value(self) -> (r: u32) {
        match self {
            Ifla::IFLA_UNSPEC => 0,
            Ifla::IFLA_ADDRESS => 1,
            Ifla::IFLA_BROADCAST => 2,
            Ifla::IFLA_IFNAME => 3,
            Ifla::IFLA_MTU => 4,
            Ifla::IFLA_LINK => 5,
            Ifla::IFLA_QDISC => 6,
            Ifla::IFLA_STATS => 7,
            Ifla::IFLA_COST => 8,
            Ifla::IFLA_PRIORITY => 9,
            Ifla::IFLA_MASTER => 10,
            Ifla::IFLA_WIRELESS => 11,
            Ifla::IFLA_PROTINFO => 12,
            Ifla::IFLA_TXQLEN => 13,
            Ifla::IFLA_MAP => 14,
            Ifla::IFLA_WEIGHT => 15,
            Ifla::IFLA_OPERSTATE => 16,
            Ifla::IFLA_LINKMODE => 17,
            Ifla::IFLA_LINKINFO => 18,
            Ifla::IFLA_NET_NS_PID => 19,
            Ifla::IFLA_IFALIAS => 20,
            Ifla::IFLA_NUM_VF => 21,
            Ifla::IFLA_VFINFO_LIST => 22,
            Ifla::IFLA_STATS64 => 23,
            Ifla::IFLA_VF_PORTS => 24,
            Ifla::IFLA_PORT_SELF => 25,
            Ifla::IFLA_AF_SPEC => 26,
            Ifla::IFLA_GROUP => 27,
            Ifla::IFLA_NET_NS_FD => 28,
            Ifla::IFLA_EXT_MASK => 29,
            Ifla::IFLA_PROMISCUITY => 30,
            Ifla::IFLA_NUM_TX_QUEUES => 31,
            Ifla::IFLA_NUM_RX_QUEUES => 32,
            Ifla::IFLA_CARRIER => 33,
            Ifla::IFLA_PHYS_PORT_ID => 34,
            Ifla::IFLA_CARRIER_CHANGES => 35,
            Ifla::IFLA_PHYS_SWITCH_ID => 36,
            Ifla::IFLA_LINK_NETNSID => 37,
            Ifla::IFLA_PHYS_PORT_NAME => 38,
            Ifla::IFLA_PROTO_DOWN => 39,
        }
    }

    fn from_value(v: u32) -> (r: Option<Self>) {
        match v {
            0 => Some(Ifla::IFLA_UNSPEC),
            1 => Some(Ifla::IFLA_ADDRESS),
            2 => Some(Ifla::IFLA_BROADCAST),
            3 => Some(Ifla::IFLA_IFNAME),
            4 => Some(Ifla::IFLA_MTU),
            5 => Some(Ifla::IFLA_LINK),
            6 => Some(Ifla::IFLA_QDISC),
            7 => Some(Ifla::IFLA_STATS),
            8 => Some(Ifla::IFLA_COST),
            9 => Some(Ifla::IFLA_PRIORITY),
            10 => Some(Ifla::IFLA_MASTER),
            11 => Some(Ifla::IFLA_WIRELESS),
            12 => Some(Ifla::IFLA_PROTINFO),
            13 => Some(Ifla::IFLA_TXQLEN),
            14 => Some(Ifla::IFLA_MAP),
            15 => Some(Ifla::IFLA_WEIGHT),
            16 => Some(Ifla::IFLA_OPERSTATE),
            17 => Some(Ifla::IFLA_LINKMODE),
            18 => Some(Ifla::IFLA_LINKINFO),
            19 => Some(Ifla::IFLA_NET_NS_PID),
            20 => Some(Ifla::IFLA_IFALIAS),
            21 => Some(Ifla::IFLA_NUM_VF),
            22 => Some(Ifla::IFLA_VFINFO_LIST),
            23 => Some(Ifla::IFLA_STATS64),
            24 => Some(Ifla::IFLA_VF_PORTS),
            25 => Some(Ifla::IFLA_PORT_SELF),
            26 => Some(Ifla::IFLA_AF_SPEC),
            27 => Some(Ifla::IFLA_GROUP),
            28 => Some(Ifla::IFLA_NET_NS_FD),
            29 => Some(Ifla::IFLA_EXT_MASK),
            30 => Some(Ifla::IFLA_PROMISCUITY),
            31 => Some(Ifla::IFLA_NUM_TX_QUEUES),
            32 => Some(Ifla::IFLA_NUM_RX_QUEUES),
            33 => Some(Ifla::IFLA_CARRIER),
            34 => Some(Ifla::IFLA_PHYS_PORT_ID),
            35 => Some(Ifla::IFLA_CARRIER_CHANGES),
            36 => Some(Ifla::IFLA_PHYS_SWITCH_ID),
            37 => Some(Ifla::IFLA_LINK_NETNSID),
            38 => Some(Ifla::IFLA_PHYS_PORT_NAME),
            39 => Some(Ifla::IFLA_PROTO_DOWN),
            _ => None,
        }
    }

    fn name(self) -> (r: &'static str) {
        match self {
            Ifla::IFLA_UNSPEC => "IFLA_UNSPEC",
            Ifla::IFLA_ADDRESS => "IFLA_ADDRESS",
            Ifla::IFLA_BROADCAST => "IFLA_BROADCAST",
            Ifla::IFLA_IFNAME => "IFLA_IFNAME",
            Ifla::IFLA_MTU => "IFLA_MTU",
            Ifla::IFLA_LINK => "IFLA_LINK",
            Ifla::IFLA_QDISC => "IFLA_QDISC",
            Ifla::IFLA_STATS => "IFLA_STATS",
            Ifla::IFLA_COST => "IFLA_COST",
            Ifla::IFLA_PRIORITY => "IFLA_PRIORITY",
            Ifla::IFLA_MASTER => "IFLA_MASTER",
            Ifla::IFLA_WIRELESS => "IFLA_WIRELESS",
            Ifla::IFLA_PROTINFO => "IFLA_PROTINFO",
            Ifla::IFLA_TXQLEN => "IFLA_TXQLEN",
            Ifla::IFLA_MAP => "IFLA_MAP",
            Ifla::IFLA_WEIGHT => "IFLA_WEIGHT",
            Ifla::IFLA_OPERSTATE => "IFLA_OPERSTATE",
            Ifla::IFLA_LINKMODE => "IFLA_LINKMODE",
            Ifla::IFLA_LINKINFO => "IFLA_LINKINFO",
            Ifla::IFLA_NET_NS_PID => "IFLA_NET_NS_PID",
            Ifla::IFLA_IFALIAS => "IFLA_IFALIAS",
            Ifla::IFLA_NUM_VF => "IFLA_NUM_VF",
            Ifla::IFLA_VFINFO_LIST => "IFLA_VFINFO_LIST",
            Ifla::IFLA_STATS64 => "IFLA_STATS64",
            Ifla::IFLA_VF_PORTS => "IFLA_VF_PORTS",
            Ifla::IFLA_PORT_SELF => "IFLA_PORT_SELF",
            Ifla::IFLA_AF_SPEC => "IFLA_AF_SPEC",
            Ifla::IFLA_GROUP => "IFLA_GROUP",
            Ifla::IFLA_NET_NS_FD => "IFLA_NET_NS_FD",
            Ifla::IFLA_EXT_MASK => "IFLA_EXT_MASK",
            Ifla::IFLA_PROMISCUITY => "IFLA_PROMISCUITY",
            Ifla::IFLA_NUM_TX_QUEUES => "IFLA_NUM_TX_QUEUES",
            Ifla::IFLA_NUM_RX_QUEUES => "IFLA_NUM_RX_QUEUES",
            Ifla::IFLA_CARRIER => "IFLA_CARRIER",
            Ifla::IFLA_PHYS_PORT_ID => "IFLA_PHYS_PORT_ID",
            Ifla::IFLA_CARRIER_CHANGES => "IFLA_CARRIER_CHANGES",
            Ifla::IFLA_PHYS_SWITCH_ID => "IFLA_PHYS_SWITCH_ID",
            Ifla::IFLA_LINK_NETNSID => "IFLA_LINK_NETNSID",
            Ifla::IFLA_PHYS_PORT_NAME => "IFLA_PHYS_PORT_NAME",
            Ifla::IFLA_PROTO_DOWN => "IFLA_PROTO_DOWN",
        }
    }

    proof fn lemma_value_round_trip(self) {
    }

    proof fn lemma_from_value_exact(v: u32) {
    }

    open spec fn spec_from_str(s: Seq<char>) -> Option<Self> {
        if s == "IFLA_UNSPEC"@ {
            Some(Ifla::IFLA_UNSPEC)
        } else if s == "IFLA_ADDRESS"@ {
            Some(Ifla::IFLA_ADDRESS)
        } else if s == "IFLA_BROADCAST"@ {
            Some(Ifla::IFLA_BROADCAST)
        } else if s == "IFLA_IFNAME"@ {
            Some(Ifla::IFLA_IFNAME)
        } else if s == "IFLA_MTU"@ {
            Some(Ifla::IFLA_MTU)
        } else if s == "IFLA_LINK"@ {
            Some(Ifla::IFLA_LINK)
        } else if s == "IFLA_QDISC"@ {
            Some(Ifla::IFLA_QDISC)
        } else if s == "IFLA_STATS"@ {
            Some(Ifla::IFLA_STATS)
        } else if s == "IFLA_COST"@ {
            Some(Ifla::IFLA_COST)
        } else if s == "IFLA_PRIORITY"@ {
            Some(Ifla::IFLA_PRIORITY)
        } else if s == "IFLA_MASTER"@ {
            Some(Ifla::IFLA_MASTER)
        } else if s == "IFLA_WIRELESS"@ {
            Some(Ifla::IFLA_WIRELESS)
        } else if s == "IFLA_PROTINFO"@ {
            Some(Ifla::IFLA_PROTINFO)
        } else if s == "IFLA_TXQLEN"@ {
            Some(Ifla::IFLA_TXQLEN)
        } else if s == "IFLA_MAP"@ {
            Some(Ifla::IFLA_MAP)
        } else if s == "IFLA_WEIGHT"@ {
            Some(Ifla::IFLA_WEIGHT)
        } else if s == "IFLA_OPERSTATE"@ {
            Some(Ifla::IFLA_OPERSTATE)
        } else if s == "IFLA_LINKMODE"@ {
            Some(Ifla::IFLA_LINKMODE)
        } else if s == "IFLA_LINKINFO"@ {
            Some(Ifla::IFLA_LINKINFO)
        } else if s == "IFLA_NET_NS_PID"@ {
            Some(Ifla::IFLA_NET_NS_PID)
        } else if s == "IFLA_IFALIAS"@ {
            Some(Ifla::IFLA_IFALIAS)
        } else if s == "IFLA_NUM_VF"@ {
            Some(Ifla::IFLA_NUM_VF)
        } else if s == "IFLA_VFINFO_LIST"@ {
            Some(Ifla::IFLA_VFINFO_LIST)
        } else if s == "IFLA_STATS64"@ {
            Some(Ifla::IFLA_STATS64)
        } else if s == "IFLA_VF_PORTS"@ {
            Some(Ifla::IFLA_VF_PORTS)
        } else if s == "IFLA_PORT_SELF"@ {
            Some(Ifla::IFLA_PORT_SELF)
        } else if s == "IFLA_AF_SPEC"@ {
            Some(Ifla::IFLA_AF_SPEC)
        } else if s == "IFLA_GROUP"@ {
            Some(Ifla::IFLA_GROUP)
        } else if s == "IFLA_NET_NS_FD"@ {
            Some(Ifla::IFLA_NET_NS_FD)
        } else if s == "IFLA_EXT_MASK"@ {
            Some(Ifla::IFLA_EXT_MASK)
        } else if s == "IFLA_PROMISCUITY"@ {
            Some(Ifla::IFLA_PROMISCUITY)
        } else if s == "IFLA_NUM_TX_QUEUES"@ {
            Some(Ifla::IFLA_NUM_TX_QUEUES)
        } else if s == "IFLA_NUM_RX_QUEUES"@ {
            Some(Ifla::IFLA_NUM_RX_QUEUES)
        } else if s == "IFLA_CARRIER"@ {
            Some(Ifla::IFLA_CARRIER)
        } else if s == "IFLA_PHYS_PORT_ID"@ {
            Some(Ifla::IFLA_PHYS_PORT_ID)
        } else if s == "IFLA_CARRIER_CHANGES"@ {
            Some(Ifla::IFLA_CARRIER_CHANGES)
        } else if s == "IFLA_PHYS_SWITCH_ID"@ {
            Some(Ifla::IFLA_PHYS_SWITCH_ID)
        } else if s == "IFLA_LINK_NETNSID"@ {
            Some(Ifla::IFLA_LINK_NETNSID)
        } else if s == "IFLA_PHYS_PORT_NAME"@ {
            Some(Ifla::IFLA_PHYS_PORT_NAME)
        } else if s == "IFLA_PROTO_DOWN"@ {
            Some(Ifla::IFLA_PROTO_DOWN)
        } else {
            None
        }
    }

    fn from_str(s: &str) -> (r: Option<Self>) {
        if same_text(s, "IFLA_UNSPEC") {
            Some(Ifla::IFLA_UNSPEC)
        } else if same_text(s, "IFLA_ADDRESS") {
            Some(Ifla::IFLA_ADDRESS)
        } else if same_text(s, "IFLA_BROADCAST") {
            Some(Ifla::IFLA_BROADCAST)
        } else if same_text(s, "IFLA_IFNAME") {
            Some(Ifla::IFLA_IFNAME)
        } else if same_text(s, "IFLA_MTU") {
            Some(Ifla::IFLA_MTU)
        } else if same_text(s, "IFLA_LINK") {
            Some(Ifla::IFLA_LINK)
        } else if same_text(s, "IFLA_QDISC") {
            Some(Ifla::IFLA_QDISC)
        } else if same_text(s, "IFLA_STATS") {
            Some(Ifla::IFLA_STATS)
        } else if same_text(s, "IFLA_COST") {
            Some(Ifla::IFLA_COST)
        } else if same_text(s, "IFLA_PRIORITY") {
            Some(Ifla::IFLA_PRIORITY)
        } else if same_text(s, "IFLA_MASTER") {
            Some(Ifla::IFLA_MASTER)
        } else if same_text(s, "IFLA_WIRELESS") {
            Some(Ifla::IFLA_WIRELESS)
        } else if same_text(s, "IFLA_PROTINFO") {
            Some(Ifla::IFLA_PROTINFO)
        } else if same_text(s, "IFLA_TXQLEN") {
            Some(Ifla::IFLA_TXQLEN)
        } else if same_text(s, "IFLA_MAP") {
            Some(Ifla::IFLA_MAP)
        } else if same_text(s, "IFLA_WEIGHT") {
            Some(Ifla::IFLA_WEIGHT)
        } else if same_text(s, "IFLA_OPERSTATE") {
            Some(Ifla::IFLA_OPERSTATE)
        } else if same_text(s, "IFLA_LINKMODE") {
            Some(Ifla::IFLA_LINKMODE)
        } else if same_text(s, "IFLA_LINKINFO") {
            Some(Ifla::IFLA_LINKINFO)
        } else if same_text(s, "IFLA_NET_NS_PID") {
            Some(Ifla::IFLA_NET_NS_PID)
        } else if same_text(s, "IFLA_IFALIAS") {
            Some(Ifla::IFLA_IFALIAS)
        } else if same_text(s, "IFLA_NUM_VF") {
            Some(Ifla::IFLA_NUM_VF)
        } else if same_text(s, "IFLA_VFINFO_LIST") {
            Some(Ifla::IFLA_VFINFO_LIST)
        } else if same_text(s, "IFLA_STATS64") {
            Some(Ifla::IFLA_STATS64)
        } else if same_text(s, "IFLA_VF_PORTS") {
            Some(Ifla::IFLA_VF_PORTS)
        } else if same_text(s, "IFLA_PORT_SELF") {
            Some(Ifla::IFLA_PORT_SELF)
        } else if same_text(s, "IFLA_AF_SPEC") {
            Some(Ifla::IFLA_AF_SPEC)
        } else if same_text(s, "IFLA_GROUP") {
            Some(Ifla::IFLA_GROUP)
        } else if same_text(s, "IFLA_NET_NS_FD") {
            Some(Ifla::IFLA_NET_NS_FD)
        } else if same_text(s, "IFLA_EXT_MASK") {
            Some(Ifla::IFLA_EXT_MASK)
        } else if same_text(s, "IFLA_PROMISCUITY") {
            Some(Ifla::IFLA_PROMISCUITY)
        } else if same_text(s, "IFLA_NUM_TX_QUEUES") {
            Some(Ifla::IFLA_NUM_TX_QUEUES)
        } else if same_text(s, "IFLA_NUM_RX_QUEUES") {
            Some(Ifla::IFLA_NUM_RX_QUEUES)
        } else if same_text(s, "IFLA_CARRIER") {
            Some(Ifla::IFLA_CARRIER)
        } else if same_text(s, "IFLA_PHYS_PORT_ID") {
            Some(Ifla::IFLA_PHYS_PORT_ID)
        } else if same_text(s, "IFLA_CARRIER_CHANGES") {
            Some(Ifla::IFLA_CARRIER_CHANGES)
        } else if same_text(s, "IFLA_PHYS_SWITCH_ID") {
            Some(Ifla::IFLA_PHYS_SWITCH_ID)
        } else if same_text(s, "IFLA_LINK_NETNSID") {
            Some(Ifla::IFLA_LINK_NETNSID)
        } else if same_text(s, "IFLA_PHYS_PORT_NAME") {
            Some(Ifla::IFLA_PHYS_PORT_NAME)
        } else if same_text(s, "IFLA_PROTO_DOWN") {
            Some(Ifla::IFLA_PROTO_DOWN)
        } else {
            None
        }
    }

    proof fn lemma_name_round_trip(self) {
        reveal_strlit("IFLA_UNSPEC");
        reveal_strlit("IFLA_ADDRESS");
        reveal_strlit("IFLA_BROADCAST");
        reveal_strlit("IFLA_IFNAME");
        reveal_strlit("IFLA_MTU");
        reveal_strlit("IFLA_LINK");
        reveal_strlit("IFLA_QDISC");
        reveal_strlit("IFLA_STATS");
        reveal_strlit("IFLA_COST");
        reveal_strlit("IFLA_PRIORITY");
        reveal_strlit("IFLA_MASTER");
        reveal_strlit("IFLA_WIRELESS");
        reveal_strlit("IFLA_PROTINFO");
        reveal_strlit("IFLA_TXQLEN");
        reveal_strlit("IFLA_MAP");
        reveal_strlit("IFLA_WEIGHT");
        reveal_strlit("IFLA_OPERSTATE");
        reveal_strlit("IFLA_LINKMODE");
        reveal_strlit("IFLA_LINKINFO");
        reveal_strlit("IFLA_NET_NS_PID");
        reveal_strlit("IFLA_IFALIAS");
        reveal_strlit("IFLA_NUM_VF");
        reveal_strlit("IFLA_VFINFO_LIST");
        reveal_strlit("IFLA_STATS64");
        reveal_strlit("IFLA_VF_PORTS");
        reveal_strlit("IFLA_PORT_SELF");
        reveal_strlit("IFLA_AF_SPEC");
        reveal_strlit("IFLA_GROUP");
        reveal_strlit("IFLA_NET_NS_FD");
        reveal_strlit("IFLA_EXT_MASK");
        reveal_strlit("IFLA_PROMISCUITY");
        reveal_strlit("IFLA_NUM_TX_QUEUES");
        reveal_strlit("IFLA_NUM_RX_QUEUES");
        reveal_strlit("IFLA_CARRIER");
        reveal_strlit("IFLA_PHYS_PORT_ID");
        reveal_strlit("IFLA_CARRIER_CHANGES");
        reveal_strlit("IFLA_PHYS_SWITCH_ID");
        reveal_strlit("IFLA_LINK_NETNSID");
        reveal_strlit("IFLA_PHYS_PORT_NAME");
        reveal_strlit("IFLA_PROTO_DOWN");
        assert("IFLA_UNSPEC"@.len() == 11);
        assert("IFLA_ADDRESS"@.len() == 12);
        assert("IFLA_BROADCAST"@.len() == 14);
        assert("IFLA_IFNAME"@.len() == 11);
        assert("IFLA_MTU"@.len() == 8);
        assert("IFLA_LINK"@.len() == 9);
        assert("IFLA_QDISC"@.len() == 10);
        assert("IFLA_STATS"@.len() == 10);
        assert("IFLA_COST"@.len() == 9);
        assert("IFLA_PRIORITY"@.len() == 13);
        assert("IFLA_MASTER"@.len() == 11);
        assert("IFLA_WIRELESS"@.len() == 13);
        assert("IFLA_PROTINFO"@.len() == 13);
        assert("IFLA_TXQLEN"@.len() == 11);
        assert("IFLA_MAP"@.len() == 8);
        assert("IFLA_WEIGHT"@.len() == 11);
        assert("IFLA_OPERSTATE"@.len() == 14);
        assert("IFLA_LINKMODE"@.len() == 13);
        assert("IFLA_LINKINFO"@.len() == 13);
        assert("IFLA_NET_NS_PID"@.len() == 15);
        assert("IFLA_IFALIAS"@.len() == 12);
        assert("IFLA_NUM_VF"@.len() == 11);
        assert("IFLA_VFINFO_LIST"@.len() == 16);
        assert("IFLA_STATS64"@.len() == 12);
        assert("IFLA_VF_PORTS"@.len() == 13);
        assert("IFLA_PORT_SELF"@.len() == 14);
        assert("IFLA_AF_SPEC"@.len() == 12);
        assert("IFLA_GROUP"@.len() == 10);
        assert("IFLA_NET_NS_FD"@.len() == 14);
        assert("IFLA_EXT_MASK"@.len() == 13);
        assert("IFLA_PROMISCUITY"@.len() == 16);
        assert("IFLA_NUM_TX_QUEUES"@.len() == 18);
        assert("IFLA_NUM_RX_QUEUES"@.len() == 18);
        assert("IFLA_CARRIER"@.len() == 12);
        assert("IFLA_PHYS_PORT_ID"@.len() == 17);
        assert("IFLA_CARRIER_CHANGES"@.len() == 20);
        assert("IFLA_PHYS_SWITCH_ID"@.len() == 19);
        assert("IFLA_LINK_NETNSID"@.len() == 17);
        assert("IFLA_PHYS_PORT_NAME"@.len() == 19);
        assert("IFLA_PROTO_DOWN"@.len() == 15);
        assert("IFLA_MTU"@[6] == 'T');
        assert("IFLA_MAP"@[6] == 'A');
        assert("IFLA_LINK"@[5] == 'L');
        assert("IFLA_COST"@[5] == 'C');
        assert("IFLA_QDISC"@[5] == 'Q');
        assert("IFLA_STATS"@[5] == 'S');
        assert("IFLA_GROUP"@[5] == 'G');
        assert("IFLA_UNSPEC"@[5] == 'U');
        assert("IFLA_IFNAME"@[5] == 'I');
        assert("IFLA_MASTER"@[5] == 'M');
        assert("IFLA_TXQLEN"@[5] == 'T');
        assert("IFLA_WEIGHT"@[5] == 'W');
        assert("IFLA_NUM_VF"@[5] == 'N');
        assert("IFLA_ADDRESS"@[5] == 'A');
        assert("IFLA_ADDRESS"@[6] == 'D');
        assert("IFLA_IFALIAS"@[5] == 'I');
        assert("IFLA_IFALIAS"@[6] == 'F');
        assert("IFLA_STATS64"@[5] == 'S');
        assert("IFLA_STATS64"@[6] == 'T');
        assert("IFLA_AF_SPEC"@[5] == 'A');
        assert("IFLA_AF_SPEC"@[6] == 'F');
        assert("IFLA_CARRIER"@[5] == 'C');
        assert("IFLA_CARRIER"@[6] == 'A');
        assert("IFLA_PRIORITY"@[7] == 'I');
        assert("IFLA_PRIORITY"@[9] == 'R');
        assert("IFLA_WIRELESS"@[7] == 'R');
        assert("IFLA_WIRELESS"@[9] == 'L');
        assert("IFLA_PROTINFO"@[7] == 'O');
        assert("IFLA_PROTINFO"@[9] == 'I');
        assert("IFLA_LINKMODE"@[7] == 'N');
        assert("IFLA_LINKMODE"@[9] == 'M');
        assert("IFLA_LINKINFO"@[7] == 'N');
        assert("IFLA_LINKINFO"@[9] == 'I');
        assert("IFLA_VF_PORTS"@[7] == '_');
        assert("IFLA_VF_PORTS"@[9] == 'O');
        assert("IFLA_EXT_MASK"@[7] == 'T');
        assert("IFLA_EXT_MASK"@[9] == 'M');
        assert("IFLA_BROADCAST"@[5] == 'B');
        assert("IFLA_OPERSTATE"@[5] == 'O');
        assert("IFLA_PORT_SELF"@[5] == 'P');
        assert("IFLA_NET_NS_FD"@[5] == 'N');
        assert("IFLA_NET_NS_PID"@[5] == 'N');
        assert("IFLA_PROTO_DOWN"@[5] == 'P');
        assert("IFLA_VFINFO_LIST"@[5] == 'V');
        assert("IFLA_PROMISCUITY"@[5] == 'P');
        assert("IFLA_PHYS_PORT_ID"@[5] == 'P');
        assert("IFLA_LINK_NETNSID"@[5] == 'L');
        assert("IFLA_NUM_TX_QUEUES"@[9] == 'T');
        assert("IFLA_NUM_RX_QUEUES"@[9] == 'R');
        assert("IFLA_PHYS_SWITCH_ID"@[10] == 'S');
        assert("IFLA_PHYS_PORT_NAME"@[10] == 'P');
    }
}

impl Default for Ifla {
    /// The constant with the lowest number.
    fn default() -> (r: Ifla)
        ensures
            r == Ifla::IFLA_UNSPEC,
    {
        Ifla::IFLA_UNSPEC
    }
}

} // verus!
