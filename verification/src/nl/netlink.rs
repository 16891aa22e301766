//! Netlink protocol families and the control message types that every
//! family shares.

use vstd::prelude::*;
use crate::nl::table::{same_text, Table};

verus! {

/// The protocol carried over a Netlink socket (`NETLINK_*`).
#[allow(non_camel_case_types)]
#[derive(Clone, Copy, Debug, PartialEq, Eq, Structural)]
pub enum NetlinkFamily {
    NETLINK_ROUTE,
    NETLINK_UNUSED,
    NETLINK_USERSOCK,
    NETLINK_FIREWALL,
    NETLINK_SOCK_DIAG,
    NETLINK_NFLOG,
    NETLINK_XFRM,
    NETLINK_SELINUX,
    NETLINK_ISCSI,
    NETLINK_AUDIT,
    NETLINK_FIB_LOOKUP,
    NETLINK_CONNECTOR,
    NETLINK_NETFILTER,
    NETLINK_IP6_FW,
    NETLINK_DNRTMSG,
    NETLINK_KOBJECT_UEVENT,
    NETLINK_GENERIC,
    NETLINK_SCSITRANSPORT,
    NETLINK_ECRYPTFS,
    NETLINK_RDMA,
    NETLINK_CRYPTO,
}

impl Table for NetlinkFamily {
    open spec fn spec_value(self) -> u32 {
        match self {
            NetlinkFamily::NETLINK_ROUTE => 0,
            NetlinkFamily::NETLINK_UNUSED => 1,
            NetlinkFamily::NETLINK_USERSOCK => 2,
            NetlinkFamily::NETLINK_FIREWALL => 3,
            NetlinkFamily::NETLINK_SOCK_DIAG => 4,
            NetlinkFamily::NETLINK_NFLOG => 5,
            NetlinkFamily::NETLINK_XFRM => 6,
            NetlinkFamily::NETLINK_SELINUX => 7,
            NetlinkFamily::NETLINK_ISCSI => 8,
            NetlinkFamily::NETLINK_AUDIT => 9,
            NetlinkFamily::NETLINK_FIB_LOOKUP => 10,
            NetlinkFamily::NETLINK_CONNECTOR => 11,
            NetlinkFamily::NETLINK_NETFILTER => 12,
            NetlinkFamily::NETLINK_IP6_FW => 13,
            NetlinkFamily::NETLINK_DNRTMSG => 14,
            NetlinkFamily::NETLINK_KOBJECT_UEVENT => 15,
            NetlinkFamily::NETLINK_GENERIC => 16,
            NetlinkFamily::NETLINK_SCSITRANSPORT => 18,
            NetlinkFamily::NETLINK_ECRYPTFS => 19,
            NetlinkFamily::NETLINK_RDMA => 20,
            NetlinkFamily::NETLINK_CRYPTO => 21,
        }
    }

    open spec fn spec_from_value(v: u32) -> Option<Self> {
        if v == 0 {
            Some(NetlinkFamily::NETLINK_ROUTE)
        } else if v == 1 {
            Some(NetlinkFamily::NETLINK_UNUSED)
        } else if v == 2 {
            Some(NetlinkFamily::NETLINK_USERSOCK)
        } else if v == 3 {
            Some(NetlinkFamily::NETLINK_FIREWALL)
        } else if v == 4 {
            Some(NetlinkFamily::NETLINK_SOCK_DIAG)
        } else if v == 5 {
            Some(NetlinkFamily::NETLINK_NFLOG)
        } else if v == 6 {
            Some(NetlinkFamily::NETLINK_XFRM)
        } else if v == 7 {
            Some(NetlinkFamily::NETLINK_SELINUX)
        } else if v == 8 {
            Some(NetlinkFamily::NETLINK_ISCSI)
        } else if v == 9 {
            Some(NetlinkFamily::NETLINK_AUDIT)
        } else if v == 10 {
            Some(NetlinkFamily::NETLINK_FIB_LOOKUP)
        } else if v == 11 {
            Some(NetlinkFamily::NETLINK_CONNECTOR)
        } else if v == 12 {
            Some(NetlinkFamily::NETLINK_NETFILTER)
        } else if v == 13 {
            Some(NetlinkFamily::NETLINK_IP6_FW)
        } else if v == 14 {
            Some(NetlinkFamily::NETLINK_DNRTMSG)
        } else if v == 15 {
            Some(NetlinkFamily::NETLINK_KOBJECT_UEVENT)
        } else if v == 16 {
            Some(NetlinkFamily::NETLINK_GENERIC)
        } else if v == 18 {
            Some(NetlinkFamily::NETLINK_SCSITRANSPORT)
        } else if v == 19 {
            Some(NetlinkFamily::NETLINK_ECRYPTFS)
        } else if v == 20 {
            Some(NetlinkFamily::NETLINK_RDMA)
        } else if v == 21 {
            Some(NetlinkFamily::NETLINK_CRYPTO)
        } else {
            None
        }
    }

    open spec fn spec_name(self) -> Seq<char> {
        match self {
            NetlinkFamily::NETLINK_ROUTE => "NETLINK_ROUTE"@,
            NetlinkFamily::NETLINK_UNUSED => "NETLINK_UNUSED"@,
            NetlinkFamily::NETLINK_USERSOCK => "NETLINK_USERSOCK"@,
            NetlinkFamily::NETLINK_FIREWALL => "NETLINK_FIREWALL"@,
            NetlinkFamily::NETLINK_SOCK_DIAG => "NETLINK_SOCK_DIAG"@,
            NetlinkFamily::NETLINK_NFLOG => "NETLINK_NFLOG"@,
            NetlinkFamily::NETLINK_XFRM => "NETLINK_XFRM"@,
            NetlinkFamily::NETLINK_SELINUX => "NETLINK_SELINUX"@,
            NetlinkFamily::NETLINK_ISCSI => "NETLINK_ISCSI"@,
            NetlinkFamily::NETLINK_AUDIT => "NETLINK_AUDIT"@,
            NetlinkFamily::NETLINK_FIB_LOOKUP => "NETLINK_FIB_LOOKUP"@,
            NetlinkFamily::NETLINK_CONNECTOR => "NETLINK_CONNECTOR"@,
            NetlinkFamily::NETLINK_NETFILTER => "NETLINK_NETFILTER"@,
            NetlinkFamily::NETLINK_IP6_FW => "NETLINK_IP6_FW"@,
            NetlinkFamily::NETLINK_DNRTMSG => "NETLINK_DNRTMSG"@,
            NetlinkFamily::NETLINK_KOBJECT_UEVENT => "NETLINK_KOBJECT_UEVENT"@,
            NetlinkFamily::NETLINK_GENERIC => "NETLINK_GENERIC"@,
            NetlinkFamily::NETLINK_SCSITRANSPORT => "NETLINK_SCSITRANSPORT"@,
            NetlinkFamily::NETLINK_ECRYPTFS => "NETLINK_ECRYPTFS"@,
            NetlinkFamily::NETLINK_RDMA => "NETLINK_RDMA"@,
            NetlinkFamily::NETLINK_CRYPTO => "NETLINK_CRYPTO"@,
        }
    }

    fn value(self) -> (r: u32) {
        match self {
            NetlinkFamily::NETLINK_ROUTE => 0,
            NetlinkFamily::NETLINK_UNUSED => 1,
            NetlinkFamily::NETLINK_USERSOCK => 2,
            NetlinkFamily::NETLINK_FIREWALL => 3,
            NetlinkFamily::NETLINK_SOCK_DIAG => 4,
            NetlinkFamily::NETLINK_NFLOG => 5,
            NetlinkFamily::NETLINK_XFRM => 6,
            NetlinkFamily::NETLINK_SELINUX => 7,
            NetlinkFamily::NETLINK_ISCSI => 8,
            NetlinkFamily::NETLINK_AUDIT => 9,
            NetlinkFamily::NETLINK_FIB_LOOKUP => 10,
            NetlinkFamily::NETLINK_CONNECTOR => 11,
            NetlinkFamily::NETLINK_NETFILTER => 12,
            NetlinkFamily::NETLINK_IP6_FW => 13,
            NetlinkFamily::NETLINK_DNRTMSG => 14,
            NetlinkFamily::NETLINK_KOBJECT_UEVENT => 15,
            NetlinkFamily::NETLINK_GENERIC => 16,
            NetlinkFamily::NETLINK_SCSITRANSPORT => 18,
            NetlinkFamily::NETLINK_ECRYPTFS => 19,
            NetlinkFamily::NETLINK_RDMA => 20,
            NetlinkFamily::NETLINK_CRYPTO => 21,
        }
    }

    fn from_value(v: u32) -> (r: Option<Self>) {
        match v {
            0 => Some(NetlinkFamily::NETLINK_ROUTE),
            1 => Some(NetlinkFamily::NETLINK_UNUSED),
            2 => Some(NetlinkFamily::NETLINK_USERSOCK),
            3 => Some(NetlinkFamily::NETLINK_FIREWALL),
            4 => Some(NetlinkFamily::NETLINK_SOCK_DIAG),
            5 => Some(NetlinkFamily::NETLINK_NFLOG),
            6 => Some(NetlinkFamily::NETLINK_XFRM),
            7 => Some(NetlinkFamily::NETLINK_SELINUX),
            8 => Some(NetlinkFamily::NETLINK_ISCSI),
            9 => Some(NetlinkFamily::NETLINK_AUDIT),
            10 => Some(NetlinkFamily::NETLINK_FIB_LOOKUP),
            11 => Some(NetlinkFamily::NETLINK_CONNECTOR),
            12 => Some(NetlinkFamily::NETLINK_NETFILTER),
            13 => Some(NetlinkFamily::NETLINK_IP6_FW),
            14 => Some(NetlinkFamily::NETLINK_DNRTMSG),
            15 => Some(NetlinkFamily::NETLINK_KOBJECT_UEVENT),
            16 => Some(NetlinkFamily::NETLINK_GENERIC),
            18 => Some(NetlinkFamily::NETLINK_SCSITRANSPORT),
            19 => Some(NetlinkFamily::NETLINK_ECRYPTFS),
            20 => Some(NetlinkFamily::NETLINK_RDMA),
            21 => Some(NetlinkFamily::NETLINK_CRYPTO),
            _ => None,
        }
    }

    fn name(self) -> (r: &'static str) {
        match self {
            NetlinkFamily::NETLINK_ROUTE => "NETLINK_ROUTE",
            NetlinkFamily::NETLINK_UNUSED => "NETLINK_UNUSED",
            NetlinkFamily::NETLINK_USERSOCK => "NETLINK_USERSOCK",
            NetlinkFamily::NETLINK_FIREWALL => "NETLINK_FIREWALL",
            NetlinkFamily::NETLINK_SOCK_DIAG => "NETLINK_SOCK_DIAG",
            NetlinkFamily::NETLINK_NFLOG => "NETLINK_NFLOG",
            NetlinkFamily::NETLINK_XFRM => "NETLINK_XFRM",
            NetlinkFamily::NETLINK_SELINUX => "NETLINK_SELINUX",
            NetlinkFamily::NETLINK_ISCSI => "NETLINK_ISCSI",
            NetlinkFamily::NETLINK_AUDIT => "NETLINK_AUDIT",
            NetlinkFamily::NETLINK_FIB_LOOKUP => "NETLINK_FIB_LOOKUP",
            NetlinkFamily::NETLINK_CONNECTOR => "NETLINK_CONNECTOR",
            NetlinkFamily::NETLINK_NETFILTER => "NETLINK_NETFILTER",
            NetlinkFamily::NETLINK_IP6_FW => "NETLINK_IP6_FW",
            NetlinkFamily::NETLINK_DNRTMSG => "NETLINK_DNRTMSG",
            NetlinkFamily::NETLINK_KOBJECT_UEVENT => "NETLINK_KOBJECT_UEVENT",
            NetlinkFamily::NETLINK_GENERIC => "NETLINK_GENERIC",
            NetlinkFamily::NETLINK_SCSITRANSPORT => "NETLINK_SCSITRANSPORT",
            NetlinkFamily::NETLINK_ECRYPTFS => "NETLINK_ECRYPTFS",
            NetlinkFamily::NETLINK_RDMA => "NETLINK_RDMA",
            NetlinkFamily::NETLINK_CRYPTO => "NETLINK_CRYPTO",
        }
    }

    proof fn lemma_value_round_trip(self) {
    }

    proof fn lemma_from_value_exact(v: u32) {
    }

    open spec fn spec_from_str(s: Seq<char>) -> Option<Self> {
        if s == "NETLINK_ROUTE"@ {
            Some(NetlinkFamily::NETLINK_ROUTE)
        } else if s == "NETLINK_UNUSED"@ {
            Some(NetlinkFamily::NETLINK_UNUSED)
        } else if s == "NETLINK_USERSOCK"@ {
            Some(NetlinkFamily::NETLINK_USERSOCK)
        } else if s == "NETLINK_FIREWALL"@ {
            Some(NetlinkFamily::NETLINK_FIREWALL)
        } else if s == "NETLINK_SOCK_DIAG"@ {
            Some(NetlinkFamily::NETLINK_SOCK_DIAG)
        } else if s == "NETLINK_NFLOG"@ {
            Some(NetlinkFamily::NETLINK_NFLOG)
        } else if s == "NETLINK_XFRM"@ {
            Some(NetlinkFamily::NETLINK_XFRM)
        } else if s == "NETLINK_SELINUX"@ {
            Some(NetlinkFamily::NETLINK_SELINUX)
        } else if s == "NETLINK_ISCSI"@ {
            Some(NetlinkFamily::NETLINK_ISCSI)
        } else if s == "NETLINK_AUDIT"@ {
            Some(NetlinkFamily::NETLINK_AUDIT)
        } else if s == "NETLINK_FIB_LOOKUP"@ {
            Some(NetlinkFamily::NETLINK_FIB_LOOKUP)
        } else if s == "NETLINK_CONNECTOR"@ {
            Some(NetlinkFamily::NETLINK_CONNECTOR)
        } else if s == "NETLINK_NETFILTER"@ {
            Some(NetlinkFamily::NETLINK_NETFILTER)
        } else if s == "NETLINK_IP6_FW"@ {
            Some(NetlinkFamily::NETLINK_IP6_FW)
        } else if s == "NETLINK_DNRTMSG"@ {
            Some(NetlinkFamily::NETLINK_DNRTMSG)
        } else if s == "NETLINK_KOBJECT_UEVENT"@ {
            Some(NetlinkFamily::NETLINK_KOBJECT_UEVENT)
        } else if s == "NETLINK_GENERIC"@ {
            Some(NetlinkFamily::NETLINK_GENERIC)
        } else if s == "NETLINK_SCSITRANSPORT"@ {
            Some(NetlinkFamily::NETLINK_SCSITRANSPORT)
        } else if s == "NETLINK_ECRYPTFS"@ {
            Some(NetlinkFamily::NETLINK_ECRYPTFS)
        } else if s == "NETLINK_RDMA"@ {
            Some(NetlinkFamily::NETLINK_RDMA)
        } else if s == "NETLINK_CRYPTO"@ {
            Some(NetlinkFamily::NETLINK_CRYPTO)
        } else {
            None
        }
    }

    fn from_str(s: &str) -> (r: Option<Self>) {
        if same_text(s, "NETLINK_ROUTE") {
            Some(NetlinkFamily::NETLINK_ROUTE)
        } else if same_text(s, "NETLINK_UNUSED") {
            Some(NetlinkFamily::NETLINK_UNUSED)
        } else if same_text(s, "NETLINK_USERSOCK") {
            Some(NetlinkFamily::NETLINK_USERSOCK)
        } else if same_text(s, "NETLINK_FIREWALL") {
            Some(NetlinkFamily::NETLINK_FIREWALL)
        } else if same_text(s, "NETLINK_SOCK_DIAG") {
            Some(NetlinkFamily::NETLINK_SOCK_DIAG)
        } else if same_text(s, "NETLINK_NFLOG") {
            Some(NetlinkFamily::NETLINK_NFLOG)
        } else if same_text(s, "NETLINK_XFRM") {
            Some(NetlinkFamily::NETLINK_XFRM)
        } else if same_text(s, "NETLINK_SELINUX") {
            Some(NetlinkFamily::NETLINK_SELINUX)
        } else if same_text(s, "NETLINK_ISCSI") {
            Some(NetlinkFamily::NETLINK_ISCSI)
        } else if same_text(s, "NETLINK_AUDIT") {
            Some(NetlinkFamily::NETLINK_AUDIT)
        } else if same_text(s, "NETLINK_FIB_LOOKUP") {
            Some(NetlinkFamily::NETLINK_FIB_LOOKUP)
        } else if same_text(s, "NETLINK_CONNECTOR") {
            Some(NetlinkFamily::NETLINK_CONNECTOR)
        } else if same_text(s, "NETLINK_NETFILTER") {
            Some(NetlinkFamily::NETLINK_NETFILTER)
        } else if same_text(s, "NETLINK_IP6_FW") {
            Some(NetlinkFamily::NETLINK_IP6_FW)
        } else if same_text(s, "NETLINK_DNRTMSG") {
            Some(NetlinkFamily::NETLINK_DNRTMSG)
        } else if same_text(s, "NETLINK_KOBJECT_UEVENT") {
            Some(NetlinkFamily::NETLINK_KOBJECT_UEVENT)
        } else if same_text(s, "NETLINK_GENERIC") {
            Some(NetlinkFamily::NETLINK_GENERIC)
        } else if same_text(s, "NETLINK_SCSITRANSPORT") {
            Some(NetlinkFamily::NETLINK_SCSITRANSPORT)
        } else if same_text(s, "NETLINK_ECRYPTFS") {
            Some(NetlinkFamily::NETLINK_ECRYPTFS)
        } else if same_text(s, "NETLINK_RDMA") {
            Some(NetlinkFamily::NETLINK_RDMA)
        } else if same_text(s, "NETLINK_CRYPTO") {
            Some(NetlinkFamily::NETLINK_CRYPTO)
        } else {
            None
        }
    }

    proof fn lemma_name_round_trip(self) {
        reveal_strlit("NETLINK_ROUTE");
        reveal_strlit("NETLINK_UNUSED");
        reveal_strlit("NETLINK_USERSOCK");
        reveal_strlit("NETLINK_FIREWALL");
        reveal_strlit("NETLINK_SOCK_DIAG");
        reveal_strlit("NETLINK_NFLOG");
        reveal_strlit("NETLINK_XFRM");
        reveal_strlit("NETLINK_SELINUX");
        reveal_strlit("NETLINK_ISCSI");
        reveal_strlit("NETLINK_AUDIT");
        reveal_strlit("NETLINK_FIB_LOOKUP");
        reveal_strlit("NETLINK_CONNECTOR");
        reveal_strlit("NETLINK_NETFILTER");
        reveal_strlit("NETLINK_IP6_FW");
        reveal_strlit("NETLINK_DNRTMSG");
        reveal_strlit("NETLINK_KOBJECT_UEVENT");
        reveal_strlit("NETLINK_GENERIC");
        reveal_strlit("NETLINK_SCSITRANSPORT");
        reveal_strlit("NETLINK_ECRYPTFS");
        reveal_strlit("NETLINK_RDMA");
        reveal_strlit("NETLINK_CRYPTO");
        assert("NETLINK_ROUTE"@.len() == 13);
        assert("NETLINK_UNUSED"@.len() == 14);
        assert("NETLINK_USERSOCK"@.len() == 16);
        assert("NETLINK_FIREWALL"@.len() == 16);
        assert("NETLINK_SOCK_DIAG"@.len() == 17);
        assert("NETLINK_NFLOG"@.len() == 13);
        assert("NETLINK_XFRM"@.len() == 12);
        assert("NETLINK_SELINUX"@.len() == 15);
        assert("NETLINK_ISCSI"@.len() == 13);
        assert("NETLINK_AUDIT"@.len() == 13);
        assert("NETLINK_FIB_LOOKUP"@.len() == 18);
        assert("NETLINK_CONNECTOR"@.len() == 17);
        assert("NETLINK_NETFILTER"@.len() == 17);
        assert("NETLINK_IP6_FW"@.len() == 14);
        assert("NETLINK_DNRTMSG"@.len() == 15);
        assert("NETLINK_KOBJECT_UEVENT"@.len() == 22);
        assert("NETLINK_GENERIC"@.len() == 15);
        assert("NETLINK_SCSITRANSPORT"@.len() == 21);
        assert("NETLINK_ECRYPTFS"@.len() == 16);
        assert("NETLINK_RDMA"@.len() == 12);
        assert("NETLINK_CRYPTO"@.len() == 14);
        assert("NETLINK_XFRM"@[8] == 'X');
        assert("NETLINK_RDMA"@[8] == 'R');
        assert("NETLINK_ROUTE"@[8] == 'R');
        assert("NETLINK_NFLOG"@[8] == 'N');
        assert("NETLINK_ISCSI"@[8] == 'I');
        assert("NETLINK_AUDIT"@[8] == 'A');
        assert("NETLINK_UNUSED"@[8] == 'U');
        assert("NETLINK_IP6_FW"@[8] == 'I');
        assert("NETLINK_CRYPTO"@[8] == 'C');
        assert("NETLINK_SELINUX"@[8] == 'S');
        assert("NETLINK_DNRTMSG"@[8] == 'D');
        assert("NETLINK_GENERIC"@[8] == 'G');
        assert("NETLINK_USERSOCK"@[8] == 'U');
        assert("NETLINK_FIREWALL"@[8] == 'F');
        assert("NETLINK_ECRYPTFS"@[8] == 'E');
        assert("NETLINK_SOCK_DIAG"@[8] == 'S');
        assert("NETLINK_CONNECTOR"@[8] == 'C');
        assert("NETLINK_NETFILTER"@[8] == 'N');
    }
}

impl Default for NetlinkFamily {
    /// The constant with the lowest number.
    fn default() -> (r: NetlinkFamily)
        ensures
            r == NetlinkFamily::NETLINK_ROUTE,
    {
        NetlinkFamily::NETLINK_ROUTE
    }
}

/// The control message types (`NLMSG_*`), whose numbers lie below those of
/// every family's own types.
#[allow(non_camel_case_types)]
#[derive(Clone, Copy, Debug, PartialEq, Eq, Structural)]
pub enum NlMsgType {
    NLMSG_NOOP,
    NLMSG_ERROR,
    NLMSG_DONE,
    NLMSG_OVERRUN,
}

impl Table for NlMsgType {
    open spec fn spec_value(self) -> u32 {
        match self {
            NlMsgType::NLMSG_NOOP => 1,
            NlMsgType::NLMSG_ERROR => 2,
            NlMsgType::NLMSG_DONE => 3,
            NlMsgType::NLMSG_OVERRUN => 4,
        }
    }

    open spec fn spec_from_value(v: u32) -> Option<Self> {
        if v == 1 {
            Some(NlMsgType::NLMSG_NOOP)
        } else if v == 2 {
            Some(NlMsgType::NLMSG_ERROR)
        } else if v == 3 {
            Some(NlMsgType::NLMSG_DONE)
        } else if v == 4 {
            Some(NlMsgType::NLMSG_OVERRUN)
        } else {
            None
        }
    }

    open spec fn spec_name(self) -> Seq<char> {
        match self {
            NlMsgType::NLMSG_NOOP => "NLMSG_NOOP"@,
            NlMsgType::NLMSG_ERROR => "NLMSG_ERROR"@,
            NlMsgType::NLMSG_DONE => "NLMSG_DONE"@,
            NlMsgType::NLMSG_OVERRUN => "NLMSG_OVERRUN"@,
        }
    }

    fn value(self) -> (r: u32) {
        match self {
            NlMsgType::NLMSG_NOOP => 1,
            NlMsgType::NLMSG_ERROR => 2,
            NlMsgType::NLMSG_DONE => 3,
            NlMsgType::NLMSG_OVERRUN => 4,
        }
    }

    fn from_value(v: u32) -> (r: Option<Self>) {
        match v {
            1 => Some(NlMsgType::NLMSG_NOOP),
            2 => Some(NlMsgType::NLMSG_ERROR),
            3 => Some(NlMsgType::NLMSG_DONE),
            4 => Some(NlMsgType::NLMSG_OVERRUN),
            _ => None,
        }
    }

    fn name(self) -> (r: &'static str) {
        match self {
            NlMsgType::NLMSG_NOOP => "NLMSG_NOOP",
            NlMsgType::NLMSG_ERROR => "NLMSG_ERROR",
            NlMsgType::NLMSG_DONE => "NLMSG_DONE",
            NlMsgType::NLMSG_OVERRUN => "NLMSG_OVERRUN",
        }
    }

    proof fn lemma_value_round_trip(self) {
    }

    proof fn lemma_from_value_exact(v: u32) {
    }

    open spec fn spec_from_str(s: Seq<char>) -> Option<Self> {
        if s == "NLMSG_NOOP"@ {
            Some(NlMsgType::NLMSG_NOOP)
        } else if s == "NLMSG_ERROR"@ {
            Some(NlMsgType::NLMSG_ERROR)
        } else if s == "NLMSG_DONE"@ {
            Some(NlMsgType::NLMSG_DONE)
        } else if s == "NLMSG_OVERRUN"@ {
            Some(NlMsgType::NLMSG_OVERRUN)
        } else {
            None
        }
    }

    fn from_str(s: &str) -> (r: Option<Self>) {
        if same_text(s, "NLMSG_NOOP") {
            Some(NlMsgType::NLMSG_NOOP)
        } else if same_text(s, "NLMSG_ERROR") {
            Some(NlMsgType::NLMSG_ERROR)
        } else if same_text(s, "NLMSG_DONE") {
            Some(NlMsgType::NLMSG_DONE)
        } else if same_text(s, "NLMSG_OVERRUN") {
            Some(NlMsgType::NLMSG_OVERRUN)
        } else {
            None
        }
    }

    proof fn lemma_name_round_trip(self) {
        reveal_strlit("NLMSG_NOOP");
        reveal_strlit("NLMSG_ERROR");
        reveal_strlit("NLMSG_DONE");
        reveal_strlit("NLMSG_OVERRUN");
        assert("NLMSG_NOOP"@.len() == 10);
        assert("NLMSG_ERROR"@.len() == 11);
        assert("NLMSG_DONE"@.len() == 10);
        assert("NLMSG_OVERRUN"@.len() == 13);
        assert("NLMSG_NOOP"@[6] == 'N');
        assert("NLMSG_DONE"@[6] == 'D');
    }
}

impl Default for NlMsgType {
    /// The constant with the lowest number.
    fn default() -> (r: NlMsgType)
        ensures
            r == NlMsgType::NLMSG_NOOP,
    {
        NlMsgType::NLMSG_NOOP
    }
}

impl NlMsgType {
    /// The constant that `n` stands for, if any.
    pub fn from_u64(n: u64) -> (r: Option<Self>)
        ensures
            r == if n <= u32::MAX {
                Self::spec_from_value(n as u32)
            } else {
                None
            },
    {
        if n <= 0xFFFF_FFFF {
            Self::from_value(n as u32)
        } else {
            None
        }
    }

    /// The constant that `n` stands for, if any; none for a negative `n`.
    pub fn from_i64(n: i64) -> (r: Option<Self>)
        ensures
            r == if 0 <= n <= u32::MAX {
                Self::spec_from_value(n as u32)
            } else {
                None
            },
    {
        if 0 <= n && n <= 0xFFFF_FFFF {
            Self::from_value(n as u32)
        } else {
            None
        }
    }
}

} // verus!
