//! Tables of the neighbour messages: entry states, entry flags and neighbour
//! attribute kinds.

use vstd::prelude::*;
use crate::nl::table::{same_text, FlagTable, Table};

verus! {

/// Neighbour cache entry states (`NUD_*`), one bit each but for `NUD_NONE`.
#[allow(non_camel_case_types)]
#[derive(Clone, Copy, Debug, PartialEq, Eq, Structural)]
pub enum NdState {
    NUD_NONE,
    NUD_INCOMPLETE,
    NUD_REACHABLE,
    NUD_STALE,
    NUD_DELAY,
    NUD_PROBE,
    NUD_FAILED,
    NUD_NOARP,
    NUD_PERMANENT,
}

impl Table for NdState {
    open spec fn spec_value(self) -> u32 {
        match self {
            NdState::NUD_NONE => 0x0,
            NdState::NUD_INCOMPLETE => 0x1,
            NdState::NUD_REACHABLE => 0x2,
            NdState::NUD_STALE => 0x4,
            NdState::NUD_DELAY => 0x8,
            NdState::NUD_PROBE => 0x10,
            NdState::NUD_FAILED => 0x20,
            NdState::NUD_NOARP => 0x40,
            NdState::NUD_PERMANENT => 0x80,
        }
    }

    open spec fn spec_from_value(v: u32) -> Option<Self> {
        if v == 0x0 {
            Some(NdState::NUD_NONE)
        } else if v == 0x1 {
            Some(NdState::NUD_INCOMPLETE)
        } else if v == 0x2 {
            Some(NdState::NUD_REACHABLE)
        } else if v == 0x4 {
            Some(NdState::NUD_STALE)
        } else if v == 0x8 {
            Some(NdState::NUD_DELAY)
        } else if v == 0x10 {
            Some(NdState::NUD_PROBE)
        } else if v == 0x20 {
            Some(NdState::NUD_FAILED)
        } else if v == 0x40 {
            Some(NdState::NUD_NOARP)
        } else if v == 0x80 {
            Some(NdState::NUD_PERMANENT)
        } else {
            None
        }
    }

    open spec fn spec_name(self) -> Seq<char> {
        match self {
            NdState::NUD_NONE => "NUD_NONE"@,
            NdState::NUD_INCOMPLETE => "NUD_INCOMPLETE"@,
            NdState::NUD_REACHABLE => "NUD_REACHABLE"@,
            NdState::NUD_STALE => "NUD_STALE"@,
            NdState::NUD_DELAY => "NUD_DELAY"@,
            NdState::NUD_PROBE => "NUD_PROBE"@,
            NdState::NUD_FAILED => "NUD_FAILED"@,
            NdState::NUD_NOARP => "NUD_NOARP"@,
            NdState::NUD_PERMANENT => "NUD_PERMANENT"@,
        }
    }

    fn value(self) -> (r: u32) {
        match self {
            NdState::NUD_NONE => 0x0,
            NdState::NUD_INCOMPLETE => 0x1,
            NdState::NUD_REACHABLE => 0x2,
            NdState::NUD_STALE => 0x4,
            NdState::NUD_DELAY => 0x8,
            NdState::NUD_PROBE => 0x10,
            NdState::NUD_FAILED => 0x20,
            NdState::NUD_NOARP => 0x40,
            NdState::NUD_PERMANENT => 0x80,
        }
    }

    fn from_value(v: u32) -> (r: Option<Self>) {
        match v {
            0x0 => Some(NdState::NUD_NONE),
            0x1 => Some(NdState::NUD_INCOMPLETE),
            0x2 => Some(NdState::NUD_REACHABLE),
            0x4 => Some(NdState::NUD_STALE),
            0x8 => Some(NdState::NUD_DELAY),
            0x10 => Some(NdState::NUD_PROBE),
            0x20 => Some(NdState::NUD_FAILED),
            0x40 => Some(NdState::NUD_NOARP),
            0x80 => Some(NdState::NUD_PERMANENT),
            _ => None,
        }
    }

    fn name(self) -> (r: &'static str) {
        match self {
            NdState::NUD_NONE => "NUD_NONE",
            NdState::NUD_INCOMPLETE => "NUD_INCOMPLETE",
            NdState::NUD_REACHABLE => "NUD_REACHABLE",
            NdState::NUD_STALE => "NUD_STALE",
            NdState::NUD_DELAY => "NUD_DELAY",
            NdState::NUD_PROBE => "NUD_PROBE",
            NdState::NUD_FAILED => "NUD_FAILED",
            NdState::NUD_NOARP => "NUD_NOARP",
            NdState::NUD_PERMANENT => "NUD_PERMANENT",
        }
    }

    proof fn lemma_value_round_trip(self) {
    }

    proof fn lemma_from_value_exact(v: u32) {
    }

    open spec fn spec_from_str(s: Seq<char>) -> Option<Self> {
        if s == "NUD_NONE"@ {
            Some(NdState::NUD_NONE)
        } else if s == "NUD_INCOMPLETE"@ {
            Some(NdState::NUD_INCOMPLETE)
        } else if s == "NUD_REACHABLE"@ {
            Some(NdState::NUD_REACHABLE)
        } else if s == "NUD_STALE"@ {
            Some(NdState::NUD_STALE)
        } else if s == "NUD_DELAY"@ {
            Some(NdState::NUD_DELAY)
        } else if s == "NUD_PROBE"@ {
            Some(NdState::NUD_PROBE)
        } else if s == "NUD_FAILED"@ {
            Some(NdState::NUD_FAILED)
        } else if s == "NUD_NOARP"@ {
            Some(NdState::NUD_NOARP)
        } else if s == "NUD_PERMANENT"@ {
            Some(NdState::NUD_PERMANENT)
        } else {
            None
        }
    }

    fn from_str(s: &str) -> (r: Option<Self>) {
        if same_text(s, "NUD_NONE") {
            Some(NdState::NUD_NONE)
        } else if same_text(s, "NUD_INCOMPLETE") {
            Some(NdState::NUD_INCOMPLETE)
        } else if same_text(s, "NUD_REACHABLE") {
            Some(NdState::NUD_REACHABLE)
        } else if same_text(s, "NUD_STALE") {
            Some(NdState::NUD_STALE)
        } else if same_text(s, "NUD_DELAY") {
            Some(NdState::NUD_DELAY)
        } else if same_text(s, "NUD_PROBE") {
            Some(NdState::NUD_PROBE)
        } else if same_text(s, "NUD_FAILED") {
            Some(NdState::NUD_FAILED)
        } else if same_text(s, "NUD_NOARP") {
            Some(NdState::NUD_NOARP)
        } else if same_text(s, "NUD_PERMANENT") {
            Some(NdState::NUD_PERMANENT)
        } else {
            None
        }
    }

    proof fn lemma_name_round_trip(self) {
        reveal_strlit("NUD_NONE");
        reveal_strlit("NUD_INCOMPLETE");
        reveal_strlit("NUD_REACHABLE");
        reveal_strlit("NUD_STALE");
        reveal_strlit("NUD_DELAY");
        reveal_strlit("NUD_PROBE");
        reveal_strlit("NUD_FAILED");
        reveal_strlit("NUD_NOARP");
        reveal_strlit("NUD_PERMANENT");
        assert("NUD_NONE"@.len() == 8);
        assert("NUD_INCOMPLETE"@.len() == 14);
        assert("NUD_REACHABLE"@.len() == 13);
        assert("NUD_STALE"@.len() == 9);
        assert("NUD_DELAY"@.len() == 9);
        assert("NUD_PROBE"@.len() == 9);
        assert("NUD_FAILED"@.len() == 10);
        assert("NUD_NOARP"@.len() == 9);
        assert("NUD_PERMANENT"@.len() == 13);
        assert("NUD_STALE"@[4] == 'S');
        assert("NUD_DELAY"@[4] == 'D');
        assert("NUD_PROBE"@[4] == 'P');
        assert("NUD_NOARP"@[4] == 'N');
        assert("NUD_REACHABLE"@[4] == 'R');
        assert("NUD_PERMANENT"@[4] == 'P');
    }
}

impl Default for NdState {
    /// The constant with the lowest number.
    fn default() -> (r: NdState)
        ensures
            r == NdState::NUD_NONE,
    {
        NdState::NUD_NONE
    }
}

impl FlagTable for NdState {
    open spec fn spec_max_value() -> u32 {
        0x80
    }

    fn max_value() -> (r: u32) {
        0x80
    }
}

/// Neighbour cache entry flags (`NTF_*`), one bit each.
#[allow(non_camel_case_types)]
#[derive(Clone, Copy, Debug, PartialEq, Eq, Structural)]
pub enum NdFlags {
    NTF_USE,
    NTF_SELF,
    NTF_MASTER,
    NTF_PROXY,
    NTF_EXT_LEARNED,
    NTF_ROUTER,
}

impl Table for NdFlags {
    open spec fn spec_value(self) -> u32 {
        match self {
            NdFlags::NTF_USE => 0x1,
            NdFlags::NTF_SELF => 0x2,
            NdFlags::NTF_MASTER => 0x4,
            NdFlags::NTF_PROXY => 0x8,
            NdFlags::NTF_EXT_LEARNED => 0x10,
            NdFlags::NTF_ROUTER => 0x80,
        }
    }

    open spec fn spec_from_value(v: u32) -> Option<Self> {
        if v == 0x1 {
            Some(NdFlags::NTF_USE)
        } else if v == 0x2 {
            Some(NdFlags::NTF_SELF)
        } else if v == 0x4 {
            Some(NdFlags::NTF_MASTER)
        } else if v == 0x8 {
            Some(NdFlags::NTF_PROXY)
        } else if v == 0x10 {
            Some(NdFlags::NTF_EXT_LEARNED)
        } else if v == 0x80 {
            Some(NdFlags::NTF_ROUTER)
        } else {
            None
        }
    }

    open spec fn spec_name(self) -> Seq<char> {
        match self {
            NdFlags::NTF_USE => "NTF_USE"@,
            NdFlags::NTF_SELF => "NTF_SELF"@,
            NdFlags::NTF_MASTER => "NTF_MASTER"@,
            NdFlags::NTF_PROXY => "NTF_PROXY"@,
            NdFlags::NTF_EXT_LEARNED => "NTF_EXT_LEARNED"@,
            NdFlags::NTF_ROUTER => "NTF_ROUTER"@,
        }
    }

    fn value(self) -> (r: u32) {
        match self {
            NdFlags::NTF_USE => 0x1,
            NdFlags::NTF_SELF => 0x2,
            NdFlags::NTF_MASTER => 0x4,
            NdFlags::NTF_PROXY => 0x8,
            NdFlags::NTF_EXT_LEARNED => 0x10,
            NdFlags::NTF_ROUTER => 0x80,
        }
    }

    fn from_value(v: u32) -> (r: Option<Self>) {
        match v {
            0x1 => Some(NdFlags::NTF_USE),
            0x2 => Some(NdFlags::NTF_SELF),
            0x4 => Some(NdFlags::NTF_MASTER),
            0x8 => Some(NdFlags::NTF_PROXY),
            0x10 => Some(NdFlags::NTF_EXT_LEARNED),
            0x80 => Some(NdFlags::NTF_ROUTER),
            _ => None,
        }
    }

    fn name(self) -> (r: &'static str) {
        match self {
            NdFlags::NTF_USE => "NTF_USE",
            NdFlags::NTF_SELF => "NTF_SELF",
            NdFlags::NTF_MASTER => "NTF_MASTER",
            NdFlags::NTF_PROXY => "NTF_PROXY",
            NdFlags::NTF_EXT_LEARNED => "NTF_EXT_LEARNED",
            NdFlags::NTF_ROUTER => "NTF_ROUTER",
        }
    }

    proof fn lemma_value_round_trip(self) {
    }

    proof fn lemma_from_value_exact(v: u32) {
    }

    open spec fn spec_from_str(s: Seq<char>) -> Option<Self> {
        if s == "NTF_USE"@ {
            Some(NdFlags::NTF_USE)
        } else if s == "NTF_SELF"@ {
            Some(NdFlags::NTF_SELF)
        } else if s == "NTF_MASTER"@ {
            Some(NdFlags::NTF_MASTER)
        } else if s == "NTF_PROXY"@ {
            Some(NdFlags::NTF_PROXY)
        } else if s == "NTF_EXT_LEARNED"@ {
            Some(NdFlags::NTF_EXT_LEARNED)
        } else if s == "NTF_ROUTER"@ {
            Some(NdFlags::NTF_ROUTER)
        } else {
            None
        }
    }

    fn from_str(s: &str) -> (r: Option<Self>) {
        if same_text(s, "NTF_USE") {
            Some(NdFlags::NTF_USE)
        } else if same_text(s, "NTF_SELF") {
            Some(NdFlags::NTF_SELF)
        } else if same_text(s, "NTF_MASTER") {
            Some(NdFlags::NTF_MASTER)
        } else if same_text(s, "NTF_PROXY") {
            Some(NdFlags::NTF_PROXY)
        } else if same_text(s, "NTF_EXT_LEARNED") {
            Some(NdFlags::NTF_EXT_LEARNED)
        } else if same_text(s, "NTF_ROUTER") {
            Some(NdFlags::NTF_ROUTER)
        } else {
            None
        }
    }

    proof fn lemma_name_round_trip(self) {
        reveal_strlit("NTF_USE");
        reveal_strlit("NTF_SELF");
        reveal_strlit("NTF_MASTER");
        reveal_strlit("NTF_PROXY");
        reveal_strlit("NTF_EXT_LEARNED");
        reveal_strlit("NTF_ROUTER");
        assert("NTF_USE"@.len() == 7);
        assert("NTF_SELF"@.len() == 8);
        assert("NTF_MASTER"@.len() == 10);
        assert("NTF_PROXY"@.len() == 9);
        assert("NTF_EXT_LEARNED"@.len() == 15);
        assert("NTF_ROUTER"@.len() == 10);
        assert("NTF_MASTER"@[4] == 'M');
        assert("NTF_ROUTER"@[4] == 'R');
    }
}

impl Default for NdFlags {
    /// The constant with the lowest number.
    fn default() -> (r: NdFlags)
        ensures
            r == NdFlags::NTF_USE,
    {
        NdFlags::NTF_USE
    }
}

impl FlagTable for NdFlags {
    open spec fn spec_max_value() -> u32 {
        0x80
    }

    fn max_value() -> (r: u32) {
        0x80
    }
}

/// Kinds of neighbour attribute (`NDA_*`).
#[allow(non_camel_case_types)]
#[derive(Clone, Copy, Debug, PartialEq, Eq, Structural)]
pub enum NdAttr {
    NDA_UNSPEC,
    NDA_DST,
    NDA_LLADDR,
    NDA_CACHEINFO,
    NDA_PROBES,
    NDA_VLAN,
    NDA_PORT,
    NDA_VNI,
    NDA_IFINDEX,
    NDA_MASTER,
    NDA_LINK_NETNSID,
}

impl Table for NdAttr {
    open spec fn spec_value(self) -> u32 {
        match self {
            NdAttr::NDA_UNSPEC => 0,
            NdAttr::NDA_DST => 1,
            NdAttr::NDA_LLADDR => 2,
            NdAttr::NDA_CACHEINFO => 3,
            NdAttr::NDA_PROBES => 4,
            NdAttr::NDA_VLAN => 5,
            NdAttr::NDA_PORT => 6,
            NdAttr::NDA_VNI => 7,
            NdAttr::NDA_IFINDEX => 8,
            NdAttr::NDA_MASTER => 9,
            NdAttr::NDA_LINK_NETNSID => 10,
        }
    }

    open spec fn spec_from_value(v: u32) -> Option<Self> {
        if v == 0 {
            Some(NdAttr::NDA_UNSPEC)
        } else if v == 1 {
            Some(NdAttr::NDA_DST)
        } else if v == 2 {
            Some(NdAttr::NDA_LLADDR)
        } else if v == 3 {
            Some(NdAttr::NDA_CACHEINFO)
        } else if v == 4 {
            Some(NdAttr::NDA_PROBES)
        } else if v == 5 {
            Some(NdAttr::NDA_VLAN)
        } else if v == 6 {
            Some(NdAttr::NDA_PORT)
        } else if v == 7 {
            Some(NdAttr::NDA_VNI)
        } else if v == 8 {
            Some(NdAttr::NDA_IFINDEX)
        } else if v == 9 {
            Some(NdAttr::NDA_MASTER)
        } else if v == 10 {
            Some(NdAttr::NDA_LINK_NETNSID)
        } else {
            None
        }
    }

    open spec fn spec_name(self) -> Seq<char> {
        match self {
            NdAttr::NDA_UNSPEC => "NDA_UNSPEC"@,
            NdAttr::NDA_DST => "NDA_DST"@,
            NdAttr::NDA_LLADDR => "NDA_LLADDR"@,
            NdAttr::NDA_CACHEINFO => "NDA_CACHEINFO"@,
            NdAttr::NDA_PROBES => "NDA_PROBES"@,
            NdAttr::NDA_VLAN => "NDA_VLAN"@,
            NdAttr::NDA_PORT => "NDA_PORT"@,
            NdAttr::NDA_VNI => "NDA_VNI"@,
            NdAttr::NDA_IFINDEX => "NDA_IFINDEX"@,
            NdAttr::NDA_MASTER => "NDA_MASTER"@,
            NdAttr::NDA_LINK_NETNSID => "NDA_LINK_NETNSID"@,
        }
    }

    fn value(self) -> (r: u32) {
        match self {
            NdAttr::NDA_UNSPEC => 0,
            NdAttr::NDA_DST => 1,
            NdAttr::NDA_LLADDR => 2,
            NdAttr::NDA_CACHEINFO => 3,
            NdAttr::NDA_PROBES => 4,
            NdAttr::NDA_VLAN => 5,
            NdAttr::NDA_PORT => 6,
            NdAttr::NDA_VNI => 7,
            NdAttr::NDA_IFINDEX => 8,
            NdAttr::NDA_MASTER => 9,
            NdAttr::NDA_LINK_NETNSID => 10,
        }
    }

    fn from_value(v: u32) -> (r: Option<Self>) {
        match v {
            0 => Some(NdAttr::NDA_UNSPEC),
            1 => Some(NdAttr::NDA_DST),
            2 => Some(NdAttr::NDA_LLADDR),
            3 => Some(NdAttr::NDA_CACHEINFO),
            4 => Some(NdAttr::NDA_PROBES),
            5 => Some(NdAttr::NDA_VLAN),
            6 => Some(NdAttr::NDA_PORT),
            7 => Some(NdAttr::NDA_VNI),
            8 => Some(NdAttr::NDA_IFINDEX),
            9 => Some(NdAttr::NDA_MASTER),
            10 => Some(NdAttr::NDA_LINK_NETNSID),
            _ => None,
        }
    }

    fn name(self) -> (r: &'static str) {
        match self {
            NdAttr::NDA_UNSPEC => "NDA_UNSPEC",
            NdAttr::NDA_DST => "NDA_DST",
            NdAttr::NDA_LLADDR => "NDA_LLADDR",
            NdAttr::NDA_CACHEINFO => "NDA_CACHEINFO",
            NdAttr::NDA_PROBES => "NDA_PROBES",
            NdAttr::NDA_VLAN => "NDA_VLAN",
            NdAttr::NDA_PORT => "NDA_PORT",
            NdAttr::NDA_VNI => "NDA_VNI",
            NdAttr::NDA_IFINDEX => "NDA_IFINDEX",
            NdAttr::NDA_MASTER => "NDA_MASTER",
            NdAttr::NDA_LINK_NETNSID => "NDA_LINK_NETNSID",
        }
    }

    proof fn lemma_value_round_trip(self) {
    }

    proof fn lemma_from_value_exact(v: u32) {
    }

    open spec fn spec_from_str(s: Seq<char>) -> Option<Self> {
        if s == "NDA_UNSPEC"@ {
            Some(NdAttr::NDA_UNSPEC)
        } else if s == "NDA_DST"@ {
            Some(NdAttr::NDA_DST)
        } else if s == "NDA_LLADDR"@ {
            Some(NdAttr::NDA_LLADDR)
        } else if s == "NDA_CACHEINFO"@ {
            Some(NdAttr::NDA_CACHEINFO)
        } else if s == "NDA_PROBES"@ {
            Some(NdAttr::NDA_PROBES)
        } else if s == "NDA_VLAN"@ {
            Some(NdAttr::NDA_VLAN)
        } else if s == "NDA_PORT"@ {
            Some(NdAttr::NDA_PORT)
        } else if s == "NDA_VNI"@ {
            Some(NdAttr::NDA_VNI)
        } else if s == "NDA_IFINDEX"@ {
            Some(NdAttr::NDA_IFINDEX)
        } else if s == "NDA_MASTER"@ {
            Some(NdAttr::NDA_MASTER)
        } else if s == "NDA_LINK_NETNSID"@ {
            Some(NdAttr::NDA_LINK_NETNSID)
        } else {
            None
        }
    }

    fn from_str(s: &str) -> (r: Option<Self>) {
        if same_text(s, "NDA_UNSPEC") {
            Some(NdAttr::NDA_UNSPEC)
        } else if same_text(s, "NDA_DST") {
            Some(NdAttr::NDA_DST)
        } else if same_text(s, "NDA_LLADDR") {
            Some(NdAttr::NDA_LLADDR)
        } else if same_text(s, "NDA_CACHEINFO") {
            Some(NdAttr::NDA_CACHEINFO)
        } else if same_text(s, "NDA_PROBES") {
            Some(NdAttr::NDA_PROBES)
        } else if same_text(s, "NDA_VLAN") {
            Some(NdAttr::NDA_VLAN)
        } else if same_text(s, "NDA_PORT") {
            Some(NdAttr::NDA_PORT)
        } else if same_text(s, "NDA_VNI") {
            Some(NdAttr::NDA_VNI)
        } else if same_text(s, "NDA_IFINDEX") {
            Some(NdAttr::NDA_IFINDEX)
        } else if same_text(s, "NDA_MASTER") {
            Some(NdAttr::NDA_MASTER)
        } else if same_text(s, "NDA_LINK_NETNSID") {
            Some(NdAttr::NDA_LINK_NETNSID)
        } else {
            None
        }
    }

    proof fn lemma_name_round_trip(self) {
        reveal_strlit("NDA_UNSPEC");
        reveal_strlit("NDA_DST");
        reveal_strlit("NDA_LLADDR");
        reveal_strlit("NDA_CACHEINFO");
        reveal_strlit("NDA_PROBES");
        reveal_strlit("NDA_VLAN");
        reveal_strlit("NDA_PORT");
        reveal_strlit("NDA_VNI");
        reveal_strlit("NDA_IFINDEX");
        reveal_strlit("NDA_MASTER");
        reveal_strlit("NDA_LINK_NETNSID");
        assert("NDA_UNSPEC"@.len() == 10);
        assert("NDA_DST"@.len() == 7);
        assert("NDA_LLADDR"@.len() == 10);
        assert("NDA_CACHEINFO"@.len() == 13);
        assert("NDA_PROBES"@.len() == 10);
        assert("NDA_VLAN"@.len() == 8);
        assert("NDA_PORT"@.len() == 8);
        assert("NDA_VNI"@.len() == 7);
        assert("NDA_IFINDEX"@.len() == 11);
        assert("NDA_MASTER"@.len() == 10);
        assert("NDA_LINK_NETNSID"@.len() == 16);
        assert("NDA_DST"@[4] == 'D');
        assert("NDA_VNI"@[4] == 'V');
        assert("NDA_VLAN"@[4] == 'V');
        assert("NDA_PORT"@[4] == 'P');
        assert("NDA_UNSPEC"@[4] == 'U');
        assert("NDA_LLADDR"@[4] == 'L');
        assert("NDA_PROBES"@[4] == 'P');
        assert("NDA_MASTER"@[4] == 'M');
    }
}

impl Default for NdAttr {
    /// The constant with the lowest number.
    fn default() -> (r: NdAttr)
        ensures
            r == NdAttr::NDA_UNSPEC,
    {
        NdAttr::NDA_UNSPEC
    }
}

} // verus!
