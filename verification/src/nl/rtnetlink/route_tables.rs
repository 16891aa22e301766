//! Tables of the route messages: route types, origins, scopes, table ids,
//! flags and route attribute kinds.

use vstd::prelude::*;
use crate::nl::table::{same_text, FlagTable, Table};

verus! {

/// Route types (`RTN_*`).
#[allow(non_camel_case_types)]
#[derive(Clone, Copy, Debug, PartialEq, Eq, Structural)]
pub enum Rtn {
    RTN_UNSPEC,
    RTN_UNICAST,
    RTN_LOCAL,
    RTN_BROADCAST,
    RTN_ANYCAST,
    RTN_MULTICAST,
    RTN_BLACKHOLE,
    RTN_UNREACHABLE,
    RTN_PROHIBIT,
    RTN_THROW,
    RTN_NAT,
    RTN_XRESOLVE,
}

impl Table for Rtn {
    open spec fn spec_value(self) -> u32 {
        match self {
            Rtn::RTN_UNSPEC => 0,
            Rtn::RTN_UNICAST => 1,
            Rtn::RTN_LOCAL => 2,
            Rtn::RTN_BROADCAST => 3,
            Rtn::RTN_ANYCAST => 4,
            Rtn::RTN_MULTICAST => 5,
            Rtn::RTN_BLACKHOLE => 6,
            Rtn::RTN_UNREACHABLE => 7,
            Rtn::RTN_PROHIBIT => 8,
            Rtn::RTN_THROW => 9,
            Rtn::RTN_NAT => 10,
            Rtn::RTN_XRESOLVE => 11,
        }
    }

    open spec fn spec_from_value(v: u32) -> Option<Self> {
        if v == 0 {
            Some(Rtn::RTN_UNSPEC)
        } else if v == 1 {
            Some(Rtn::RTN_UNICAST)
        } else if v == 2 {
            Some(Rtn::RTN_LOCAL)
        } else if v == 3 {
            Some(Rtn::RTN_BROADCAST)
        } else if v == 4 {
            Some(Rtn::RTN_ANYCAST)
        } else if v == 5 {
            Some(Rtn::RTN_MULTICAST)
        } else if v == 6 {
            Some(Rtn::RTN_BLACKHOLE)
        } else if v == 7 {
            Some(Rtn::RTN_UNREACHABLE)
        } else if v == 8 {
            Some(Rtn::RTN_PROHIBIT)
        } else if v == 9 {
            Some(Rtn::RTN_THROW)
        } else if v == 10 {
            Some(Rtn::RTN_NAT)
        } else if v == 11 {
            Some(Rtn::RTN_XRESOLVE)
        } else {
            None
        }
    }

    open spec fn spec_name(self) -> Seq<char> {
        match self {
            Rtn::RTN_UNSPEC => "RTN_UNSPEC"@,
            Rtn::RTN_UNICAST => "RTN_UNICAST"@,
            Rtn::RTN_LOCAL => "RTN_LOCAL"@,
            Rtn::RTN_BROADCAST => "RTN_BROADCAST"@,
            Rtn::RTN_ANYCAST => "RTN_ANYCAST"@,
            Rtn::RTN_MULTICAST => "RTN_MULTICAST"@,
            Rtn::RTN_BLACKHOLE => "RTN_BLACKHOLE"@,
            Rtn::RTN_UNREACHABLE => "RTN_UNREACHABLE"@,
            Rtn::RTN_PROHIBIT => "RTN_PROHIBIT"@,
            Rtn::RTN_THROW => "RTN_THROW"@,
            Rtn::RTN_NAT => "RTN_NAT"@,
            Rtn::RTN_XRESOLVE => "RTN_XRESOLVE"@,
        }
    }

    fn value(self) -> (r: u32) {
        match self {
            Rtn::RTN_UNSPEC => 0,
            Rtn::RTN_UNICAST => 1,
            Rtn::RTN_LOCAL => 2,
            Rtn::RTN_BROADCAST => 3,
            Rtn::RTN_ANYCAST => 4,
            Rtn::RTN_MULTICAST => 5,
            Rtn::RTN_BLACKHOLE => 6,
            Rtn::RTN_UNREACHABLE => 7,
            Rtn::RTN_PROHIBIT => 8,
            Rtn::RTN_THROW => 9,
            Rtn::RTN_NAT => 10,
            Rtn::RTN_XRESOLVE => 11,
        }
    }

    fn from_value(v: u32) -> (r: Option<Self>) {
        match v {
            0 => Some(Rtn::RTN_UNSPEC),
            1 => Some(Rtn::RTN_UNICAST),
            2 => Some(Rtn::RTN_LOCAL),
            3 => Some(Rtn::RTN_BROADCAST),
            4 => Some(Rtn::RTN_ANYCAST),
            5 => Some(Rtn::RTN_MULTICAST),
            6 => Some(Rtn::RTN_BLACKHOLE),
            7 => Some(Rtn::RTN_UNREACHABLE),
            8 => Some(Rtn::RTN_PROHIBIT),
            9 => Some(Rtn::RTN_THROW),
            10 => Some(Rtn::RTN_NAT),
            11 => Some(Rtn::RTN_XRESOLVE),
            _ => None,
        }
    }

    fn name(self) -> (r: &'static str) {
        match self {
            Rtn::RTN_UNSPEC => "RTN_UNSPEC",
            Rtn::RTN_UNICAST => "RTN_UNICAST",
            Rtn::RTN_LOCAL => "RTN_LOCAL",
            Rtn::RTN_BROADCAST => "RTN_BROADCAST",
            Rtn::RTN_ANYCAST => "RTN_ANYCAST",
            Rtn::RTN_MULTICAST => "RTN_MULTICAST",
            Rtn::RTN_BLACKHOLE => "RTN_BLACKHOLE",
            Rtn::RTN_UNREACHABLE => "RTN_UNREACHABLE",
            Rtn::RTN_PROHIBIT => "RTN_PROHIBIT",
            Rtn::RTN_THROW => "RTN_THROW",
            Rtn::RTN_NAT => "RTN_NAT",
            Rtn::RTN_XRESOLVE => "RTN_XRESOLVE",
        }
    }

    proof fn lemma_value_round_trip(self) {
    }

    proof fn lemma_from_value_exact(v: u32) {
    }

    open spec fn spec_from_str(s: Seq<char>) -> Option<Self> {
        if s == "RTN_UNSPEC"@ {
            Some(Rtn::RTN_UNSPEC)
        } else if s == "RTN_UNICAST"@ {
            Some(Rtn::RTN_UNICAST)
        } else if s == "RTN_LOCAL"@ {
            Some(Rtn::RTN_LOCAL)
        } else if s == "RTN_BROADCAST"@ {
            Some(Rtn::RTN_BROADCAST)
        } else if s == "RTN_ANYCAST"@ {
            Some(Rtn::RTN_ANYCAST)
        } else if s == "RTN_MULTICAST"@ {
            Some(Rtn::RTN_MULTICAST)
        } else if s == "RTN_BLACKHOLE"@ {
            Some(Rtn::RTN_BLACKHOLE)
        } else if s == "RTN_UNREACHABLE"@ {
            Some(Rtn::RTN_UNREACHABLE)
        } else if s == "RTN_PROHIBIT"@ {
            Some(Rtn::RTN_PROHIBIT)
        } else if s == "RTN_THROW"@ {
            Some(Rtn::RTN_THROW)
        } else if s == "RTN_NAT"@ {
            Some(Rtn::RTN_NAT)
        } else if s == "RTN_XRESOLVE"@ {
            Some(Rtn::RTN_XRESOLVE)
        } else {
            None
        }
    }

    fn from_str(s: &str) -> (r: Option<Self>) {
        if same_text(s, "RTN_UNSPEC") {
            Some(Rtn::RTN_UNSPEC)
        } else if same_text(s, "RTN_UNICAST") {
            Some(Rtn::RTN_UNICAST)
        } else if same_text(s, "RTN_LOCAL") {
            Some(Rtn::RTN_LOCAL)
        } else if same_text(s, "RTN_BROADCAST") {
            Some(Rtn::RTN_BROADCAST)
        } else if same_text(s, "RTN_ANYCAST") {
            Some(Rtn::RTN_ANYCAST)
        } else if same_text(s, "RTN_MULTICAST") {
            Some(Rtn::RTN_MULTICAST)
        } else if same_text(s, "RTN_BLACKHOLE") {
            Some(Rtn::RTN_BLACKHOLE)
        } else if same_text(s, "RTN_UNREACHABLE") {
            Some(Rtn::RTN_UNREACHABLE)
        } else if same_text(s, "RTN_PROHIBIT") {
            Some(Rtn::RTN_PROHIBIT)
        } else if same_text(s, "RTN_THROW") {
            Some(Rtn::RTN_THROW)
        } else if same_text(s, "RTN_NAT") {
            Some(Rtn::RTN_NAT)
        } else if same_text(s, "RTN_XRESOLVE") {
            Some(Rtn::RTN_XRESOLVE)
        } else {
            None
        }
    }

    proof fn lemma_name_round_trip(self) {
        reveal_strlit("RTN_UNSPEC");
        reveal_strlit("RTN_UNICAST");
        reveal_strlit("RTN_LOCAL");
        reveal_strlit("RTN_BROADCAST");
        reveal_strlit("RTN_ANYCAST");
        reveal_strlit("RTN_MULTICAST");
        reveal_strlit("RTN_BLACKHOLE");
        reveal_strlit("RTN_UNREACHABLE");
        reveal_strlit("RTN_PROHIBIT");
        reveal_strlit("RTN_THROW");
        reveal_strlit("RTN_NAT");
        reveal_strlit("RTN_XRESOLVE");
        assert("RTN_UNSPEC"@.len() == 10);
        assert("RTN_UNICAST"@.len() == 11);
        assert("RTN_LOCAL"@.len() == 9);
        assert("RTN_BROADCAST"@.len() == 13);
        assert("RTN_ANYCAST"@.len() == 11);
        assert("RTN_MULTICAST"@.len() == 13);
        assert("RTN_BLACKHOLE"@.len() == 13);
        assert("RTN_UNREACHABLE"@.len() == 15);
        assert("RTN_PROHIBIT"@.len() == 12);
        assert("RTN_THROW"@.len() == 9);
        assert("RTN_NAT"@.len() == 7);
        assert("RTN_XRESOLVE"@.len() == 12);
        assert("RTN_LOCAL"@[4] == 'L');
        assert("RTN_THROW"@[4] == 'T');
        assert("RTN_UNICAST"@[4] == 'U');
        assert("RTN_ANYCAST"@[4] == 'A');
        assert("RTN_PROHIBIT"@[4] == 'P');
        assert("RTN_XRESOLVE"@[4] == 'X');
        assert("RTN_BROADCAST"@[5] == 'R');
        assert("RTN_MULTICAST"@[5] == 'U');
        assert("RTN_BLACKHOLE"@[5] == 'L');
    }
}

impl Default for Rtn {
    /// The constant with the lowest number.
    fn default() -> (r: Rtn)
        ensures
            r == Rtn::RTN_UNSPEC,
    {
        Rtn::RTN_UNSPEC
    }
}

/// Who installed a route (`RTPROT_*`).
#[allow(non_camel_case_types)]
#[derive(Clone, Copy, Debug, PartialEq, Eq, Structural)]
pub enum Rtprot {
    RTPROT_UNSPEC,
    RTPROT_REDIRECT,
    RTPROT_KERNEL,
    RTPROT_BOOT,
    RTPROT_STATIC,
    RTPROT_GATED,
    RTPROT_RA,
    RTPROT_MRT,
    RTPROT_ZEBRA,
    RTPROT_BIRD,
    RTPROT_DNROUTED,
    RTPROT_XORP,
    RTPROT_NTK,
    RTPROT_DHCP,
    RTPROT_MROUTED,
    RTPROT_BABEL,
}

impl Table for Rtprot {
    open spec fn spec_value(self) -> u32 {
        match self {
            Rtprot::RTPROT_UNSPEC => 0,
            Rtprot::RTPROT_REDIRECT => 1,
            Rtprot::RTPROT_KERNEL => 2,
            Rtprot::RTPROT_BOOT => 3,
            Rtprot::RTPROT_STATIC => 4,
            Rtprot::RTPROT_GATED => 8,
            Rtprot::RTPROT_RA => 9,
            Rtprot::RTPROT_MRT => 10,
            Rtprot::RTPROT_ZEBRA => 11,
            Rtprot::RTPROT_BIRD => 12,
            Rtprot::RTPROT_DNROUTED => 13,
            Rtprot::RTPROT_XORP => 14,
            Rtprot::RTPROT_NTK => 15,
            Rtprot::RTPROT_DHCP => 16,
            Rtprot::RTPROT_MROUTED => 17,
            Rtprot::RTPROT_BABEL => 42,
        }
    }

    open spec fn spec_from_value(v: u32) -> Option<Self> {
        if v == 0 {
            Some(Rtprot::RTPROT_UNSPEC)
        } else if v == 1 {
            Some(Rtprot::RTPROT_REDIRECT)
        } else if v == 2 {
            Some(Rtprot::RTPROT_KERNEL)
        } else if v == 3 {
            Some(Rtprot::RTPROT_BOOT)
        } else if v == 4 {
            Some(Rtprot::RTPROT_STATIC)
        } else if v == 8 {
            Some(Rtprot::RTPROT_GATED)
        } else if v == 9 {
            Some(Rtprot::RTPROT_RA)
        } else if v == 10 {
            Some(Rtprot::RTPROT_MRT)
        } else if v == 11 {
            Some(Rtprot::RTPROT_ZEBRA)
        } else if v == 12 {
            Some(Rtprot::RTPROT_BIRD)
        } else if v == 13 {
            Some(Rtprot::RTPROT_DNROUTED)
        } else if v == 14 {
            Some(Rtprot::RTPROT_XORP)
        } else if v == 15 {
            Some(Rtprot::RTPROT_NTK)
        } else if v == 16 {
            Some(Rtprot::RTPROT_DHCP)
        } else if v == 17 {
            Some(Rtprot::RTPROT_MROUTED)
        } else if v == 42 {
            Some(Rtprot::RTPROT_BABEL)
        } else {
            None
        }
    }

    open spec fn spec_name(self) -> Seq<char> {
        match self {
            Rtprot::RTPROT_UNSPEC => "RTPROT_UNSPEC"@,
            Rtprot::RTPROT_REDIRECT => "RTPROT_REDIRECT"@,
            Rtprot::RTPROT_KERNEL => "RTPROT_KERNEL"@,
            Rtprot::RTPROT_BOOT => "RTPROT_BOOT"@,
            Rtprot::RTPROT_STATIC => "RTPROT_STATIC"@,
            Rtprot::RTPROT_GATED => "RTPROT_GATED"@,
            Rtprot::RTPROT_RA => "RTPROT_RA"@,
            Rtprot::RTPROT_MRT => "RTPROT_MRT"@,
            Rtprot::RTPROT_ZEBRA => "RTPROT_ZEBRA"@,
            Rtprot::RTPROT_BIRD => "RTPROT_BIRD"@,
            Rtprot::RTPROT_DNROUTED => "RTPROT_DNROUTED"@,
            Rtprot::RTPROT_XORP => "RTPROT_XORP"@,
            Rtprot::RTPROT_NTK => "RTPROT_NTK"@,
            Rtprot::RTPROT_DHCP => "RTPROT_DHCP"@,
            Rtprot::RTPROT_MROUTED => "RTPROT_MROUTED"@,
            Rtprot::RTPROT_BABEL => "RTPROT_BABEL"@,
        }
    }

    fn value(self) -> (r: u32) {
        match self {
            Rtprot::RTPROT_UNSPEC => 0,
            Rtprot::RTPROT_REDIRECT => 1,
            Rtprot::RTPROT_KERNEL => 2,
            Rtprot::RTPROT_BOOT => 3,
            Rtprot::RTPROT_STATIC => 4,
            Rtprot::RTPROT_GATED => 8,
            Rtprot::RTPROT_RA => 9,
            Rtprot::RTPROT_MRT => 10,
            Rtprot::RTPROT_ZEBRA => 11,
            Rtprot::RTPROT_BIRD => 12,
            Rtprot::RTPROT_DNROUTED => 13,
            Rtprot::RTPROT_XORP => 14,
            Rtprot::RTPROT_NTK => 15,
            Rtprot::RTPROT_DHCP => 16,
            Rtprot::RTPROT_MROUTED => 17,
            Rtprot::RTPROT_BABEL => 42,
        }
    }

    fn from_value(v: u32) -> (r: Option<Self>) {
        match v {
            0 => Some(Rtprot::RTPROT_UNSPEC),
            1 => Some(Rtprot::RTPROT_REDIRECT),
            2 => Some(Rtprot::RTPROT_KERNEL),
            3 => Some(Rtprot::RTPROT_BOOT),
            4 => Some(Rtprot::RTPROT_STATIC),
            8 => Some(Rtprot::RTPROT_GATED),
            9 => Some(Rtprot::RTPROT_RA),
            10 => Some(Rtprot::RTPROT_MRT),
            11 => Some(Rtprot::RTPROT_ZEBRA),
            12 => Some(Rtprot::RTPROT_BIRD),
            13 => Some(Rtprot::RTPROT_DNROUTED),
            14 => Some(Rtprot::RTPROT_XORP),
            15 => Some(Rtprot::RTPROT_NTK),
            16 => Some(Rtprot::RTPROT_DHCP),
            17 => Some(Rtprot::RTPROT_MROUTED),
            42 => Some(Rtprot::RTPROT_BABEL),
            _ => None,
        }
    }

    fn name(self) -> (r: &'static str) {
        match self {
            Rtprot::RTPROT_UNSPEC => "RTPROT_UNSPEC",
            Rtprot::RTPROT_REDIRECT => "RTPROT_REDIRECT",
            Rtprot::RTPROT_KERNEL => "RTPROT_KERNEL",
            Rtprot::RTPROT_BOOT => "RTPROT_BOOT",
            Rtprot::RTPROT_STATIC => "RTPROT_STATIC",
            Rtprot::RTPROT_GATED => "RTPROT_GATED",
            Rtprot::RTPROT_RA => "RTPROT_RA",
            Rtprot::RTPROT_MRT => "RTPROT_MRT",
            Rtprot::RTPROT_ZEBRA => "RTPROT_ZEBRA",
            Rtprot::RTPROT_BIRD => "RTPROT_BIRD",
            Rtprot::RTPROT_DNROUTED => "RTPROT_DNROUTED",
            Rtprot::RTPROT_XORP => "RTPROT_XORP",
            Rtprot::RTPROT_NTK => "RTPROT_NTK",
            Rtprot::RTPROT_DHCP => "RTPROT_DHCP",
            Rtprot::RTPROT_MROUTED => "RTPROT_MROUTED",
            Rtprot::RTPROT_BABEL => "RTPROT_BABEL",
        }
    }

    proof fn lemma_value_round_trip(self) {
    }

    proof fn lemma_from_value_exact(v: u32) {
    }

    open spec fn spec_from_str(s: Seq<char>) -> Option<Self> {
        if s == "RTPROT_UNSPEC"@ {
            Some(Rtprot::RTPROT_UNSPEC)
        } else if s == "RTPROT_REDIRECT"@ {
            Some(Rtprot::RTPROT_REDIRECT)
        } else if s == "RTPROT_KERNEL"@ {
            Some(Rtprot::RTPROT_KERNEL)
        } else if s == "RTPROT_BOOT"@ {
            Some(Rtprot::RTPROT_BOOT)
        } else if s == "RTPROT_STATIC"@ {
            Some(Rtprot::RTPROT_STATIC)
        } else if s == "RTPROT_GATED"@ {
            Some(Rtprot::RTPROT_GATED)
        } else if s == "RTPROT_RA"@ {
            Some(Rtprot::RTPROT_RA)
        } else if s == "RTPROT_MRT"@ {
            Some(Rtprot::RTPROT_MRT)
        } else if s == "RTPROT_ZEBRA"@ {
            Some(Rtprot::RTPROT_ZEBRA)
        } else if s == "RTPROT_BIRD"@ {
            Some(Rtprot::RTPROT_BIRD)
        } else if s == "RTPROT_DNROUTED"@ {
            Some(Rtprot::RTPROT_DNROUTED)
        } else if s == "RTPROT_XORP"@ {
            Some(Rtprot::RTPROT_XORP)
        } else if s == "RTPROT_NTK"@ {
            Some(Rtprot::RTPROT_NTK)
        } else if s == "RTPROT_DHCP"@ {
            Some(Rtprot::RTPROT_DHCP)
        } else if s == "RTPROT_MROUTED"@ {
            Some(Rtprot::RTPROT_MROUTED)
        } else if s == "RTPROT_BABEL"@ {
            Some(Rtprot::RTPROT_BABEL)
        } else {
            None
        }
    }

    fn from_str(s: &str) -> (r: Option<Self>) {
        if same_text(s, "RTPROT_UNSPEC") {
            Some(Rtprot::RTPROT_UNSPEC)
        } else if same_text(s, "RTPROT_REDIRECT") {
            Some(Rtprot::RTPROT_REDIRECT)
        } else if same_text(s, "RTPROT_KERNEL") {
            Some(Rtprot::RTPROT_KERNEL)
        } else if same_text(s, "RTPROT_BOOT") {
            Some(Rtprot::RTPROT_BOOT)
        } else if same_text(s, "RTPROT_STATIC") {
            Some(Rtprot::RTPROT_STATIC)
        } else if same_text(s, "RTPROT_GATED") {
            Some(Rtprot::RTPROT_GATED)
        } else if same_text(s, "RTPROT_RA") {
            Some(Rtprot::RTPROT_RA)
        } else if same_text(s, "RTPROT_MRT") {
            Some(Rtprot::RTPROT_MRT)
        } else if same_text(s, "RTPROT_ZEBRA") {
            Some(Rtprot::RTPROT_ZEBRA)
        } else if same_text(s, "RTPROT_BIRD") {
            Some(Rtprot::RTPROT_BIRD)
        } else if same_text(s, "RTPROT_DNROUTED") {
            Some(Rtprot::RTPROT_DNROUTED)
        } else if same_text(s, "RTPROT_XORP") {
            Some(Rtprot::RTPROT_XORP)
        } else if same_text(s, "RTPROT_NTK") {
            Some(Rtprot::RTPROT_NTK)
        } else if same_text(s, "RTPROT_DHCP") {
            Some(Rtprot::RTPROT_DHCP)
        } else if same_text(s, "RTPROT_MROUTED") {
            Some(Rtprot::RTPROT_MROUTED)
        } else if same_text(s, "RTPROT_BABEL") {
            Some(Rtprot::RTPROT_BABEL)
        } else {
            None
        }
    }

    proof fn lemma_name_round_trip(self) {
        reveal_strlit("RTPROT_UNSPEC");
        reveal_strlit("RTPROT_REDIRECT");
        reveal_strlit("RTPROT_KERNEL");
        reveal_strlit("RTPROT_BOOT");
        reveal_strlit("RTPROT_STATIC");
        reveal_strlit("RTPROT_GATED");
        reveal_strlit("RTPROT_RA");
        reveal_strlit("RTPROT_MRT");
        reveal_strlit("RTPROT_ZEBRA");
        reveal_strlit("RTPROT_BIRD");
        reveal_strlit("RTPROT_DNROUTED");
        reveal_strlit("RTPROT_XORP");
        reveal_strlit("RTPROT_NTK");
        reveal_strlit("RTPROT_DHCP");
        reveal_strlit("RTPROT_MROUTED");
        reveal_strlit("RTPROT_BABEL");
        assert("RTPROT_UNSPEC"@.len() == 13);
        assert("RTPROT_REDIRECT"@.len() == 15);
        assert("RTPROT_KERNEL"@.len() == 13);
        assert("RTPROT_BOOT"@.len() == 11);
        assert("RTPROT_STATIC"@.len() == 13);
        assert("RTPROT_GATED"@.len() == 12);
        assert("RTPROT_RA"@.len() == 9);
        assert("RTPROT_MRT"@.len() == 10);
        assert("RTPROT_ZEBRA"@.len() == 12);
        assert("RTPROT_BIRD"@.len() == 11);
        assert("RTPROT_DNROUTED"@.len() == 15);
        assert("RTPROT_XORP"@.len() == 11);
        assert("RTPROT_NTK"@.len() == 10);
        assert("RTPROT_DHCP"@.len() == 11);
        assert("RTPROT_MROUTED"@.len() == 14);
        assert("RTPROT_BABEL"@.len() == 12);
        assert("RTPROT_MRT"@[7] == 'M');
        assert("RTPROT_NTK"@[7] == 'N');
        assert("RTPROT_BOOT"@[7] == 'B');
        assert("RTPROT_BOOT"@[8] == 'O');
        assert("RTPROT_BIRD"@[7] == 'B');
        assert("RTPROT_BIRD"@[8] == 'I');
        assert("RTPROT_XORP"@[7] == 'X');
        assert("RTPROT_XORP"@[8] == 'O');
        assert("RTPROT_DHCP"@[7] == 'D');
        assert("RTPROT_DHCP"@[8] == 'H');
        assert("RTPROT_GATED"@[7] == 'G');
        assert("RTPROT_ZEBRA"@[7] == 'Z');
        assert("RTPROT_BABEL"@[7] == 'B');
        assert("RTPROT_UNSPEC"@[7] == 'U');
        assert("RTPROT_KERNEL"@[7] == 'K');
        assert("RTPROT_STATIC"@[7] == 'S');
        assert("RTPROT_REDIRECT"@[7] == 'R');
        assert("RTPROT_DNROUTED"@[7] == 'D');
    }
}

impl Default for Rtprot {
    /// The constant with the lowest number.
    fn default() -> (r: Rtprot)
        ensures
            r == Rtprot::RTPROT_UNSPEC,
    {
        Rtprot::RTPROT_UNSPEC
    }
}

/// The named route scopes (`RT_SCOPE_*`); the numbers between them are left to
/// the user.
#[allow(non_camel_case_types)]
#[derive(Clone, Copy, Debug, PartialEq, Eq, Structural)]
pub enum RtScope {
    RT_SCOPE_UNIVERSE,
    RT_SCOPE_SITE,
    RT_SCOPE_LINK,
    RT_SCOPE_HOST,
    RT_SCOPE_NOWHERE,
}

impl Table for RtScope {
    open spec fn spec_value(self) -> u32 {
        match self {
            RtScope::RT_SCOPE_UNIVERSE => 0,
            RtScope::RT_SCOPE_SITE => 200,
            RtScope::RT_SCOPE_LINK => 253,
            RtScope::RT_SCOPE_HOST => 254,
            RtScope::RT_SCOPE_NOWHERE => 255,
        }
    }

    open spec fn spec_from_value(v: u32) -> Option<Self> {
        if v == 0 {
            Some(RtScope::RT_SCOPE_UNIVERSE)
        } else if v == 200 {
            Some(RtScope::RT_SCOPE_SITE)
        } else if v == 253 {
            Some(RtScope::RT_SCOPE_LINK)
        } else if v == 254 {
            Some(RtScope::RT_SCOPE_HOST)
        } else if v == 255 {
            Some(RtScope::RT_SCOPE_NOWHERE)
        } else {
            None
        }
    }

    open spec fn spec_name(self) -> Seq<char> {
        match self {
            RtScope::RT_SCOPE_UNIVERSE => "RT_SCOPE_UNIVERSE"@,
            RtScope::RT_SCOPE_SITE => "RT_SCOPE_SITE"@,
            RtScope::RT_SCOPE_LINK => "RT_SCOPE_LINK"@,
            RtScope::RT_SCOPE_HOST => "RT_SCOPE_HOST"@,
            RtScope::RT_SCOPE_NOWHERE => "RT_SCOPE_NOWHERE"@,
        }
    }

    fn value(self) -> (r: u32) {
        match self {
            RtScope::RT_SCOPE_UNIVERSE => 0,
            RtScope::RT_SCOPE_SITE => 200,
            RtScope::RT_SCOPE_LINK => 253,
            RtScope::RT_SCOPE_HOST => 254,
            RtScope::RT_SCOPE_NOWHERE => 255,
        }
    }

    fn from_value(v: u32) -> (r: Option<Self>) {
        match v {
            0 => Some(RtScope::RT_SCOPE_UNIVERSE),
            200 => Some(RtScope::RT_SCOPE_SITE),
            253 => Some(RtScope::RT_SCOPE_LINK),
            254 => Some(RtScope::RT_SCOPE_HOST),
            255 => Some(RtScope::RT_SCOPE_NOWHERE),
            _ => None,
        }
    }

    fn name(self) -> (r: &'static str) {
        match self {
            RtScope::RT_SCOPE_UNIVERSE => "RT_SCOPE_UNIVERSE",
            RtScope::RT_SCOPE_SITE => "RT_SCOPE_SITE",
            RtScope::RT_SCOPE_LINK => "RT_SCOPE_LINK",
            RtScope::RT_SCOPE_HOST => "RT_SCOPE_HOST",
            RtScope::RT_SCOPE_NOWHERE => "RT_SCOPE_NOWHERE",
        }
    }

    proof fn lemma_value_round_trip(self) {
    }

    proof fn lemma_from_value_exact(v: u32) {
    }

    open spec fn spec_from_str(s: Seq<char>) -> Option<Self> {
        if s == "RT_SCOPE_UNIVERSE"@ {
            Some(RtScope::RT_SCOPE_UNIVERSE)
        } else if s == "RT_SCOPE_SITE"@ {
            Some(RtScope::RT_SCOPE_SITE)
        } else if s == "RT_SCOPE_LINK"@ {
            Some(RtScope::RT_SCOPE_LINK)
        } else if s == "RT_SCOPE_HOST"@ {
            Some(RtScope::RT_SCOPE_HOST)
        } else if s == "RT_SCOPE_NOWHERE"@ {
            Some(RtScope::RT_SCOPE_NOWHERE)
        } else {
            None
        }
    }

    fn from_str(s: &str) -> (r: Option<Self>) {
        if same_text(s, "RT_SCOPE_UNIVERSE") {
            Some(RtScope::RT_SCOPE_UNIVERSE)
        } else if same_text(s, "RT_SCOPE_SITE") {
            Some(RtScope::RT_SCOPE_SITE)
        } else if same_text(s, "RT_SCOPE_LINK") {
            Some(RtScope::RT_SCOPE_LINK)
        } else if same_text(s, "RT_SCOPE_HOST") {
            Some(RtScope::RT_SCOPE_HOST)
        } else if same_text(s, "RT_SCOPE_NOWHERE") {
            Some(RtScope::RT_SCOPE_NOWHERE)
        } else {
            None
        }
    }

    proof fn lemma_name_round_trip(self) {
        reveal_strlit("RT_SCOPE_UNIVERSE");
        reveal_strlit("RT_SCOPE_SITE");
        reveal_strlit("RT_SCOPE_LINK");
        reveal_strlit("RT_SCOPE_HOST");
        reveal_strlit("RT_SCOPE_NOWHERE");
        assert("RT_SCOPE_UNIVERSE"@.len() == 17);
        assert("RT_SCOPE_SITE"@.len() == 13);
        assert("RT_SCOPE_LINK"@.len() == 13);
        assert("RT_SCOPE_HOST"@.len() == 13);
        assert("RT_SCOPE_NOWHERE"@.len() == 16);
        assert("RT_SCOPE_SITE"@[9] == 'S');
        assert("RT_SCOPE_LINK"@[9] == 'L');
        assert("RT_SCOPE_HOST"@[9] == 'H');
    }
}

impl Default for RtScope {
    /// The constant with the lowest number.
    fn default() -> (r: RtScope)
        ensures
            r == RtScope::RT_SCOPE_UNIVERSE,
    {
        RtScope::RT_SCOPE_UNIVERSE
    }
}

/// The reserved routing table ids (`RT_TABLE_*`); the numbers between them are
/// left to the user.
#[allow(non_camel_case_types)]
#[derive(Clone, Copy, Debug, PartialEq, Eq, Structural)]
pub enum RtTable {
    RT_TABLE_UNSPEC,
    RT_TABLE_COMPAT,
    RT_TABLE_DEFAULT,
    RT_TABLE_MAIN,
    RT_TABLE_LOCAL,
}

impl Table for RtTable {
    open spec fn spec_value(self) -> u32 {
        match self {
            RtTable::RT_TABLE_UNSPEC => 0,
            RtTable::RT_TABLE_COMPAT => 252,
            RtTable::RT_TABLE_DEFAULT => 253,
            RtTable::RT_TABLE_MAIN => 254,
            RtTable::RT_TABLE_LOCAL => 255,
        }
    }

    open spec fn spec_from_value(v: u32) -> Option<Self> {
        if v == 0 {
            Some(RtTable::RT_TABLE_UNSPEC)
        } else if v == 252 {
            Some(RtTable::RT_TABLE_COMPAT)
        } else if v == 253 {
            Some(RtTable::RT_TABLE_DEFAULT)
        } else if v == 254 {
            Some(RtTable::RT_TABLE_MAIN)
        } else if v == 255 {
            Some(RtTable::RT_TABLE_LOCAL)
        } else {
            None
        }
    }

    open spec fn spec_name(self) -> Seq<char> {
        match self {
            RtTable::RT_TABLE_UNSPEC => "RT_TABLE_UNSPEC"@,
            RtTable::RT_TABLE_COMPAT => "RT_TABLE_COMPAT"@,
            RtTable::RT_TABLE_DEFAULT => "RT_TABLE_DEFAULT"@,
            RtTable::RT_TABLE_MAIN => "RT_TABLE_MAIN"@,
            RtTable::RT_TABLE_LOCAL => "RT_TABLE_LOCAL"@,
        }
    }

    fn value(self) -> (r: u32) {
        match self {
            RtTable::RT_TABLE_UNSPEC => 0,
            RtTable::RT_TABLE_COMPAT => 252,
            RtTable::RT_TABLE_DEFAULT => 253,
            RtTable::RT_TABLE_MAIN => 254,
            RtTable::RT_TABLE_LOCAL => 255,
        }
    }

    fn from_value(v: u32) -> (r: Option<Self>) {
        match v {
            0 => Some(RtTable::RT_TABLE_UNSPEC),
            252 => Some(RtTable::RT_TABLE_COMPAT),
            253 => Some(RtTable::RT_TABLE_DEFAULT),
            254 => Some(RtTable::RT_TABLE_MAIN),
            255 => Some(RtTable::RT_TABLE_LOCAL),
            _ => None,
        }
    }

    fn name(self) -> (r: &'static str) {
        match self {
            RtTable::RT_TABLE_UNSPEC => "RT_TABLE_UNSPEC",
            RtTable::RT_TABLE_COMPAT => "RT_TABLE_COMPAT",
            RtTable::RT_TABLE_DEFAULT => "RT_TABLE_DEFAULT",
            RtTable::RT_TABLE_MAIN => "RT_TABLE_MAIN",
            RtTable::RT_TABLE_LOCAL => "RT_TABLE_LOCAL",
        }
    }

    proof fn lemma_value_round_trip(self) {
    }

    proof fn lemma_from_value_exact(v: u32) {
    }

    open spec fn spec_from_str(s: Seq<char>) -> Option<Self> {
        if s == "RT_TABLE_UNSPEC"@ {
            Some(RtTable::RT_TABLE_UNSPEC)
        } else if s == "RT_TABLE_COMPAT"@ {
            Some(RtTable::RT_TABLE_COMPAT)
        } else if s == "RT_TABLE_DEFAULT"@ {
            Some(RtTable::RT_TABLE_DEFAULT)
        } else if s == "RT_TABLE_MAIN"@ {
            Some(RtTable::RT_TABLE_MAIN)
        } else if s == "RT_TABLE_LOCAL"@ {
            Some(RtTable::RT_TABLE_LOCAL)
        } else {
            None
        }
    }

    fn from_str(s: &str) -> (r: Option<Self>) {
        if same_text(s, "RT_TABLE_UNSPEC") {
            Some(RtTable::RT_TABLE_UNSPEC)
        } else if same_text(s, "RT_TABLE_COMPAT") {
            Some(RtTable::RT_TABLE_COMPAT)
        } else if same_text(s, "RT_TABLE_DEFAULT") {
            Some(RtTable::RT_TABLE_DEFAULT)
        } else if same_text(s, "RT_TABLE_MAIN") {
            Some(RtTable::RT_TABLE_MAIN)
        } else if same_text(s, "RT_TABLE_LOCAL") {
            Some(RtTable::RT_TABLE_LOCAL)
        } else {
            None
        }
    }

    proof fn lemma_name_round_trip(self) {
        reveal_strlit("RT_TABLE_UNSPEC");
        reveal_strlit("RT_TABLE_COMPAT");
        reveal_strlit("RT_TABLE_DEFAULT");
        reveal_strlit("RT_TABLE_MAIN");
        reveal_strlit("RT_TABLE_LOCAL");
        assert("RT_TABLE_UNSPEC"@.len() == 15);
        assert("RT_TABLE_COMPAT"@.len() == 15);
        assert("RT_TABLE_DEFAULT"@.len() == 16);
        assert("RT_TABLE_MAIN"@.len() == 13);
        assert("RT_TABLE_LOCAL"@.len() == 14);
        assert("RT_TABLE_UNSPEC"@[9] == 'U');
        assert("RT_TABLE_COMPAT"@[9] == 'C');
    }
}

impl Default for RtTable {
    /// The constant with the lowest number.
    fn default() -> (r: RtTable)
        ensures
            r == RtTable::RT_TABLE_UNSPEC,
    {
        RtTable::RT_TABLE_UNSPEC
    }
}

/// Route flags (`RTM_F_*`), one bit each.
#[allow(non_camel_case_types)]
#[derive(Clone, Copy, Debug, PartialEq, Eq, Structural)]
pub enum RtmFlags {
    RTM_F_NOTIFY,
    RTM_F_CLONED,
    RTM_F_EQUALIZE,
    RTM_F_PREFIX,
}

impl Table for RtmFlags {
    open spec fn spec_value(self) -> u32 {
        match self {
            RtmFlags::RTM_F_NOTIFY => 0x100,
            RtmFlags::RTM_F_CLONED => 0x200,
            RtmFlags::RTM_F_EQUALIZE => 0x400,
            RtmFlags::RTM_F_PREFIX => 0x800,
        }
    }

    open spec fn spec_from_value(v: u32) -> Option<Self> {
        if v == 0x100 {
            Some(RtmFlags::RTM_F_NOTIFY)
        } else if v == 0x200 {
            Some(RtmFlags::RTM_F_CLONED)
        } else if v == 0x400 {
            Some(RtmFlags::RTM_F_EQUALIZE)
        } else if v == 0x800 {
            Some(RtmFlags::RTM_F_PREFIX)
        } else {
            None
        }
    }

    open spec fn spec_name(self) -> Seq<char> {
        match self {
            RtmFlags::RTM_F_NOTIFY => "RTM_F_NOTIFY"@,
            RtmFlags::RTM_F_CLONED => "RTM_F_CLONED"@,
            RtmFlags::RTM_F_EQUALIZE => "RTM_F_EQUALIZE"@,
            RtmFlags::RTM_F_PREFIX => "RTM_F_PREFIX"@,
        }
    }

    fn value(self) -> (r: u32) {
        match self {
            RtmFlags::RTM_F_NOTIFY => 0x100,
            RtmFlags::RTM_F_CLONED => 0x200,
            RtmFlags::RTM_F_EQUALIZE => 0x400,
            RtmFlags::RTM_F_PREFIX => 0x800,
        }
    }

    fn from_value(v: u32) -> (r: Option<Self>) {
        match v {
            0x100 => Some(RtmFlags::RTM_F_NOTIFY),
            0x200 => Some(RtmFlags::RTM_F_CLONED),
            0x400 => Some(RtmFlags::RTM_F_EQUALIZE),
            0x800 => Some(RtmFlags::RTM_F_PREFIX),
            _ => None,
        }
    }

    fn name(self) -> (r: &'static str) {
        match self {
            RtmFlags::RTM_F_NOTIFY => "RTM_F_NOTIFY",
            RtmFlags::RTM_F_CLONED => "RTM_F_CLONED",
            RtmFlags::RTM_F_EQUALIZE => "RTM_F_EQUALIZE",
            RtmFlags::RTM_F_PREFIX => "RTM_F_PREFIX",
        }
    }

    proof fn lemma_value_round_trip(self) {
    }

    proof fn lemma_from_value_exact(v: u32) {
    }

    open spec fn spec_from_str(s: Seq<char>) -> Option<Self> {
        if s == "RTM_F_NOTIFY"@ {
            Some(RtmFlags::RTM_F_NOTIFY)
        } else if s == "RTM_F_CLONED"@ {
            Some(RtmFlags::RTM_F_CLONED)
        } else if s == "RTM_F_EQUALIZE"@ {
            Some(RtmFlags::RTM_F_EQUALIZE)
        } else if s == "RTM_F_PREFIX"@ {
            Some(RtmFlags::RTM_F_PREFIX)
        } else {
            None
        }
    }

    fn from_str(s: &str) -> (r: Option<Self>) {
        if same_text(s, "RTM_F_NOTIFY") {
            Some(RtmFlags::RTM_F_NOTIFY)
        } else if same_text(s, "RTM_F_CLONED") {
            Some(RtmFlags::RTM_F_CLONED)
        } else if same_text(s, "RTM_F_EQUALIZE") {
            Some(RtmFlags::RTM_F_EQUALIZE)
        } else if same_text(s, "RTM_F_PREFIX") {
            Some(RtmFlags::RTM_F_PREFIX)
        } else {
            None
        }
    }

    proof fn lemma_name_round_trip(self) {
        reveal_strlit("RTM_F_NOTIFY");
        reveal_strlit("RTM_F_CLONED");
        reveal_strlit("RTM_F_EQUALIZE");
        reveal_strlit("RTM_F_PREFIX");
        assert("RTM_F_NOTIFY"@.len() == 12);
        assert("RTM_F_CLONED"@.len() == 12);
        assert("RTM_F_EQUALIZE"@.len() == 14);
        assert("RTM_F_PREFIX"@.len() == 12);
        assert("RTM_F_NOTIFY"@[6] == 'N');
        assert("RTM_F_CLONED"@[6] == 'C');
        assert("RTM_F_PREFIX"@[6] == 'P');
    }
}

impl Default for RtmFlags {
    /// The constant with the lowest number.
    fn default() -> (r: RtmFlags)
        ensures
            r == RtmFlags::RTM_F_NOTIFY,
    {
        RtmFlags::RTM_F_NOTIFY
    }
}

impl FlagTable for RtmFlags {
    open spec fn spec_max_value() -> u32 {
        0x800
    }

    fn max_value() -> (r: u32) {
        0x800
    }
}

/// Kinds of route attribute (`RTA_*`).
#[allow(non_camel_case_types)]
#[derive(Clone, Copy, Debug, PartialEq, Eq, Structural)]
pub enum RtmAttr {
    RTA_UNSPEC,
    RTA_DST,
    RTA_SRC,
    RTA_IIF,
    RTA_OIF,
    RTA_GATEWAY,
    RTA_PRIORITY,
    RTA_PREFSRC,
    RTA_METRICS,
    RTA_MULTIPATH,
    RTA_PROTOINFO,
    RTA_FLOW,
    RTA_CACHEINFO,
    RTA_SESSION,
    RTA_MP_ALGO,
    RTA_TABLE,
    RTA_MARK,
    RTA_MFC_STATS,
    RTA_VIA,
    RTA_NEWDST,
    RTA_PREF,
}

impl Table for RtmAttr {
    open spec fn spec_value(self) -> u32 {
        match self {
            RtmAttr::RTA_UNSPEC => 0,
            RtmAttr::RTA_DST => 1,
            RtmAttr::RTA_SRC => 2,
            RtmAttr::RTA_IIF => 3,
            RtmAttr::RTA_OIF => 4,
            RtmAttr::RTA_GATEWAY => 5,
            RtmAttr::RTA_PRIORITY => 6,
            RtmAttr::RTA_PREFSRC => 7,
            RtmAttr::RTA_METRICS => 8,
            RtmAttr::RTA_MULTIPATH => 9,
            RtmAttr::RTA_PROTOINFO => 10,
            RtmAttr::RTA_FLOW => 11,
            RtmAttr::RTA_CACHEINFO => 12,
            RtmAttr::RTA_SESSION => 13,
            RtmAttr::RTA_MP_ALGO => 14,
            RtmAttr::RTA_TABLE => 15,
            RtmAttr::RTA_MARK => 16,
            RtmAttr::RTA_MFC_STATS => 17,
            RtmAttr::RTA_VIA => 18,
            RtmAttr::RTA_NEWDST => 19,
            RtmAttr::RTA_PREF => 20,
        }
    }

    open spec fn spec_from_value(v: u32) -> Option<Self> {
        if v == 0 {
            Some(RtmAttr::RTA_UNSPEC)
        } else if v == 1 {
            Some(RtmAttr::RTA_DST)
        } else if v == 2 {
            Some(RtmAttr::RTA_SRC)
        } else if v == 3 {
            Some(RtmAttr::RTA_IIF)
        } else if v == 4 {
            Some(RtmAttr::RTA_OIF)
        } else if v == 5 {
            Some(RtmAttr::RTA_GATEWAY)
        } else if v == 6 {
            Some(RtmAttr::RTA_PRIORITY)
        } else if v == 7 {
            Some(RtmAttr::RTA_PREFSRC)
        } else if v == 8 {
            Some(RtmAttr::RTA_METRICS)
        } else if v == 9 {
            Some(RtmAttr::RTA_MULTIPATH)
        } else if v == 10 {
            Some(RtmAttr::RTA_PROTOINFO)
        } else if v == 11 {
            Some(RtmAttr::RTA_FLOW)
        } else if v == 12 {
            Some(RtmAttr::RTA_CACHEINFO)
        } else if v == 13 {
            Some(RtmAttr::RTA_SESSION)
        } else if v == 14 {
            Some(RtmAttr::RTA_MP_ALGO)
        } else if v == 15 {
            Some(RtmAttr::RTA_TABLE)
        } else if v == 16 {
            Some(RtmAttr::RTA_MARK)
        } else if v == 17 {
            Some(RtmAttr::RTA_MFC_STATS)
        } else if v == 18 {
            Some(RtmAttr::RTA_VIA)
        } else if v == 19 {
            Some(RtmAttr::RTA_NEWDST)
        } else if v == 20 {
            Some(RtmAttr::RTA_PREF)
        } else {
            None
        }
    }

    open spec fn spec_name(self) -> Seq<char> {
        match self {
            RtmAttr::RTA_UNSPEC => "RTA_UNSPEC"@,
            RtmAttr::RTA_DST => "RTA_DST"@,
            RtmAttr::RTA_SRC => "RTA_SRC"@,
            RtmAttr::RTA_IIF => "RTA_IIF"@,
            RtmAttr::RTA_OIF => "RTA_OIF"@,
            RtmAttr::RTA_GATEWAY => "RTA_GATEWAY"@,
            RtmAttr::RTA_PRIORITY => "RTA_PRIORITY"@,
            RtmAttr::RTA_PREFSRC => "RTA_PREFSRC"@,
            RtmAttr::RTA_METRICS => "RTA_METRICS"@,
            RtmAttr::RTA_MULTIPATH => "RTA_MULTIPATH"@,
            RtmAttr::RTA_PROTOINFO => "RTA_PROTOINFO"@,
            RtmAttr::RTA_FLOW => "RTA_FLOW"@,
            RtmAttr::RTA_CACHEINFO => "RTA_CACHEINFO"@,
            RtmAttr::RTA_SESSION => "RTA_SESSION"@,
            RtmAttr::RTA_MP_ALGO => "RTA_MP_ALGO"@,
            RtmAttr::RTA_TABLE => "RTA_TABLE"@,
            RtmAttr::RTA_MARK => "RTA_MARK"@,
            RtmAttr::RTA_MFC_STATS => "RTA_MFC_STATS"@,
            RtmAttr::RTA_VIA => "RTA_VIA"@,
            RtmAttr::RTA_NEWDST => "RTA_NEWDST"@,
            RtmAttr::RTA_PREF => "RTA_PREF"@,
        }
    }

    fn value(self) -> (r: u32) {
        match self {
            RtmAttr::RTA_UNSPEC => 0,
            RtmAttr::RTA_DST => 1,
            RtmAttr::RTA_SRC => 2,
            RtmAttr::RTA_IIF => 3,
            RtmAttr::RTA_OIF => 4,
            RtmAttr::RTA_GATEWAY => 5,
            RtmAttr::RTA_PRIORITY => 6,
            RtmAttr::RTA_PREFSRC => 7,
            RtmAttr::RTA_METRICS => 8,
            RtmAttr::RTA_MULTIPATH => 9,
            RtmAttr::RTA_PROTOINFO => 10,
            RtmAttr::RTA_FLOW => 11,
            RtmAttr::RTA_CACHEINFO => 12,
            RtmAttr::RTA_SESSION => 13,
            RtmAttr::RTA_MP_ALGO => 14,
            RtmAttr::RTA_TABLE => 15,
            RtmAttr::RTA_MARK => 16,
            RtmAttr::RTA_MFC_STATS => 17,
            RtmAttr::RTA_VIA => 18,
            RtmAttr::RTA_NEWDST => 19,
            RtmAttr::RTA_PREF => 20,
        }
    }

    fn from_value(v: u32) -> (r: Option<Self>) {
        match v {
            0 => Some(RtmAttr::RTA_UNSPEC),
            1 => Some(RtmAttr::RTA_DST),
            2 => Some(RtmAttr::RTA_SRC),
            3 => Some(RtmAttr::RTA_IIF),
            4 => Some(RtmAttr::RTA_OIF),
            5 => Some(RtmAttr::RTA_GATEWAY),
            6 => Some(RtmAttr::RTA_PRIORITY),
            7 => Some(RtmAttr::RTA_PREFSRC),
            8 => Some(RtmAttr::RTA_METRICS),
            9 => Some(RtmAttr::RTA_MULTIPATH),
            10 => Some(RtmAttr::RTA_PROTOINFO),
            11 => Some(RtmAttr::RTA_FLOW),
            12 => Some(RtmAttr::RTA_CACHEINFO),
            13 => Some(RtmAttr::RTA_SESSION),
            14 => Some(RtmAttr::RTA_MP_ALGO),
            15 => Some(RtmAttr::RTA_TABLE),
            16 => Some(RtmAttr::RTA_MARK),
            17 => Some(RtmAttr::RTA_MFC_STATS),
            18 => Some(RtmAttr::RTA_VIA),
            19 => Some(RtmAttr::RTA_NEWDST),
            20 => Some(RtmAttr::RTA_PREF),
            _ => None,
        }
    }

    fn name(self) -> (r: &'static str) {
        match self {
            RtmAttr::RTA_UNSPEC => "RTA_UNSPEC",
            RtmAttr::RTA_DST => "RTA_DST",
            RtmAttr::RTA_SRC => "RTA_SRC",
            RtmAttr::RTA_IIF => "RTA_IIF",
            RtmAttr::RTA_OIF => "RTA_OIF",
            RtmAttr::RTA_GATEWAY => "RTA_GATEWAY",
            RtmAttr::RTA_PRIORITY => "RTA_PRIORITY",
            RtmAttr::RTA_PREFSRC => "RTA_PREFSRC",
            RtmAttr::RTA_METRICS => "RTA_METRICS",
            RtmAttr::RTA_MULTIPATH => "RTA_MULTIPATH",
            RtmAttr::RTA_PROTOINFO => "RTA_PROTOINFO",
            RtmAttr::RTA_FLOW => "RTA_FLOW",
            RtmAttr::RTA_CACHEINFO => "RTA_CACHEINFO",
            RtmAttr::RTA_SESSION => "RTA_SESSION",
            RtmAttr::RTA_MP_ALGO => "RTA_MP_ALGO",
            RtmAttr::RTA_TABLE => "RTA_TABLE",
            RtmAttr::RTA_MARK => "RTA_MARK",
            RtmAttr::RTA_MFC_STATS => "RTA_MFC_STATS",
            RtmAttr::RTA_VIA => "RTA_VIA",
            RtmAttr::RTA_NEWDST => "RTA_NEWDST",
            RtmAttr::RTA_PREF => "RTA_PREF",
        }
    }

    proof fn lemma_value_round_trip(self) {
    }

    proof fn lemma_from_value_exact(v: u32) {
    }

    open spec fn spec_from_str(s: Seq<char>) -> Option<Self> {
        if s == "RTA_UNSPEC"@ {
            Some(RtmAttr::RTA_UNSPEC)
        } else if s == "RTA_DST"@ {
            Some(RtmAttr::RTA_DST)
        } else if s == "RTA_SRC"@ {
            Some(RtmAttr::RTA_SRC)
        } else if s == "RTA_IIF"@ {
            Some(RtmAttr::RTA_IIF)
        } else if s == "RTA_OIF"@ {
            Some(RtmAttr::RTA_OIF)
        } else if s == "RTA_GATEWAY"@ {
            Some(RtmAttr::RTA_GATEWAY)
        } else if s == "RTA_PRIORITY"@ {
            Some(RtmAttr::RTA_PRIORITY)
        } else if s == "RTA_PREFSRC"@ {
            Some(RtmAttr::RTA_PREFSRC)
        } else if s == "RTA_METRICS"@ {
            Some(RtmAttr::RTA_METRICS)
        } else if s == "RTA_MULTIPATH"@ {
            Some(RtmAttr::RTA_MULTIPATH)
        } else if s == "RTA_PROTOINFO"@ {
            Some(RtmAttr::RTA_PROTOINFO)
        } else if s == "RTA_FLOW"@ {
            Some(RtmAttr::RTA_FLOW)
        } else if s == "RTA_CACHEINFO"@ {
            Some(RtmAttr::RTA_CACHEINFO)
        } else if s == "RTA_SESSION"@ {
            Some(RtmAttr::RTA_SESSION)
        } else if s == "RTA_MP_ALGO"@ {
            Some(RtmAttr::RTA_MP_ALGO)
        } else if s == "RTA_TABLE"@ {
            Some(RtmAttr::RTA_TABLE)
        } else if s == "RTA_MARK"@ {
            Some(RtmAttr::RTA_MARK)
        } else if s == "RTA_MFC_STATS"@ {
            Some(RtmAttr::RTA_MFC_STATS)
        } else if s == "RTA_VIA"@ {
            Some(RtmAttr::RTA_VIA)
        } else if s == "RTA_NEWDST"@ {
            Some(RtmAttr::RTA_NEWDST)
        } else if s == "RTA_PREF"@ {
            Some(RtmAttr::RTA_PREF)
        } else {
            None
        }
    }

    fn from_str(s: &str) -> (r: Option<Self>) {
        if same_text(s, "RTA_UNSPEC") {
            Some(RtmAttr::RTA_UNSPEC)
        } else if same_text(s, "RTA_DST") {
            Some(RtmAttr::RTA_DST)
        } else if same_text(s, "RTA_SRC") {
            Some(RtmAttr::RTA_SRC)
        } else if same_text(s, "RTA_IIF") {
            Some(RtmAttr::RTA_IIF)
        } else if same_text(s, "RTA_OIF") {
            Some(RtmAttr::RTA_OIF)
        } else if same_text(s, "RTA_GATEWAY") {
            Some(RtmAttr::RTA_GATEWAY)
        } else if same_text(s, "RTA_PRIORITY") {
            Some(RtmAttr::RTA_PRIORITY)
        } else if same_text(s, "RTA_PREFSRC") {
            Some(RtmAttr::RTA_PREFSRC)
        } else if same_text(s, "RTA_METRICS") {
            Some(RtmAttr::RTA_METRICS)
        } else if same_text(s, "RTA_MULTIPATH") {
            Some(RtmAttr::RTA_MULTIPATH)
        } else if same_text(s, "RTA_PROTOINFO") {
            Some(RtmAttr::RTA_PROTOINFO)
        } else if same_text(s, "RTA_FLOW") {
            Some(RtmAttr::RTA_FLOW)
        } else if same_text(s, "RTA_CACHEINFO") {
            Some(RtmAttr::RTA_CACHEINFO)
        } else if same_text(s, "RTA_SESSION") {
            Some(RtmAttr::RTA_SESSION)
        } else if same_text(s, "RTA_MP_ALGO") {
            Some(RtmAttr::RTA_MP_ALGO)
        } else if same_text(s, "RTA_TABLE") {
            Some(RtmAttr::RTA_TABLE)
        } else if same_text(s, "RTA_MARK") {
            Some(RtmAttr::RTA_MARK)
        } else if same_text(s, "RTA_MFC_STATS") {
            Some(RtmAttr::RTA_MFC_STATS)
        } else if same_text(s, "RTA_VIA") {
            Some(RtmAttr::RTA_VIA)
        } else if same_text(s, "RTA_NEWDST") {
            Some(RtmAttr::RTA_NEWDST)
        } else if same_text(s, "RTA_PREF") {
            Some(RtmAttr::RTA_PREF)
        } else {
            None
        }
    }

    proof fn lemma_name_round_trip(self) {
        reveal_strlit("RTA_UNSPEC");
        reveal_strlit("RTA_DST");
        reveal_strlit("RTA_SRC");
        reveal_strlit("RTA_IIF");
        reveal_strlit("RTA_OIF");
        reveal_strlit("RTA_GATEWAY");
        reveal_strlit("RTA_PRIORITY");
        reveal_strlit("RTA_PREFSRC");
        reveal_strlit("RTA_METRICS");
        reveal_strlit("RTA_MULTIPATH");
        reveal_strlit("RTA_PROTOINFO");
        reveal_strlit("RTA_FLOW");
        reveal_strlit("RTA_CACHEINFO");
        reveal_strlit("RTA_SESSION");
        reveal_strlit("RTA_MP_ALGO");
        reveal_strlit("RTA_TABLE");
        reveal_strlit("RTA_MARK");
        reveal_strlit("RTA_MFC_STATS");
        reveal_strlit("RTA_VIA");
        reveal_strlit("RTA_NEWDST");
        reveal_strlit("RTA_PREF");
        assert("RTA_UNSPEC"@.len() == 10);
        assert("RTA_DST"@.len() == 7);
        assert("RTA_SRC"@.len() == 7);
        assert("RTA_IIF"@.len() == 7);
        assert("RTA_OIF"@.len() == 7);
        assert("RTA_GATEWAY"@.len() == 11);
        assert("RTA_PRIORITY"@.len() == 12);
        assert("RTA_PREFSRC"@.len() == 11);
        assert("RTA_METRICS"@.len() == 11);
        assert("RTA_MULTIPATH"@.len() == 13);
        assert("RTA_PROTOINFO"@.len() == 13);
        assert("RTA_FLOW"@.len() == 8);
        assert("RTA_CACHEINFO"@.len() == 13);
        assert("RTA_SESSION"@.len() == 11);
        assert("RTA_MP_ALGO"@.len() == 11);
        assert("RTA_TABLE"@.len() == 9);
        assert("RTA_MARK"@.len() == 8);
        assert("RTA_MFC_STATS"@.len() == 13);
        assert("RTA_VIA"@.len() == 7);
        assert("RTA_NEWDST"@.len() == 10);
        assert("RTA_PREF"@.len() == 8);
        assert("RTA_DST"@[4] == 'D');
        assert("RTA_SRC"@[4] == 'S');
        assert("RTA_IIF"@[4] == 'I');
        assert("RTA_OIF"@[4] == 'O');
        assert("RTA_VIA"@[4] == 'V');
        assert("RTA_FLOW"@[4] == 'F');
        assert("RTA_MARK"@[4] == 'M');
        assert("RTA_PREF"@[4] == 'P');
        assert("RTA_UNSPEC"@[4] == 'U');
        assert("RTA_NEWDST"@[4] == 'N');
        assert("RTA_GATEWAY"@[7] == 'E');
        assert("RTA_PREFSRC"@[7] == 'F');
        assert("RTA_METRICS"@[7] == 'R');
        assert("RTA_SESSION"@[7] == 'S');
        assert("RTA_MP_ALGO"@[7] == 'A');
        assert("RTA_MULTIPATH"@[5] == 'U');
        assert("RTA_PROTOINFO"@[5] == 'R');
        assert("RTA_CACHEINFO"@[5] == 'A');
        assert("RTA_MFC_STATS"@[5] == 'F');
    }
}

impl Default for RtmAttr {
    /// The constant with the lowest number.
    fn default() -> (r: RtmAttr)
        ensures
            r == RtmAttr::RTA_UNSPEC,
    {
        RtmAttr::RTA_UNSPEC
    }
}

} // verus!
