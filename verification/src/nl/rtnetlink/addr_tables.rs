//! Tables of the address messages: address flags and address attribute
//! kinds.

use vstd::prelude::*;
use crate::nl::table::{same_text, FlagTable, Table};

verus! {

/// Address flags (`IFA_F_*`), one bit each.
#[allow(non_camel_case_types)]
#[derive(Clone, Copy, Debug, PartialEq, Eq, Structural)]
pub enum IfaFlags {
    IFA_F_SECONDARY,
    IFA_F_NODAD,
    IFA_F_OPTIMISTIC,
    IFA_F_DADFAILED,
    IFA_F_HOMEADDRESS,
    IFA_F_DEPRECATED,
    IFA_F_TENTATIVE,
    IFA_F_PERMANENT,
    IFA_F_MANAGETEMPADDR,
    IFA_F_NOPREFIXROUTE,
    IFA_F_MCAUTOJOIN,
    IFA_F_STABLE_PRIVACY,
}

impl Table for IfaFlags {
    open spec fn spec_value(self) -> u32 {
        match self {
            IfaFlags::IFA_F_SECONDARY => 0x1,
            IfaFlags::IFA_F_NODAD => 0x2,
            IfaFlags::IFA_F_OPTIMISTIC => 0x4,
            IfaFlags::IFA_F_DADFAILED => 0x8,
            IfaFlags::IFA_F_HOMEADDRESS => 0x10,
            IfaFlags::IFA_F_DEPRECATED => 0x20,
            IfaFlags::IFA_F_TENTATIVE => 0x40,
            IfaFlags::IFA_F_PERMANENT => 0x80,
            IfaFlags::IFA_F_MANAGETEMPADDR => 0x100,
            IfaFlags::IFA_F_NOPREFIXROUTE => 0x200,
            IfaFlags::IFA_F_MCAUTOJOIN => 0x400,
            IfaFlags::IFA_F_STABLE_PRIVACY => 0x800,
        }
    }

    open spec fn spec_from_value(v: u32) -> Option<Self> {
        if v == 0x1 {
            Some(IfaFlags::IFA_F_SECONDARY)
        } else if v == 0x2 {
            Some(IfaFlags::IFA_F_NODAD)
        } else if v == 0x4 {
            Some(IfaFlags::IFA_F_OPTIMISTIC)
        } else if v == 0x8 {
            Some(IfaFlags::IFA_F_DADFAILED)
        } else if v == 0x10 {
            Some(IfaFlags::IFA_F_HOMEADDRESS)
        } else if v == 0x20 {
            Some(IfaFlags::IFA_F_DEPRECATED)
        } else if v == 0x40 {
            Some(IfaFlags::IFA_F_TENTATIVE)
        } else if v == 0x80 {
            Some(IfaFlags::IFA_F_PERMANENT)
        } else if v == 0x100 {
            Some(IfaFlags::IFA_F_MANAGETEMPADDR)
        } else if v == 0x200 {
            Some(IfaFlags::IFA_F_NOPREFIXROUTE)
        } else if v == 0x400 {
            Some(IfaFlags::IFA_F_MCAUTOJOIN)
        } else if v == 0x800 {
            Some(IfaFlags::IFA_F_STABLE_PRIVACY)
        } else {
            None
        }
    }

    open spec fn spec_name(self) -> Seq<char> {
        match self {
            IfaFlags::IFA_F_SECONDARY => "IFA_F_SECONDARY"@,
            IfaFlags::IFA_F_NODAD => "IFA_F_NODAD"@,
            IfaFlags::IFA_F_OPTIMISTIC => "IFA_F_OPTIMISTIC"@,
            IfaFlags::IFA_F_DADFAILED => "IFA_F_DADFAILED"@,
            IfaFlags::IFA_F_HOMEADDRESS => "IFA_F_HOMEADDRESS"@,
            IfaFlags::IFA_F_DEPRECATED => "IFA_F_DEPRECATED"@,
            IfaFlags::IFA_F_TENTATIVE => "IFA_F_TENTATIVE"@,
            IfaFlags::IFA_F_PERMANENT => "IFA_F_PERMANENT"@,
            IfaFlags::IFA_F_MANAGETEMPADDR => "IFA_F_MANAGETEMPADDR"@,
            IfaFlags::IFA_F_NOPREFIXROUTE => "IFA_F_NOPREFIXROUTE"@,
            IfaFlags::IFA_F_MCAUTOJOIN => "IFA_F_MCAUTOJOIN"@,
            IfaFlags::IFA_F_STABLE_PRIVACY => "IFA_F_STABLE_PRIVACY"@,
        }
    }

    fn value(self) -> (r: u32) {
        match self {
            IfaFlags::IFA_F_SECONDARY => 0x1,
            IfaFlags::IFA_F_NODAD => 0x2,
            IfaFlags::IFA_F_OPTIMISTIC => 0x4,
            IfaFlags::IFA_F_DADFAILED => 0x8,
            IfaFlags::IFA_F_HOMEADDRESS => 0x10,
            IfaFlags::IFA_F_DEPRECATED => 0x20,
            IfaFlags::IFA_F_TENTATIVE => 0x40,
            IfaFlags::IFA_F_PERMANENT => 0x80,
            IfaFlags::IFA_F_MANAGETEMPADDR => 0x100,
            IfaFlags::IFA_F_NOPREFIXROUTE => 0x200,
            IfaFlags::IFA_F_MCAUTOJOIN => 0x400,
            IfaFlags::IFA_F_STABLE_PRIVACY => 0x800,
        }
    }

    fn from_value(v: u32) -> (r: Option<Self>) {
        match v {
            0x1 => Some(IfaFlags::IFA_F_SECONDARY),
            0x2 => Some(IfaFlags::IFA_F_NODAD),
            0x4 => Some(IfaFlags::IFA_F_OPTIMISTIC),
            0x8 => Some(IfaFlags::IFA_F_DADFAILED),
            0x10 => Some(IfaFlags::IFA_F_HOMEADDRESS),
            0x20 => Some(IfaFlags::IFA_F_DEPRECATED),
            0x40 => Some(IfaFlags::IFA_F_TENTATIVE),
            0x80 => Some(IfaFlags::IFA_F_PERMANENT),
            0x100 => Some(IfaFlags::IFA_F_MANAGETEMPADDR),
            0x200 => Some(IfaFlags::IFA_F_NOPREFIXROUTE),
            0x400 => Some(IfaFlags::IFA_F_MCAUTOJOIN),
            0x800 => Some(IfaFlags::IFA_F_STABLE_PRIVACY),
            _ => None,
        }
    }

    fn name(self) -> (r: &'static str) {
        match self {
            IfaFlags::IFA_F_SECONDARY => "IFA_F_SECONDARY",
            IfaFlags::IFA_F_NODAD => "IFA_F_NODAD",
            IfaFlags::IFA_F_OPTIMISTIC => "IFA_F_OPTIMISTIC",
            IfaFlags::IFA_F_DADFAILED => "IFA_F_DADFAILED",
            IfaFlags::IFA_F_HOMEADDRESS => "IFA_F_HOMEADDRESS",
            IfaFlags::IFA_F_DEPRECATED => "IFA_F_DEPRECATED",
            IfaFlags::IFA_F_TENTATIVE => "IFA_F_TENTATIVE",
            IfaFlags::IFA_F_PERMANENT => "IFA_F_PERMANENT",
            IfaFlags::IFA_F_MANAGETEMPADDR => "IFA_F_MANAGETEMPADDR",
            IfaFlags::IFA_F_NOPREFIXROUTE => "IFA_F_NOPREFIXROUTE",
            IfaFlags::IFA_F_MCAUTOJOIN => "IFA_F_MCAUTOJOIN",
            IfaFlags::IFA_F_STABLE_PRIVACY => "IFA_F_STABLE_PRIVACY",
        }
    }

    proof fn lemma_value_round_trip(self) {
    }

    proof fn lemma_from_value_exact(v: u32) {
    }

    open spec fn spec_from_str(s: Seq<char>) -> Option<Self> {
        if s == "IFA_F_SECONDARY"@ {
            Some(IfaFlags::IFA_F_SECONDARY)
        } else if s == "IFA_F_NODAD"@ {
            Some(IfaFlags::IFA_F_NODAD)
        } else if s == "IFA_F_OPTIMISTIC"@ {
            Some(IfaFlags::IFA_F_OPTIMISTIC)
        } else if s == "IFA_F_DADFAILED"@ {
            Some(IfaFlags::IFA_F_DADFAILED)
        } else if s == "IFA_F_HOMEADDRESS"@ {
            Some(IfaFlags::IFA_F_HOMEADDRESS)
        } else if s == "IFA_F_DEPRECATED"@ {
            Some(IfaFlags::IFA_F_DEPRECATED)
        } else if s == "IFA_F_TENTATIVE"@ {
            Some(IfaFlags::IFA_F_TENTATIVE)
        } else if s == "IFA_F_PERMANENT"@ {
            Some(IfaFlags::IFA_F_PERMANENT)
        } else if s == "IFA_F_MANAGETEMPADDR"@ {
            Some(IfaFlags::IFA_F_MANAGETEMPADDR)
        } else if s == "IFA_F_NOPREFIXROUTE"@ {
            Some(IfaFlags::IFA_F_NOPREFIXROUTE)
        } else if s == "IFA_F_MCAUTOJOIN"@ {
            Some(IfaFlags::IFA_F_MCAUTOJOIN)
        } else if s == "IFA_F_STABLE_PRIVACY"@ {
            Some(IfaFlags::IFA_F_STABLE_PRIVACY)
        } else {
            None
        }
    }

    fn from_str(s: &str) -> (r: Option<Self>) {
        if same_text(s, "IFA_F_SECONDARY") {
            Some(IfaFlags::IFA_F_SECONDARY)
        } else if same_text(s, "IFA_F_NODAD") {
            Some(IfaFlags::IFA_F_NODAD)
        } else if same_text(s, "IFA_F_OPTIMISTIC") {
            Some(IfaFlags::IFA_F_OPTIMISTIC)
        } else if same_text(s, "IFA_F_DADFAILED") {
            Some(IfaFlags::IFA_F_DADFAILED)
        } else if same_text(s, "IFA_F_HOMEADDRESS") {
            Some(IfaFlags::IFA_F_HOMEADDRESS)
        } else if same_text(s, "IFA_F_DEPRECATED") {
            Some(IfaFlags::IFA_F_DEPRECATED)
        } else if same_text(s, "IFA_F_TENTATIVE") {
            Some(IfaFlags::IFA_F_TENTATIVE)
        } else if same_text(s, "IFA_F_PERMANENT") {
            Some(IfaFlags::IFA_F_PERMANENT)
        } else if same_text(s, "IFA_F_MANAGETEMPADDR") {
            Some(IfaFlags::IFA_F_MANAGETEMPADDR)
        } else if same_text(s, "IFA_F_NOPREFIXROUTE") {
            Some(IfaFlags::IFA_F_NOPREFIXROUTE)
        } else if same_text(s, "IFA_F_MCAUTOJOIN") {
            Some(IfaFlags::IFA_F_MCAUTOJOIN)
        } else if same_text(s, "IFA_F_STABLE_PRIVACY") {
            Some(IfaFlags::IFA_F_STABLE_PRIVACY)
        } else {
            None
        }
    }

    proof fn lemma_name_round_trip(self) {
        reveal_strlit("IFA_F_SECONDARY");
        reveal_strlit("IFA_F_NODAD");
        reveal_strlit("IFA_F_OPTIMISTIC");
        reveal_strlit("IFA_F_DADFAILED");
        reveal_strlit("IFA_F_HOMEADDRESS");
        reveal_strlit("IFA_F_DEPRECATED");
        reveal_strlit("IFA_F_TENTATIVE");
        reveal_strlit("IFA_F_PERMANENT");
        reveal_strlit("IFA_F_MANAGETEMPADDR");
        reveal_strlit("IFA_F_NOPREFIXROUTE");
        reveal_strlit("IFA_F_MCAUTOJOIN");
        reveal_strlit("IFA_F_STABLE_PRIVACY");
        assert("IFA_F_SECONDARY"@.len() == 15);
        assert("IFA_F_NODAD"@.len() == 11);
        assert("IFA_F_OPTIMISTIC"@.len() == 16);
        assert("IFA_F_DADFAILED"@.len() == 15);
        assert("IFA_F_HOMEADDRESS"@.len() == 17);
        assert("IFA_F_DEPRECATED"@.len() == 16);
        assert("IFA_F_TENTATIVE"@.len() == 15);
        assert("IFA_F_PERMANENT"@.len() == 15);
        assert("IFA_F_MANAGETEMPADDR"@.len() == 20);
        assert("IFA_F_NOPREFIXROUTE"@.len() == 19);
        assert("IFA_F_MCAUTOJOIN"@.len() == 16);
        assert("IFA_F_STABLE_PRIVACY"@.len() == 20);
        assert("IFA_F_SECONDARY"@[6] == 'S');
        assert("IFA_F_DADFAILED"@[6] == 'D');
        assert("IFA_F_TENTATIVE"@[6] == 'T');
        assert("IFA_F_PERMANENT"@[6] == 'P');
        assert("IFA_F_OPTIMISTIC"@[6] == 'O');
        assert("IFA_F_DEPRECATED"@[6] == 'D');
        assert("IFA_F_MCAUTOJOIN"@[6] == 'M');
        assert("IFA_F_MANAGETEMPADDR"@[6] == 'M');
        assert("IFA_F_STABLE_PRIVACY"@[6] == 'S');
    }
}

impl Default for IfaFlags {
    /// The constant with the lowest number.
    fn default() -> (r: IfaFlags)
        ensures
            r == IfaFlags::IFA_F_SECONDARY,
    {
        IfaFlags::IFA_F_SECONDARY
    }
}

impl FlagTable for IfaFlags {
    open spec fn spec_max_value() -> u32 {
        0x800
    }

    fn max_value() -> (r: u32) {
        0x800
    }
}

/// Kinds of address attribute (`IFA_*`).
#[allow(non_camel_case_types)]
#[derive(Clone, Copy, Debug, PartialEq, Eq, Structural)]
pub enum Ifa {
    IFA_UNSPEC,
    IFA_ADDRESS,
    IFA_LOCAL,
    IFA_LABEL,
    IFA_BROADCAST,
    IFA_ANYCAST,
    IFA_CACHEINFO,
    IFA_MULTICAST,
    IFA_FLAGS,
}

impl Table for Ifa {
    open spec fn spec_value(self) -> u32 {
        match self {
            Ifa::IFA_UNSPEC => 0,
            Ifa::IFA_ADDRESS => 1,
            Ifa::IFA_LOCAL => 2,
            Ifa::IFA_LABEL => 3,
            Ifa::IFA_BROADCAST => 4,
            Ifa::IFA_ANYCAST => 5,
            Ifa::IFA_CACHEINFO => 6,
            Ifa::IFA_MULTICAST => 7,
            Ifa::IFA_FLAGS => 8,
        }
    }

    open spec fn spec_from_value(v: u32) -> Option<Self> {
        if v == 0 {
            Some(Ifa::IFA_UNSPEC)
        } else if v == 1 {
            Some(Ifa::IFA_ADDRESS)
        } else if v == 2 {
            Some(Ifa::IFA_LOCAL)
        } else if v == 3 {
            Some(Ifa::IFA_LABEL)
        } else if v == 4 {
            Some(Ifa::IFA_BROADCAST)
        } else if v == 5 {
            Some(Ifa::IFA_ANYCAST)
        } else if v == 6 {
            Some(Ifa::IFA_CACHEINFO)
        } else if v == 7 {
            Some(Ifa::IFA_MULTICAST)
        } else if v == 8 {
            Some(Ifa::IFA_FLAGS)
        } else {
            None
        }
    }

    open spec fn spec_name(self) -> Seq<char> {
        match self {
            Ifa::IFA_UNSPEC => "IFA_UNSPEC"@,
            Ifa::IFA_ADDRESS => "IFA_ADDRESS"@,
            Ifa::IFA_LOCAL => "IFA_LOCAL"@,
            Ifa::IFA_LABEL => "IFA_LABEL"@,
            Ifa::IFA_BROADCAST => "IFA_BROADCAST"@,
            Ifa::IFA_ANYCAST => "IFA_ANYCAST"@,
            Ifa::IFA_CACHEINFO => "IFA_CACHEINFO"@,
            Ifa::IFA_MULTICAST => "IFA_MULTICAST"@,
            Ifa::IFA_FLAGS => "IFA_FLAGS"@,
        }
    }

    fn value(self) -> (r: u32) {
        match self {
            Ifa::IFA_UNSPEC => 0,
            Ifa::IFA_ADDRESS => 1,
            Ifa::IFA_LOCAL => 2,
            Ifa::IFA_LABEL => 3,
            Ifa::IFA_BROADCAST => 4,
            Ifa::IFA_ANYCAST => 5,
            Ifa::IFA_CACHEINFO => 6,
            Ifa::IFA_MULTICAST => 7,
            Ifa::IFA_FLAGS => 8,
        }
    }

    fn from_value(v: u32) -> (r: Option<Self>) {
        match v {
            0 => Some(Ifa::IFA_UNSPEC),
            1 => Some(Ifa::IFA_ADDRESS),
            2 => Some(Ifa::IFA_LOCAL),
            3 => Some(Ifa::IFA_LABEL),
            4 => Some(Ifa::IFA_BROADCAST),
            5 => Some(Ifa::IFA_ANYCAST),
            6 => Some(Ifa::IFA_CACHEINFO),
            7 => Some(Ifa::IFA_MULTICAST),
            8 => Some(Ifa::IFA_FLAGS),
            _ => None,
        }
    }

    fn name(self) -> (r: &'static str) {
        match self {
            Ifa::IFA_UNSPEC => "IFA_UNSPEC",
            Ifa::IFA_ADDRESS => "IFA_ADDRESS",
            Ifa::IFA_LOCAL => "IFA_LOCAL",
            Ifa::IFA_LABEL => "IFA_LABEL",
            Ifa::IFA_BROADCAST => "IFA_BROADCAST",
            Ifa::IFA_ANYCAST => "IFA_ANYCAST",
            Ifa::IFA_CACHEINFO => "IFA_CACHEINFO",
            Ifa::IFA_MULTICAST => "IFA_MULTICAST",
            Ifa::IFA_FLAGS => "IFA_FLAGS",
        }
    }

    proof fn lemma_value_round_trip(self) {
    }

    proof fn lemma_from_value_exact(v: u32) {
    }

    open spec fn spec_from_str(s: Seq<char>) -> Option<Self> {
        if s == "IFA_UNSPEC"@ {
            Some(Ifa::IFA_UNSPEC)
        } else if s == "IFA_ADDRESS"@ {
            Some(Ifa::IFA_ADDRESS)
        } else if s == "IFA_LOCAL"@ {
            Some(Ifa::IFA_LOCAL)
        } else if s == "IFA_LABEL"@ {
            Some(Ifa::IFA_LABEL)
        } else if s == "IFA_BROADCAST"@ {
            Some(Ifa::IFA_BROADCAST)
        } else if s == "IFA_ANYCAST"@ {
            Some(Ifa::IFA_ANYCAST)
        } else if s == "IFA_CACHEINFO"@ {
            Some(Ifa::IFA_CACHEINFO)
        } else if s == "IFA_MULTICAST"@ {
            Some(Ifa::IFA_MULTICAST)
        } else if s == "IFA_FLAGS"@ {
            Some(Ifa::IFA_FLAGS)
        } else {
            None
        }
    }

    fn from_str(s: &str) -> (r: Option<Self>) {
        if same_text(s, "IFA_UNSPEC") {
            Some(Ifa::IFA_UNSPEC)
        } else if same_text(s, "IFA_ADDRESS") {
            Some(Ifa::IFA_ADDRESS)
        } else if same_text(s, "IFA_LOCAL") {
            Some(Ifa::IFA_LOCAL)
        } else if same_text(s, "IFA_LABEL") {
            Some(Ifa::IFA_LABEL)
        } else if same_text(s, "IFA_BROADCAST") {
            Some(Ifa::IFA_BROADCAST)
        } else if same_text(s, "IFA_ANYCAST") {
            Some(Ifa::IFA_ANYCAST)
        } else if same_text(s, "IFA_CACHEINFO") {
            Some(Ifa::IFA_CACHEINFO)
        } else if same_text(s, "IFA_MULTICAST") {
            Some(Ifa::IFA_MULTICAST)
        } else if same_text(s, "IFA_FLAGS") {
            Some(Ifa::IFA_FLAGS)
        } else {
            None
        }
    }

    proof fn lemma_name_round_trip(self) {
        reveal_strlit("IFA_UNSPEC");
        reveal_strlit("IFA_ADDRESS");
        reveal_strlit("IFA_LOCAL");
        reveal_strlit("IFA_LABEL");
        reveal_strlit("IFA_BROADCAST");
        reveal_strlit("IFA_ANYCAST");
        reveal_strlit("IFA_CACHEINFO");
        reveal_strlit("IFA_MULTICAST");
        reveal_strlit("IFA_FLAGS");
        assert("IFA_UNSPEC"@.len() == 10);
        assert("IFA_ADDRESS"@.len() == 11);
        assert("IFA_LOCAL"@.len() == 9);
        assert("IFA_LABEL"@.len() == 9);
        assert("IFA_BROADCAST"@.len() == 13);
        assert("IFA_ANYCAST"@.len() == 11);
        assert("IFA_CACHEINFO"@.len() == 13);
        assert("IFA_MULTICAST"@.len() == 13);
        assert("IFA_FLAGS"@.len() == 9);
        assert("IFA_LOCAL"@[5] == 'O');
        assert("IFA_LABEL"@[5] == 'A');
        assert("IFA_FLAGS"@[5] == 'L');
        assert("IFA_ADDRESS"@[5] == 'D');
        assert("IFA_ANYCAST"@[5] == 'N');
        assert("IFA_BROADCAST"@[4] == 'B');
        assert("IFA_CACHEINFO"@[4] == 'C');
        assert("IFA_MULTICAST"@[4] == 'M');
    }
}

impl Default for Ifa {
    /// The constant with the lowest number.
    fn default() -> (r: Ifa)
        ensures
            r == Ifa::IFA_UNSPEC,
    {
        Ifa::IFA_UNSPEC
    }
}

} // verus!
