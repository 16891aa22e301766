//! Table of the rtnetlink message types.

use vstd::prelude::*;
use crate::nl::table::{same_text, Table};

verus! {

/// Message types of the routing family (`RTM_*`).
#[allow(non_camel_case_types)]
#[derive(Clone, Copy, Debug, PartialEq, Eq, Structural)]
pub enum NrMsgType {
    RTM_NEWLINK,
    RTM_DELLINK,
    RTM_GETLINK,
    RTM_SETLINK,
    RTM_NEWADDR,
    RTM_DELADDR,
    RTM_GETADDR,
    RTM_NEWROUTE,
    RTM_DELROUTE,
    RTM_GETROUTE,
    RTM_NEWNEIGH,
    RTM_DELNEIGH,
    RTM_GETNEIGH,
    RTM_NEWRULE,
    RTM_DELRULE,
    RTM_GETRULE,
    RTM_NEWQDISC,
    RTM_DELQDISC,
    RTM_GETQDISC,
    RTM_NEWTCLASS,
    RTM_DELTCLASS,
    RTM_GETTCLASS,
    RTM_NEWTFILTER,
    RTM_DELTFILTER,
    RTM_GETTFILTER,
    RTM_NEWACTION,
    RTM_DELACTION,
    RTM_GETACTION,
    RTM_NEWPREFIX,
    RTM_GETMULTICAST,
    RTM_GETANYCAST,
    RTM_NEWNEIGHTBL,
    RTM_GETNEIGHTBL,
    RTM_SETNEIGHTBL,
    RTM_NEWNDUSEROPT,
    RTM_NEWADDRLABEL,
    RTM_DELADDRLABEL,
    RTM_GETADDRLABEL,
    RTM_GETDCB,
    RTM_SETDCB,
    RTM_NEWNETCONF,
    RTM_GETNETCONF,
    RTM_NEWMDB,
    RTM_DELMDB,
    RTM_GETMDB,
    RTM_NEWNSID,
    RTM_DELNSID,
    RTM_GETNSID,
}

impl Table for NrMsgType {
    open spec fn spec_value(self) -> u32 {
        match self {
            NrMsgType::RTM_NEWLINK => 16,
            NrMsgType::RTM_DELLINK => 17,
            NrMsgType::RTM_GETLINK => 18,
            NrMsgType::RTM_SETLINK => 19,
            NrMsgType::RTM_NEWADDR => 20,
            NrMsgType::RTM_DELADDR => 21,
            NrMsgType::RTM_GETADDR => 22,
            NrMsgType::RTM_NEWROUTE => 24,
            NrMsgType::RTM_DELROUTE => 25,
            NrMsgType::RTM_GETROUTE => 26,
            NrMsgType::RTM_NEWNEIGH => 28,
            NrMsgType::RTM_DELNEIGH => 29,
            NrMsgType::RTM_GETNEIGH => 30,
            NrMsgType::RTM_NEWRULE => 32,
            NrMsgType::RTM_DELRULE => 33,
            NrMsgType::RTM_GETRULE => 34,
            NrMsgType::RTM_NEWQDISC => 36,
            NrMsgType::RTM_DELQDISC => 37,
            NrMsgType::RTM_GETQDISC => 38,
            NrMsgType::RTM_NEWTCLASS => 40,
            NrMsgType::RTM_DELTCLASS => 41,
            NrMsgType::RTM_GETTCLASS => 42,
            NrMsgType::RTM_NEWTFILTER => 44,
            NrMsgType::RTM_DELTFILTER => 45,
            NrMsgType::RTM_GETTFILTER => 46,
            NrMsgType::RTM_NEWACTION => 48,
            NrMsgType::RTM_DELACTION => 49,
            NrMsgType::RTM_GETACTION => 50,
            NrMsgType::RTM_NEWPREFIX => 52,
            NrMsgType::RTM_GETMULTICAST => 58,
            NrMsgType::RTM_GETANYCAST => 62,
            NrMsgType::RTM_NEWNEIGHTBL => 64,
            NrMsgType::RTM_GETNEIGHTBL => 66,
            NrMsgType::RTM_SETNEIGHTBL => 67,
            NrMsgType::RTM_NEWNDUSEROPT => 68,
            NrMsgType::RTM_NEWADDRLABEL => 72,
            NrMsgType::RTM_DELADDRLABEL => 73,
            NrMsgType::RTM_GETADDRLABEL => 74,
            NrMsgType::RTM_GETDCB => 78,
            NrMsgType::RTM_SETDCB => 79,
            NrMsgType::RTM_NEWNETCONF => 80,
            NrMsgType::RTM_GETNETCONF => 82,
            NrMsgType::RTM_NEWMDB => 84,
            NrMsgType::RTM_DELMDB => 85,
            NrMsgType::RTM_GETMDB => 86,
            NrMsgType::RTM_NEWNSID => 88,
            NrMsgType::RTM_DELNSID => 89,
            NrMsgType::RTM_GETNSID => 90,
        }
    }

    open spec fn spec_from_value(v: u32) -> Option<Self> {
        if v == 16 {
            Some(NrMsgType::RTM_NEWLINK)
        } else if v == 17 {
            Some(NrMsgType::RTM_DELLINK)
        } else if v == 18 {
            Some(NrMsgType::RTM_GETLINK)
        } else if v == 19 {
            Some(NrMsgType::RTM_SETLINK)
        } else if v == 20 {
            Some(NrMsgType::RTM_NEWADDR)
        } else if v == 21 {
            Some(NrMsgType::RTM_DELADDR)
        } else if v == 22 {
            Some(NrMsgType::RTM_GETADDR)
        } else if v == 24 {
            Some(NrMsgType::RTM_NEWROUTE)
        } else if v == 25 {
            Some(NrMsgType::RTM_DELROUTE)
        } else if v == 26 {
            Some(NrMsgType::RTM_GETROUTE)
        } else if v == 28 {
            Some(NrMsgType::RTM_NEWNEIGH)
        } else if v == 29 {
            Some(NrMsgType::RTM_DELNEIGH)
        } else if v == 30 {
            Some(NrMsgType::RTM_GETNEIGH)
        } else if v == 32 {
            Some(NrMsgType::RTM_NEWRULE)
        } else if v == 33 {
            Some(NrMsgType::RTM_DELRULE)
        } else if v == 34 {
            Some(NrMsgType::RTM_GETRULE)
        } else if v == 36 {
            Some(NrMsgType::RTM_NEWQDISC)
        } else if v == 37 {
            Some(NrMsgType::RTM_DELQDISC)
        } else if v == 38 {
            Some(NrMsgType::RTM_GETQDISC)
        } else if v == 40 {
            Some(NrMsgType::RTM_NEWTCLASS)
        } else if v == 41 {
            Some(NrMsgType::RTM_DELTCLASS)
        } else if v == 42 {
            Some(NrMsgType::RTM_GETTCLASS)
        } else if v == 44 {
            Some(NrMsgType::RTM_NEWTFILTER)
        } else if v == 45 {
            Some(NrMsgType::RTM_DELTFILTER)
        } else if v == 46 {
            Some(NrMsgType::RTM_GETTFILTER)
        } else if v == 48 {
            Some(NrMsgType::RTM_NEWACTION)
        } else if v == 49 {
            Some(NrMsgType::RTM_DELACTION)
        } else if v == 50 {
            Some(NrMsgType::RTM_GETACTION)
        } else if v == 52 {
            Some(NrMsgType::RTM_NEWPREFIX)
        } else if v == 58 {
            Some(NrMsgType::RTM_GETMULTICAST)
        } else if v == 62 {
            Some(NrMsgType::RTM_GETANYCAST)
        } else if v == 64 {
            Some(NrMsgType::RTM_NEWNEIGHTBL)
        } else if v == 66 {
            Some(NrMsgType::RTM_GETNEIGHTBL)
        } else if v == 67 {
            Some(NrMsgType::RTM_SETNEIGHTBL)
        } else if v == 68 {
            Some(NrMsgType::RTM_NEWNDUSEROPT)
        } else if v == 72 {
            Some(NrMsgType::RTM_NEWADDRLABEL)
        } else if v == 73 {
            Some(NrMsgType::RTM_DELADDRLABEL)
        } else if v == 74 {
            Some(NrMsgType::RTM_GETADDRLABEL)
        } else if v == 78 {
            Some(NrMsgType::RTM_GETDCB)
        } else if v == 79 {
            Some(NrMsgType::RTM_SETDCB)
        } else if v == 80 {
            Some(NrMsgType::RTM_NEWNETCONF)
        } else if v == 82 {
            Some(NrMsgType::RTM_GETNETCONF)
        } else if v == 84 {
            Some(NrMsgType::RTM_NEWMDB)
        } else if v == 85 {
            Some(NrMsgType::RTM_DELMDB)
        } else if v == 86 {
            Some(NrMsgType::RTM_GETMDB)
        } else if v == 88 {
            Some(NrMsgType::RTM_NEWNSID)
        } else if v == 89 {
            Some(NrMsgType::RTM_DELNSID)
        } else if v == 90 {
            Some(NrMsgType::RTM_GETNSID)
        } else {
            None
        }
    }

    open spec fn spec_name(self) -> Seq<char> {
        match self {
            NrMsgType::RTM_NEWLINK => "RTM_NEWLINK"@,
            NrMsgType::RTM_DELLINK => "RTM_DELLINK"@,
            NrMsgType::RTM_GETLINK => "RTM_GETLINK"@,
            NrMsgType::RTM_SETLINK => "RTM_SETLINK"@,
            NrMsgType::RTM_NEWADDR => "RTM_NEWADDR"@,
            NrMsgType::RTM_DELADDR => "RTM_DELADDR"@,
            NrMsgType::RTM_GETADDR => "RTM_GETADDR"@,
            NrMsgType::RTM_NEWROUTE => "RTM_NEWROUTE"@,
            NrMsgType::RTM_DELROUTE => "RTM_DELROUTE"@,
            NrMsgType::RTM_GETROUTE => "RTM_GETROUTE"@,
            NrMsgType::RTM_NEWNEIGH => "RTM_NEWNEIGH"@,
            NrMsgType::RTM_DELNEIGH => "RTM_DELNEIGH"@,
            NrMsgType::RTM_GETNEIGH => "RTM_GETNEIGH"@,
            NrMsgType::RTM_NEWRULE => "RTM_NEWRULE"@,
            NrMsgType::RTM_DELRULE => "RTM_DELRULE"@,
            NrMsgType::RTM_GETRULE => "RTM_GETRULE"@,
            NrMsgType::RTM_NEWQDISC => "RTM_NEWQDISC"@,
            NrMsgType::RTM_DELQDISC => "RTM_DELQDISC"@,
            NrMsgType::RTM_GETQDISC => "RTM_GETQDISC"@,
            NrMsgType::RTM_NEWTCLASS => "RTM_NEWTCLASS"@,
            NrMsgType::RTM_DELTCLASS => "RTM_DELTCLASS"@,
            NrMsgType::RTM_GETTCLASS => "RTM_GETTCLASS"@,
            NrMsgType::RTM_NEWTFILTER => "RTM_NEWTFILTER"@,
            NrMsgType::RTM_DELTFILTER => "RTM_DELTFILTER"@,
            NrMsgType::RTM_GETTFILTER => "RTM_GETTFILTER"@,
            NrMsgType::RTM_NEWACTION => "RTM_NEWACTION"@,
            NrMsgType::RTM_DELACTION => "RTM_DELACTION"@,
            NrMsgType::RTM_GETACTION => "RTM_GETACTION"@,
            NrMsgType::RTM_NEWPREFIX => "RTM_NEWPREFIX"@,
            NrMsgType::RTM_GETMULTICAST => "RTM_GETMULTICAST"@,
            NrMsgType::RTM_GETANYCAST => "RTM_GETANYCAST"@,
            NrMsgType::RTM_NEWNEIGHTBL => "RTM_NEWNEIGHTBL"@,
            NrMsgType::RTM_GETNEIGHTBL => "RTM_GETNEIGHTBL"@,
            NrMsgType::RTM_SETNEIGHTBL => "RTM_SETNEIGHTBL"@,
            NrMsgType::RTM_NEWNDUSEROPT => "RTM_NEWNDUSEROPT"@,
            NrMsgType::RTM_NEWADDRLABEL => "RTM_NEWADDRLABEL"@,
            NrMsgType::RTM_DELADDRLABEL => "RTM_DELADDRLABEL"@,
            NrMsgType::RTM_GETADDRLABEL => "RTM_GETADDRLABEL"@,
            NrMsgType::RTM_GETDCB => "RTM_GETDCB"@,
            NrMsgType::RTM_SETDCB => "RTM_SETDCB"@,
            NrMsgType::RTM_NEWNETCONF => "RTM_NEWNETCONF"@,
            NrMsgType::RTM_GETNETCONF => "RTM_GETNETCONF"@,
            NrMsgType::RTM_NEWMDB => "RTM_NEWMDB"@,
            NrMsgType::RTM_DELMDB => "RTM_DELMDB"@,
            NrMsgType::RTM_GETMDB => "RTM_GETMDB"@,
            NrMsgType::RTM_NEWNSID => "RTM_NEWNSID"@,
            NrMsgType::RTM_DELNSID => "RTM_DELNSID"@,
            NrMsgType::RTM_GETNSID => "RTM_GETNSID"@,
        }
    }

    fn value(self) -> (r: u32) {
        match self {
            NrMsgType::RTM_NEWLINK => 16,
            NrMsgType::RTM_DELLINK => 17,
            NrMsgType::RTM_GETLINK => 18,
            NrMsgType::RTM_SETLINK => 19,
            NrMsgType::RTM_NEWADDR => 20,
            NrMsgType::RTM_DELADDR => 21,
            NrMsgType::RTM_GETADDR => 22,
            NrMsgType::RTM_NEWROUTE => 24,
            NrMsgType::RTM_DELROUTE => 25,
            NrMsgType::RTM_GETROUTE => 26,
            NrMsgType::RTM_NEWNEIGH => 28,
            NrMsgType::RTM_DELNEIGH => 29,
            NrMsgType::RTM_GETNEIGH => 30,
            NrMsgType::RTM_NEWRULE => 32,
            NrMsgType::RTM_DELRULE => 33,
            NrMsgType::RTM_GETRULE => 34,
            NrMsgType::RTM_NEWQDISC => 36,
            NrMsgType::RTM_DELQDISC => 37,
            NrMsgType::RTM_GETQDISC => 38,
            NrMsgType::RTM_NEWTCLASS => 40,
            NrMsgType::RTM_DELTCLASS => 41,
            NrMsgType::RTM_GETTCLASS => 42,
            NrMsgType::RTM_NEWTFILTER => 44,
            NrMsgType::RTM_DELTFILTER => 45,
            NrMsgType::RTM_GETTFILTER => 46,
            NrMsgType::RTM_NEWACTION => 48,
            NrMsgType::RTM_DELACTION => 49,
            NrMsgType::RTM_GETACTION => 50,
            NrMsgType::RTM_NEWPREFIX => 52,
            NrMsgType::RTM_GETMULTICAST => 58,
            NrMsgType::RTM_GETANYCAST => 62,
            NrMsgType::RTM_NEWNEIGHTBL => 64,
            NrMsgType::RTM_GETNEIGHTBL => 66,
            NrMsgType::RTM_SETNEIGHTBL => 67,
            NrMsgType::RTM_NEWNDUSEROPT => 68,
            NrMsgType::RTM_NEWADDRLABEL => 72,
            NrMsgType::RTM_DELADDRLABEL => 73,
            NrMsgType::RTM_GETADDRLABEL => 74,
            NrMsgType::RTM_GETDCB => 78,
            NrMsgType::RTM_SETDCB => 79,
            NrMsgType::RTM_NEWNETCONF => 80,
            NrMsgType::RTM_GETNETCONF => 82,
            NrMsgType::RTM_NEWMDB => 84,
            NrMsgType::RTM_DELMDB => 85,
            NrMsgType::RTM_GETMDB => 86,
            NrMsgType::RTM_NEWNSID => 88,
            NrMsgType::RTM_DELNSID => 89,
            NrMsgType::RTM_GETNSID => 90,
        }
    }

    fn from_value(v: u32) -> (r: Option<Self>) {
        match v {
            16 => Some(NrMsgType::RTM_NEWLINK),
            17 => Some(NrMsgType::RTM_DELLINK),
            18 => Some(NrMsgType::RTM_GETLINK),
            19 => Some(NrMsgType::RTM_SETLINK),
            20 => Some(NrMsgType::RTM_NEWADDR),
            21 => Some(NrMsgType::RTM_DELADDR),
            22 => Some(NrMsgType::RTM_GETADDR),
            24 => Some(NrMsgType::RTM_NEWROUTE),
            25 => Some(NrMsgType::RTM_DELROUTE),
            26 => Some(NrMsgType::RTM_GETROUTE),
            28 => Some(NrMsgType::RTM_NEWNEIGH),
            29 => Some(NrMsgType::RTM_DELNEIGH),
            30 => Some(NrMsgType::RTM_GETNEIGH),
            32 => Some(NrMsgType::RTM_NEWRULE),
            33 => Some(NrMsgType::RTM_DELRULE),
            34 => Some(NrMsgType::RTM_GETRULE),
            36 => Some(NrMsgType::RTM_NEWQDISC),
            37 => Some(NrMsgType::RTM_DELQDISC),
            38 => Some(NrMsgType::RTM_GETQDISC),
            40 => Some(NrMsgType::RTM_NEWTCLASS),
            41 => Some(NrMsgType::RTM_DELTCLASS),
            42 => Some(NrMsgType::RTM_GETTCLASS),
            44 => Some(NrMsgType::RTM_NEWTFILTER),
            45 => Some(NrMsgType::RTM_DELTFILTER),
            46 => Some(NrMsgType::RTM_GETTFILTER),
            48 => Some(NrMsgType::RTM_NEWACTION),
            49 => Some(NrMsgType::RTM_DELACTION),
            50 => Some(NrMsgType::RTM_GETACTION),
            52 => Some(NrMsgType::RTM_NEWPREFIX),
            58 => Some(NrMsgType::RTM_GETMULTICAST),
            62 => Some(NrMsgType::RTM_GETANYCAST),
            64 => Some(NrMsgType::RTM_NEWNEIGHTBL),
            66 => Some(NrMsgType::RTM_GETNEIGHTBL),
            67 => Some(NrMsgType::RTM_SETNEIGHTBL),
            68 => Some(NrMsgType::RTM_NEWNDUSEROPT),
            72 => Some(NrMsgType::RTM_NEWADDRLABEL),
            73 => Some(NrMsgType::RTM_DELADDRLABEL),
            74 => Some(NrMsgType::RTM_GETADDRLABEL),
            78 => Some(NrMsgType::RTM_GETDCB),
            79 => Some(NrMsgType::RTM_SETDCB),
            80 => Some(NrMsgType::RTM_NEWNETCONF),
            82 => Some(NrMsgType::RTM_GETNETCONF),
            84 => Some(NrMsgType::RTM_NEWMDB),
            85 => Some(NrMsgType::RTM_DELMDB),
            86 => Some(NrMsgType::RTM_GETMDB),
            88 => Some(NrMsgType::RTM_NEWNSID),
            89 => Some(NrMsgType::RTM_DELNSID),
            90 => Some(NrMsgType::RTM_GETNSID),
            _ => None,
        }
    }

    fn name(self) -> (r: &'static str) {
        match self {
            NrMsgType::RTM_NEWLINK => "RTM_NEWLINK",
            NrMsgType::RTM_DELLINK => "RTM_DELLINK",
            NrMsgType::RTM_GETLINK => "RTM_GETLINK",
            NrMsgType::RTM_SETLINK => "RTM_SETLINK",
            NrMsgType::RTM_NEWADDR => "RTM_NEWADDR",
            NrMsgType::RTM_DELADDR => "RTM_DELADDR",
            NrMsgType::RTM_GETADDR => "RTM_GETADDR",
            NrMsgType::RTM_NEWROUTE => "RTM_NEWROUTE",
            NrMsgType::RTM_DELROUTE => "RTM_DELROUTE",
            NrMsgType::RTM_GETROUTE => "RTM_GETROUTE",
            NrMsgType::RTM_NEWNEIGH => "RTM_NEWNEIGH",
            NrMsgType::RTM_DELNEIGH => "RTM_DELNEIGH",
            NrMsgType::RTM_GETNEIGH => "RTM_GETNEIGH",
            NrMsgType::RTM_NEWRULE => "RTM_NEWRULE",
            NrMsgType::RTM_DELRULE => "RTM_DELRULE",
            NrMsgType::RTM_GETRULE => "RTM_GETRULE",
            NrMsgType::RTM_NEWQDISC => "RTM_NEWQDISC",
            NrMsgType::RTM_DELQDISC => "RTM_DELQDISC",
            NrMsgType::RTM_GETQDISC => "RTM_GETQDISC",
            NrMsgType::RTM_NEWTCLASS => "RTM_NEWTCLASS",
            NrMsgType::RTM_DELTCLASS => "RTM_DELTCLASS",
            NrMsgType::RTM_GETTCLASS => "RTM_GETTCLASS",
            NrMsgType::RTM_NEWTFILTER => "RTM_NEWTFILTER",
            NrMsgType::RTM_DELTFILTER => "RTM_DELTFILTER",
            NrMsgType::RTM_GETTFILTER => "RTM_GETTFILTER",
            NrMsgType::RTM_NEWACTION => "RTM_NEWACTION",
            NrMsgType::RTM_DELACTION => "RTM_DELACTION",
            NrMsgType::RTM_GETACTION => "RTM_GETACTION",
            NrMsgType::RTM_NEWPREFIX => "RTM_NEWPREFIX",
            NrMsgType::RTM_GETMULTICAST => "RTM_GETMULTICAST",
            NrMsgType::RTM_GETANYCAST => "RTM_GETANYCAST",
            NrMsgType::RTM_NEWNEIGHTBL => "RTM_NEWNEIGHTBL",
            NrMsgType::RTM_GETNEIGHTBL => "RTM_GETNEIGHTBL",
            NrMsgType::RTM_SETNEIGHTBL => "RTM_SETNEIGHTBL",
            NrMsgType::RTM_NEWNDUSEROPT => "RTM_NEWNDUSEROPT",
            NrMsgType::RTM_NEWADDRLABEL => "RTM_NEWADDRLABEL",
            NrMsgType::RTM_DELADDRLABEL => "RTM_DELADDRLABEL",
            NrMsgType::RTM_GETADDRLABEL => "RTM_GETADDRLABEL",
            NrMsgType::RTM_GETDCB => "RTM_GETDCB",
            NrMsgType::RTM_SETDCB => "RTM_SETDCB",
            NrMsgType::RTM_NEWNETCONF => "RTM_NEWNETCONF",
            NrMsgType::RTM_GETNETCONF => "RTM_GETNETCONF",
            NrMsgType::RTM_NEWMDB => "RTM_NEWMDB",
            NrMsgType::RTM_DELMDB => "RTM_DELMDB",
            NrMsgType::RTM_GETMDB => "RTM_GETMDB",
            NrMsgType::RTM_NEWNSID => "RTM_NEWNSID",
            NrMsgType::RTM_DELNSID => "RTM_DELNSID",
            NrMsgType::RTM_GETNSID => "RTM_GETNSID",
        }
    }

    proof fn lemma_value_round_trip(self) {
    }

    proof fn lemma_from_value_exact(v: u32) {
    }

    open spec fn spec_from_str(s: Seq<char>) -> Option<Self> {
        if s == "RTM_NEWLINK"@ {
            Some(NrMsgType::RTM_NEWLINK)
        } else if s == "RTM_DELLINK"@ {
            Some(NrMsgType::RTM_DELLINK)
        } else if s == "RTM_GETLINK"@ {
            Some(NrMsgType::RTM_GETLINK)
        } else if s == "RTM_SETLINK"@ {
            Some(NrMsgType::RTM_SETLINK)
        } else if s == "RTM_NEWADDR"@ {
            Some(NrMsgType::RTM_NEWADDR)
        } else if s == "RTM_DELADDR"@ {
            Some(NrMsgType::RTM_DELADDR)
        } else if s == "RTM_GETADDR"@ {
            Some(NrMsgType::RTM_GETADDR)
        } else if s == "RTM_NEWROUTE"@ {
            Some(NrMsgType::RTM_NEWROUTE)
        } else if s == "RTM_DELROUTE"@ {
            Some(NrMsgType::RTM_DELROUTE)
        } else if s == "RTM_GETROUTE"@ {
            Some(NrMsgType::RTM_GETROUTE)
        } else if s == "RTM_NEWNEIGH"@ {
            Some(NrMsgType::RTM_NEWNEIGH)
        } else if s == "RTM_DELNEIGH"@ {
            Some(NrMsgType::RTM_DELNEIGH)
        } else if s == "RTM_GETNEIGH"@ {
            Some(NrMsgType::RTM_GETNEIGH)
        } else if s == "RTM_NEWRULE"@ {
            Some(NrMsgType::RTM_NEWRULE)
        } else if s == "RTM_DELRULE"@ {
            Some(NrMsgType::RTM_DELRULE)
        } else if s == "RTM_GETRULE"@ {
            Some(NrMsgType::RTM_GETRULE)
        } else if s == "RTM_NEWQDISC"@ {
            Some(NrMsgType::RTM_NEWQDISC)
        } else if s == "RTM_DELQDISC"@ {
            Some(NrMsgType::RTM_DELQDISC)
        } else if s == "RTM_GETQDISC"@ {
            Some(NrMsgType::RTM_GETQDISC)
        } else if s == "RTM_NEWTCLASS"@ {
            Some(NrMsgType::RTM_NEWTCLASS)
        } else if s == "RTM_DELTCLASS"@ {
            Some(NrMsgType::RTM_DELTCLASS)
        } else if s == "RTM_GETTCLASS"@ {
            Some(NrMsgType::RTM_GETTCLASS)
        } else if s == "RTM_NEWTFILTER"@ {
            Some(NrMsgType::RTM_NEWTFILTER)
        } else if s == "RTM_DELTFILTER"@ {
            Some(NrMsgType::RTM_DELTFILTER)
        } else if s == "RTM_GETTFILTER"@ {
            Some(NrMsgType::RTM_GETTFILTER)
        } else if s == "RTM_NEWACTION"@ {
            Some(NrMsgType::RTM_NEWACTION)
        } else if s == "RTM_DELACTION"@ {
            Some(NrMsgType::RTM_DELACTION)
        } else if s == "RTM_GETACTION"@ {
            Some(NrMsgType::RTM_GETACTION)
        } else if s == "RTM_NEWPREFIX"@ {
            Some(NrMsgType::RTM_NEWPREFIX)
        } else if s == "RTM_GETMULTICAST"@ {
            Some(NrMsgType::RTM_GETMULTICAST)
        } else if s == "RTM_GETANYCAST"@ {
            Some(NrMsgType::RTM_GETANYCAST)
        } else if s == "RTM_NEWNEIGHTBL"@ {
            Some(NrMsgType::RTM_NEWNEIGHTBL)
        } else if s == "RTM_GETNEIGHTBL"@ {
            Some(NrMsgType::RTM_GETNEIGHTBL)
        } else if s == "RTM_SETNEIGHTBL"@ {
            Some(NrMsgType::RTM_SETNEIGHTBL)
        } else if s == "RTM_NEWNDUSEROPT"@ {
            Some(NrMsgType::RTM_NEWNDUSEROPT)
        } else if s == "RTM_NEWADDRLABEL"@ {
            Some(NrMsgType::RTM_NEWADDRLABEL)
        } else if s == "RTM_DELADDRLABEL"@ {
            Some(NrMsgType::RTM_DELADDRLABEL)
        } else if s == "RTM_GETADDRLABEL"@ {
            Some(NrMsgType::RTM_GETADDRLABEL)
        } else if s == "RTM_GETDCB"@ {
            Some(NrMsgType::RTM_GETDCB)
        } else if s == "RTM_SETDCB"@ {
            Some(NrMsgType::RTM_SETDCB)
        } else if s == "RTM_NEWNETCONF"@ {
            Some(NrMsgType::RTM_NEWNETCONF)
        } else if s == "RTM_GETNETCONF"@ {
            Some(NrMsgType::RTM_GETNETCONF)
        } else if s == "RTM_NEWMDB"@ {
            Some(NrMsgType::RTM_NEWMDB)
        } else if s == "RTM_DELMDB"@ {
            Some(NrMsgType::RTM_DELMDB)
        } else if s == "RTM_GETMDB"@ {
            Some(NrMsgType::RTM_GETMDB)
        } else if s == "RTM_NEWNSID"@ {
            Some(NrMsgType::RTM_NEWNSID)
        } else if s == "RTM_DELNSID"@ {
            Some(NrMsgType::RTM_DELNSID)
        } else if s == "RTM_GETNSID"@ {
            Some(NrMsgType::RTM_GETNSID)
        } else {
            None
        }
    }

    fn from_str(s: &str) -> (r: Option<Self>) {
        if same_text(s, "RTM_NEWLINK") {
            Some(NrMsgType::RTM_NEWLINK)
        } else if same_text(s, "RTM_DELLINK") {
            Some(NrMsgType::RTM_DELLINK)
        } else if same_text(s, "RTM_GETLINK") {
            Some(NrMsgType::RTM_GETLINK)
        } else if same_text(s, "RTM_SETLINK") {
            Some(NrMsgType::RTM_SETLINK)
        } else if same_text(s, "RTM_NEWADDR") {
            Some(NrMsgType::RTM_NEWADDR)
        } else if same_text(s, "RTM_DELADDR") {
            Some(NrMsgType::RTM_DELADDR)
        } else if same_text(s, "RTM_GETADDR") {
            Some(NrMsgType::RTM_GETADDR)
        } else if same_text(s, "RTM_NEWROUTE") {
            Some(NrMsgType::RTM_NEWROUTE)
        } else if same_text(s, "RTM_DELROUTE") {
            Some(NrMsgType::RTM_DELROUTE)
        } else if same_text(s, "RTM_GETROUTE") {
            Some(NrMsgType::RTM_GETROUTE)
        } else if same_text(s, "RTM_NEWNEIGH") {
            Some(NrMsgType::RTM_NEWNEIGH)
        } else if same_text(s, "RTM_DELNEIGH") {
            Some(NrMsgType::RTM_DELNEIGH)
        } else if same_text(s, "RTM_GETNEIGH") {
            Some(NrMsgType::RTM_GETNEIGH)
        } else if same_text(s, "RTM_NEWRULE") {
            Some(NrMsgType::RTM_NEWRULE)
        } else if same_text(s, "RTM_DELRULE") {
            Some(NrMsgType::RTM_DELRULE)
        } else if same_text(s, "RTM_GETRULE") {
            Some(NrMsgType::RTM_GETRULE)
        } else if same_text(s, "RTM_NEWQDISC") {
            Some(NrMsgType::RTM_NEWQDISC)
        } else if same_text(s, "RTM_DELQDISC") {
            Some(NrMsgType::RTM_DELQDISC)
        } else if same_text(s, "RTM_GETQDISC") {
            Some(NrMsgType::RTM_GETQDISC)
        } else if same_text(s, "RTM_NEWTCLASS") {
            Some(NrMsgType::RTM_NEWTCLASS)
        } else if same_text(s, "RTM_DELTCLASS") {
            Some(NrMsgType::RTM_DELTCLASS)
        } else if same_text(s, "RTM_GETTCLASS") {
            Some(NrMsgType::RTM_GETTCLASS)
        } else if same_text(s, "RTM_NEWTFILTER") {
            Some(NrMsgType::RTM_NEWTFILTER)
        } else if same_text(s, "RTM_DELTFILTER") {
            Some(NrMsgType::RTM_DELTFILTER)
        } else if same_text(s, "RTM_GETTFILTER") {
            Some(NrMsgType::RTM_GETTFILTER)
        } else if same_text(s, "RTM_NEWACTION") {
            Some(NrMsgType::RTM_NEWACTION)
        } else if same_text(s, "RTM_DELACTION") {
            Some(NrMsgType::RTM_DELACTION)
        } else if same_text(s, "RTM_GETACTION") {
            Some(NrMsgType::RTM_GETACTION)
        } else if same_text(s, "RTM_NEWPREFIX") {
            Some(NrMsgType::RTM_NEWPREFIX)
        } else if same_text(s, "RTM_GETMULTICAST") {
            Some(NrMsgType::RTM_GETMULTICAST)
        } else if same_text(s, "RTM_GETANYCAST") {
            Some(NrMsgType::RTM_GETANYCAST)
        } else if same_text(s, "RTM_NEWNEIGHTBL") {
            Some(NrMsgType::RTM_NEWNEIGHTBL)
        } else if same_text(s, "RTM_GETNEIGHTBL") {
            Some(NrMsgType::RTM_GETNEIGHTBL)
        } else if same_text(s, "RTM_SETNEIGHTBL") {
            Some(NrMsgType::RTM_SETNEIGHTBL)
        } else if same_text(s, "RTM_NEWNDUSEROPT") {
            Some(NrMsgType::RTM_NEWNDUSEROPT)
        } else if same_text(s, "RTM_NEWADDRLABEL") {
            Some(NrMsgType::RTM_NEWADDRLABEL)
        } else if same_text(s, "RTM_DELADDRLABEL") {
            Some(NrMsgType::RTM_DELADDRLABEL)
        } else if same_text(s, "RTM_GETADDRLABEL") {
            Some(NrMsgType::RTM_GETADDRLABEL)
        } else if same_text(s, "RTM_GETDCB") {
            Some(NrMsgType::RTM_GETDCB)
        } else if same_text(s, "RTM_SETDCB") {
            Some(NrMsgType::RTM_SETDCB)
        } else if same_text(s, "RTM_NEWNETCONF") {
            Some(NrMsgType::RTM_NEWNETCONF)
        } else if same_text(s, "RTM_GETNETCONF") {
            Some(NrMsgType::RTM_GETNETCONF)
        } else if same_text(s, "RTM_NEWMDB") {
            Some(NrMsgType::RTM_NEWMDB)
        } else if same_text(s, "RTM_DELMDB") {
            Some(NrMsgType::RTM_DELMDB)
        } else if same_text(s, "RTM_GETMDB") {
            Some(NrMsgType::RTM_GETMDB)
        } else if same_text(s, "RTM_NEWNSID") {
            Some(NrMsgType::RTM_NEWNSID)
        } else if same_text(s, "RTM_DELNSID") {
            Some(NrMsgType::RTM_DELNSID)
        } else if same_text(s, "RTM_GETNSID") {
            Some(NrMsgType::RTM_GETNSID)
        } else {
            None
        }
    }

    proof fn lemma_name_round_trip(self) {
        reveal_strlit("RTM_NEWLINK");
        reveal_strlit("RTM_DELLINK");
        reveal_strlit("RTM_GETLINK");
        reveal_strlit("RTM_SETLINK");
        reveal_strlit("RTM_NEWADDR");
        reveal_strlit("RTM_DELADDR");
        reveal_strlit("RTM_GETADDR");
        reveal_strlit("RTM_NEWROUTE");
        reveal_strlit("RTM_DELROUTE");
        reveal_strlit("RTM_GETROUTE");
        reveal_strlit("RTM_NEWNEIGH");
        reveal_strlit("RTM_DELNEIGH");
        reveal_strlit("RTM_GETNEIGH");
        reveal_strlit("RTM_NEWRULE");
        reveal_strlit("RTM_DELRULE");
        reveal_strlit("RTM_GETRULE");
        reveal_strlit("RTM_NEWQDISC");
        reveal_strlit("RTM_DELQDISC");
        reveal_strlit("RTM_GETQDISC");
        reveal_strlit("RTM_NEWTCLASS");
        reveal_strlit("RTM_DELTCLASS");
        reveal_strlit("RTM_GETTCLASS");
        reveal_strlit("RTM_NEWTFILTER");
        reveal_strlit("RTM_DELTFILTER");
        reveal_strlit("RTM_GETTFILTER");
        reveal_strlit("RTM_NEWACTION");
        reveal_strlit("RTM_DELACTION");
        reveal_strlit("RTM_GETACTION");
        reveal_strlit("RTM_NEWPREFIX");
        reveal_strlit("RTM_GETMULTICAST");
        reveal_strlit("RTM_GETANYCAST");
        reveal_strlit("RTM_NEWNEIGHTBL");
        reveal_strlit("RTM_GETNEIGHTBL");
        reveal_strlit("RTM_SETNEIGHTBL");
        reveal_strlit("RTM_NEWNDUSEROPT");
        reveal_strlit("RTM_NEWADDRLABEL");
        reveal_strlit("RTM_DELADDRLABEL");
        reveal_strlit("RTM_GETADDRLABEL");
        reveal_strlit("RTM_GETDCB");
        reveal_strlit("RTM_SETDCB");
        reveal_strlit("RTM_NEWNETCONF");
        reveal_strlit("RTM_GETNETCONF");
        reveal_strlit("RTM_NEWMDB");
        reveal_strlit("RTM_DELMDB");
        reveal_strlit("RTM_GETMDB");
        reveal_strlit("RTM_NEWNSID");
        reveal_strlit("RTM_DELNSID");
        reveal_strlit("RTM_GETNSID");
        assert("RTM_NEWLINK"@.len() == 11);
        assert("RTM_DELLINK"@.len() == 11);
        assert("RTM_GETLINK"@.len() == 11);
        assert("RTM_SETLINK"@.len() == 11);
        assert("RTM_NEWADDR"@.len() == 11);
        assert("RTM_DELADDR"@.len() == 11);
        assert("RTM_GETADDR"@.len() == 11);
        assert("RTM_NEWROUTE"@.len() == 12);
        assert("RTM_DELROUTE"@.len() == 12);
        assert("RTM_GETROUTE"@.len() == 12);
        assert("RTM_NEWNEIGH"@.len() == 12);
        assert("RTM_DELNEIGH"@.len() == 12);
        assert("RTM_GETNEIGH"@.len() == 12);
        assert("RTM_NEWRULE"@.len() == 11);
        assert("RTM_DELRULE"@.len() == 11);
        assert("RTM_GETRULE"@.len() == 11);
        assert("RTM_NEWQDISC"@.len() == 12);
        assert("RTM_DELQDISC"@.len() == 12);
        assert("RTM_GETQDISC"@.len() == 12);
        assert("RTM_NEWTCLASS"@.len() == 13);
        assert("RTM_DELTCLASS"@.len() == 13);
        assert("RTM_GETTCLASS"@.len() == 13);
        assert("RTM_NEWTFILTER"@.len() == 14);
        assert("RTM_DELTFILTER"@.len() == 14);
        assert("RTM_GETTFILTER"@.len() == 14);
        assert("RTM_NEWACTION"@.len() == 13);
        assert("RTM_DELACTION"@.len() == 13);
        assert("RTM_GETACTION"@.len() == 13);
        assert("RTM_NEWPREFIX"@.len() == 13);
        assert("RTM_GETMULTICAST"@.len() == 16);
        assert("RTM_GETANYCAST"@.len() == 14);
        assert("RTM_NEWNEIGHTBL"@.len() == 15);
        assert("RTM_GETNEIGHTBL"@.len() == 15);
        assert("RTM_SETNEIGHTBL"@.len() == 15);
        assert("RTM_NEWNDUSEROPT"@.len() == 16);
        assert("RTM_NEWADDRLABEL"@.len() == 16);
        assert("RTM_DELADDRLABEL"@.len() == 16);
        assert("RTM_GETADDRLABEL"@.len() == 16);
        assert("RTM_GETDCB"@.len() == 10);
        assert("RTM_SETDCB"@.len() == 10);
        assert("RTM_NEWNETCONF"@.len() == 14);
        assert("RTM_GETNETCONF"@.len() == 14);
        assert("RTM_NEWMDB"@.len() == 10);
        assert("RTM_DELMDB"@.len() == 10);
        assert("RTM_GETMDB"@.len() == 10);
        assert("RTM_NEWNSID"@.len() == 11);
        assert("RTM_DELNSID"@.len() == 11);
        assert("RTM_GETNSID"@.len() == 11);
        assert("RTM_GETDCB"@[4] == 'G');
        assert("RTM_GETDCB"@[7] == 'D');
        assert("RTM_SETDCB"@[4] == 'S');
        assert("RTM_SETDCB"@[7] == 'D');
        assert("RTM_NEWMDB"@[4] == 'N');
        assert("RTM_NEWMDB"@[7] == 'M');
        assert("RTM_DELMDB"@[4] == 'D');
        assert("RTM_DELMDB"@[7] == 'M');
        assert("RTM_GETMDB"@[4] == 'G');
        assert("RTM_GETMDB"@[7] == 'M');
        assert("RTM_NEWLINK"@[4] == 'N');
        assert("RTM_NEWLINK"@[7] == 'L');
        assert("RTM_DELLINK"@[4] == 'D');
        assert("RTM_DELLINK"@[7] == 'L');
        assert("RTM_GETLINK"@[4] == 'G');
        assert("RTM_GETLINK"@[7] == 'L');
        assert("RTM_SETLINK"@[4] == 'S');
        assert("RTM_SETLINK"@[7] == 'L');
        assert("RTM_NEWADDR"@[4] == 'N');
        assert("RTM_NEWADDR"@[7] == 'A');
        assert("RTM_DELADDR"@[4] == 'D');
        assert("RTM_DELADDR"@[7] == 'A');
        assert("RTM_GETADDR"@[4] == 'G');
        assert("RTM_GETADDR"@[7] == 'A');
        assert("RTM_NEWRULE"@[4] == 'N');
        assert("RTM_NEWRULE"@[7] == 'R');
        assert("RTM_DELRULE"@[4] == 'D');
        assert("RTM_DELRULE"@[7] == 'R');
        assert("RTM_GETRULE"@[4] == 'G');
        assert("RTM_GETRULE"@[7] == 'R');
        assert("RTM_NEWNSID"@[4] == 'N');
        assert("RTM_NEWNSID"@[7] == 'N');
        assert("RTM_DELNSID"@[4] == 'D');
        assert("RTM_DELNSID"@[7] == 'N');
        assert("RTM_GETNSID"@[4] == 'G');
        assert("RTM_GETNSID"@[7] == 'N');
        assert("RTM_NEWROUTE"@[4] == 'N');
        assert("RTM_NEWROUTE"@[7] == 'R');
        assert("RTM_DELROUTE"@[4] == 'D');
        assert("RTM_DELROUTE"@[7] == 'R');
        assert("RTM_GETROUTE"@[4] == 'G');
        assert("RTM_GETROUTE"@[7] == 'R');
        assert("RTM_NEWNEIGH"@[4] == 'N');
        assert("RTM_NEWNEIGH"@[7] == 'N');
        assert("RTM_DELNEIGH"@[4] == 'D');
        assert("RTM_DELNEIGH"@[7] == 'N');
        assert("RTM_GETNEIGH"@[4] == 'G');
        assert("RTM_GETNEIGH"@[7] == 'N');
        assert("RTM_NEWQDISC"@[4] == 'N');
        assert("RTM_NEWQDISC"@[7] == 'Q');
        assert("RTM_DELQDISC"@[4] == 'D');
        assert("RTM_DELQDISC"@[7] == 'Q');
        assert("RTM_GETQDISC"@[4] == 'G');
        assert("RTM_GETQDISC"@[7] == 'Q');
        assert("RTM_NEWTCLASS"@[4] == 'N');
        assert("RTM_NEWTCLASS"@[7] == 'T');
        assert("RTM_DELTCLASS"@[4] == 'D');
        assert("RTM_DELTCLASS"@[7] == 'T');
        assert("RTM_GETTCLASS"@[4] == 'G');
        assert("RTM_GETTCLASS"@[7] == 'T');
        assert("RTM_NEWACTION"@[4] == 'N');
        assert("RTM_NEWACTION"@[7] == 'A');
        assert("RTM_DELACTION"@[4] == 'D');
        assert("RTM_DELACTION"@[7] == 'A');
        assert("RTM_GETACTION"@[4] == 'G');
        assert("RTM_GETACTION"@[7] == 'A');
        assert("RTM_NEWPREFIX"@[4] == 'N');
        assert("RTM_NEWPREFIX"@[7] == 'P');
        assert("RTM_NEWTFILTER"@[4] == 'N');
        assert("RTM_NEWTFILTER"@[7] == 'T');
        assert("RTM_DELTFILTER"@[4] == 'D');
        assert("RTM_DELTFILTER"@[7] == 'T');
        assert("RTM_GETTFILTER"@[4] == 'G');
        assert("RTM_GETTFILTER"@[7] == 'T');
        assert("RTM_GETANYCAST"@[4] == 'G');
        assert("RTM_GETANYCAST"@[7] == 'A');
        assert("RTM_NEWNETCONF"@[4] == 'N');
        assert("RTM_NEWNETCONF"@[7] == 'N');
        assert("RTM_GETNETCONF"@[4] == 'G');
        assert("RTM_GETNETCONF"@[7] == 'N');
        assert("RTM_NEWNEIGHTBL"@[4] == 'N');
        assert("RTM_GETNEIGHTBL"@[4] == 'G');
        assert("RTM_SETNEIGHTBL"@[4] == 'S');
        assert("RTM_GETMULTICAST"@[4] == 'G');
        assert("RTM_GETMULTICAST"@[7] == 'M');
        assert("RTM_NEWNDUSEROPT"@[4] == 'N');
        assert("RTM_NEWNDUSEROPT"@[7] == 'N');
        assert("RTM_NEWADDRLABEL"@[4] == 'N');
        assert("RTM_NEWADDRLABEL"@[7] == 'A');
        assert("RTM_DELADDRLABEL"@[4] == 'D');
        assert("RTM_DELADDRLABEL"@[7] == 'A');
        assert("RTM_GETADDRLABEL"@[4] == 'G');
        assert("RTM_GETADDRLABEL"@[7] == 'A');
    }
}

impl Default for NrMsgType {
    /// The constant with the lowest number.
    fn default() -> (r: NrMsgType)
        ensures
            r == NrMsgType::RTM_NEWLINK,
    {
        NrMsgType::RTM_NEWLINK
    }
}

} // verus!
