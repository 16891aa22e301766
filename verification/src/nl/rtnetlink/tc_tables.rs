//! Table of the traffic-control messages: attribute kinds.

use vstd::prelude::*;
use crate::nl::table::{same_text, Table};

verus! {

/// Kinds of traffic-control attribute (`TCA_*`).
#[allow(non_camel_case_types)]
#[derive(Clone, Copy, Debug, PartialEq, Eq, Structural)]
pub enum TcAttr {
    TCA_UNSPEC,
    TCA_KIND,
    TCA_OPTIONS,
    TCA_STATS,
    TCA_XSTATS,
    TCA_RATE,
    TCA_FCNT,
    TCA_STATS2,
    TCA_STAB,
}

impl Table for TcAttr {
    open spec fn spec_value(self) -> u32 {
        match self {
            TcAttr::TCA_UNSPEC => 0,
            TcAttr::TCA_KIND => 1,
            TcAttr::TCA_OPTIONS => 2,
            TcAttr::TCA_STATS => 3,
            TcAttr::TCA_XSTATS => 4,
            TcAttr::TCA_RATE => 5,
            TcAttr::TCA_FCNT => 6,
            TcAttr::TCA_STATS2 => 7,
            TcAttr::TCA_STAB => 8,
        }
    }

    open spec fn spec_from_value(v: u32) -> Option<Self> {
        if v == 0 {
            Some(TcAttr::TCA_UNSPEC)
        } else if v == 1 {
            Some(TcAttr::TCA_KIND)
        } else if v == 2 {
            Some(TcAttr::TCA_OPTIONS)
        } else if v == 3 {
            Some(TcAttr::TCA_STATS)
        } else if v == 4 {
            Some(TcAttr::TCA_XSTATS)
        } else if v == 5 {
            Some(TcAttr::TCA_RATE)
        } else if v == 6 {
            Some(TcAttr::TCA_FCNT)
        } else if v == 7 {
            Some(TcAttr::TCA_STATS2)
        } else if v == 8 {
            Some(TcAttr::TCA_STAB)
        } else {
            None
        }
    }

    open spec fn spec_name(self) -> Seq<char> {
        match self {
            TcAttr::TCA_UNSPEC => "TCA_UNSPEC"@,
            TcAttr::TCA_KIND => "TCA_KIND"@,
            TcAttr::TCA_OPTIONS => "TCA_OPTIONS"@,
            TcAttr::TCA_STATS => "TCA_STATS"@,
            TcAttr::TCA_XSTATS => "TCA_XSTATS"@,
            TcAttr::TCA_RATE => "TCA_RATE"@,
            TcAttr::TCA_FCNT => "TCA_FCNT"@,
            TcAttr::TCA_STATS2 => "TCA_STATS2"@,
            TcAttr::TCA_STAB => "TCA_STAB"@,
        }
    }

    fn value(self) -> (r: u32) {
        match self {
            TcAttr::TCA_UNSPEC => 0,
            TcAttr::TCA_KIND => 1,
            TcAttr::TCA_OPTIONS => 2,
            TcAttr::TCA_STATS => 3,
            TcAttr::TCA_XSTATS => 4,
            TcAttr::TCA_RATE => 5,
            TcAttr::TCA_FCNT => 6,
            TcAttr::TCA_STATS2 => 7,
            TcAttr::TCA_STAB => 8,
        }
    }

    fn from_value(v: u32) -> (r: Option<Self>) {
        match v {
            0 => Some(TcAttr::TCA_UNSPEC),
            1 => Some(TcAttr::TCA_KIND),
            2 => Some(TcAttr::TCA_OPTIONS),
            3 => Some(TcAttr::TCA_STATS),
            4 => Some(TcAttr::TCA_XSTATS),
            5 => Some(TcAttr::TCA_RATE),
            6 => Some(TcAttr::TCA_FCNT),
            7 => Some(TcAttr::TCA_STATS2),
            8 => Some(TcAttr::TCA_STAB),
            _ => None,
        }
    }

    fn name(self) -> (r: &'static str) {
        match self {
            TcAttr::TCA_UNSPEC => "TCA_UNSPEC",
            TcAttr::TCA_KIND => "TCA_KIND",
            TcAttr::TCA_OPTIONS => "TCA_OPTIONS",
            TcAttr::TCA_STATS => "TCA_STATS",
            TcAttr::TCA_XSTATS => "TCA_XSTATS",
            TcAttr::TCA_RATE => "TCA_RATE",
            TcAttr::TCA_FCNT => "TCA_FCNT",
            TcAttr::TCA_STATS2 => "TCA_STATS2",
            TcAttr::TCA_STAB => "TCA_STAB",
        }
    }

    proof fn lemma_value_round_trip(self) {
    }

    proof fn lemma_from_value_exact(v: u32) {
    }

    open spec fn spec_from_str(s: Seq<char>) -> Option<Self> {
        if s == "TCA_UNSPEC"@ {
            Some(TcAttr::TCA_UNSPEC)
        } else if s == "TCA_KIND"@ {
            Some(TcAttr::TCA_KIND)
        } else if s == "TCA_OPTIONS"@ {
            Some(TcAttr::TCA_OPTIONS)
        } else if s == "TCA_STATS"@ {
            Some(TcAttr::TCA_STATS)
        } else if s == "TCA_XSTATS"@ {
            Some(TcAttr::TCA_XSTATS)
        } else if s == "TCA_RATE"@ {
            Some(TcAttr::TCA_RATE)
        } else if s == "TCA_FCNT"@ {
            Some(TcAttr::TCA_FCNT)
        } else if s == "TCA_STATS2"@ {
            Some(TcAttr::TCA_STATS2)
        } else if s == "TCA_STAB"@ {
            Some(TcAttr::TCA_STAB)
        } else {
            None
        }
    }

    fn from_str(s: &str) -> (r: Option<Self>) {
        if same_text(s, "TCA_UNSPEC") {
            Some(TcAttr::TCA_UNSPEC)
        } else if same_text(s, "TCA_KIND") {
            Some(TcAttr::TCA_KIND)
        } else if same_text(s, "TCA_OPTIONS") {
            Some(TcAttr::TCA_OPTIONS)
        } else if same_text(s, "TCA_STATS") {
            Some(TcAttr::TCA_STATS)
        } else if same_text(s, "TCA_XSTATS") {
            Some(TcAttr::TCA_XSTATS)
        } else if same_text(s, "TCA_RATE") {
            Some(TcAttr::TCA_RATE)
        } else if same_text(s, "TCA_FCNT") {
            Some(TcAttr::TCA_FCNT)
        } else if same_text(s, "TCA_STATS2") {
            Some(TcAttr::TCA_STATS2)
        } else if same_text(s, "TCA_STAB") {
            Some(TcAttr::TCA_STAB)
        } else {
            None
        }
    }

    proof fn lemma_name_round_trip(self) {
        reveal_strlit("TCA_UNSPEC");
        reveal_strlit("TCA_KIND");
        reveal_strlit("TCA_OPTIONS");
        reveal_strlit("TCA_STATS");
        reveal_strlit("TCA_XSTATS");
        reveal_strlit("TCA_RATE");
        reveal_strlit("TCA_FCNT");
        reveal_strlit("TCA_STATS2");
        reveal_strlit("TCA_STAB");
        assert("TCA_UNSPEC"@.len() == 10);
        assert("TCA_KIND"@.len() == 8);
        assert("TCA_OPTIONS"@.len() == 11);
        assert("TCA_STATS"@.len() == 9);
        assert("TCA_XSTATS"@.len() == 10);
        assert("TCA_RATE"@.len() == 8);
        assert("TCA_FCNT"@.len() == 8);
        assert("TCA_STATS2"@.len() == 10);
        assert("TCA_STAB"@.len() == 8);
        assert("TCA_KIND"@[4] == 'K');
        assert("TCA_RATE"@[4] == 'R');
        assert("TCA_FCNT"@[4] == 'F');
        assert("TCA_STAB"@[4] == 'S');
        assert("TCA_UNSPEC"@[4] == 'U');
        assert("TCA_XSTATS"@[4] == 'X');
        assert("TCA_STATS2"@[4] == 'S');
    }
}

impl Default for TcAttr {
    /// The constant with the lowest number.
    fn default() -> (r: TcAttr)
        ensures
            r == TcAttr::TCA_UNSPEC,
    {
        TcAttr::TCA_UNSPEC
    }
}

} // verus!
