//! One named constant of a C header, ordered and compared by its number
//! alone.

use vstd::prelude::*;
use core::cmp::Ordering;

verus! {

/// A constant of a C header: its number and its name.
#[derive(Debug)]
pub struct CEnum {
    pub i: i32,
    pub s: String,
}

/// A constant as a mathematical value.
pub ghost struct CEnumView {
    pub i: i32,
    pub s: Seq<char>,
}

impl View for CEnum {
    type V = CEnumView;

    open spec fn view(&self) -> CEnumView {
        CEnumView { i: self.i, s: self.s@ }
    }
}

/// How two numbers stand to each other.
pub open spec fn order_of(a: i32, b: i32) -> Ordering {
    if a < b {
        Ordering::Less
    } else if a > b {
        Ordering::Greater
    } else {
        Ordering::Equal
    }
}

impl CEnum {
    pub fn new(i: i32, s: &str) -> (r: CEnum)
        ensures
            r@ == (CEnumView { i, s: s@ }),
    {
        CEnum { i, s: s.to_owned() }
    }

    /// Orders two constants by their numbers; the names play no part.
    pub fn cmp(&self, other: &Self) -> (r: Ordering)
        ensures
            r == order_of(self.i, other.i),
    {
        if self.i < other.i {
            return Ordering::Less;
        } else if self.i > other.i {
            return Ordering::Greater;
        }
        Ordering::Equal
    }
}

impl PartialEq for CEnum {
    /// Two constants are equal when their numbers are; the names play no
    /// part.
    fn eq(&self, other: &Self) -> (r: bool) {
        if self.i == other.i {
            return true;
        }
        false
    }
}

impl vstd::std_specs::cmp::PartialEqSpecImpl for CEnum {
    open spec fn obeys_eq_spec() -> bool {
        true
    }

    open spec fn eq_spec(&self, other: &Self) -> bool {
        self.i == other.i
    }
}

impl Eq for CEnum {

}

impl PartialOrd for CEnum {
    fn partial_cmp(&self, other: &Self) -> (r: Option<Ordering>) {
        if self.i < other.i {
            return Some(Ordering::Less);
        } else if self.i > other.i {
            return Some(Ordering::Greater);
        }
        Some(Ordering::Equal)
    }
}

impl vstd::std_specs::cmp::PartialOrdSpecImpl for CEnum {
    open spec fn obeys_partial_cmp_spec() -> bool {
        true
    }

    open spec fn partial_cmp_spec(&self, other: &Self) -> Option<Ordering> {
        Some(order_of(self.i, other.i))
    }
}

} // verus!
