//! What every table of named wire constants offers.

use vstd::prelude::*;

verus! {

/// Whether two strings hold the same characters.
pub fn same_text(a: &str, b: &str) -> (r: bool)
    ensures
        r == (a@ == b@),
{
    a.to_owned() == b.to_owned()
}

/// A closed set of named constants, each with the number that stands for it
/// on the wire. Numbers outside the set are expected: the lookup by number
/// is partial.
pub trait Table: Sized + Copy {
    /// The number that stands for this constant.
    spec fn spec_value(self) -> u32;

    /// The constant that `v` stands for, if any.
    spec fn spec_from_value(v: u32) -> Option<Self>;

    /// The constant's symbolic name.
    spec fn spec_name(self) -> Seq<char>;

    fn value(self) -> (r: u32)
        ensures
            r == self.spec_value(),
    ;

    fn from_value(v: u32) -> (r: Option<Self>)
        ensures
            r == Self::spec_from_value(v),
    ;

    fn name(self) -> (r: &'static str)
        ensures
            r@ == self.spec_name(),
    ;

    /// The constant whose symbolic name is `s`, if any.
    spec fn spec_from_str(s: Seq<char>) -> Option<Self>;

    /// Parses a symbolic name, exactly as [`Table::name`] writes it.
    fn from_str(s: &str) -> (r: Option<Self>)
        ensures
            r == Self::spec_from_str(s@),
    ;

    /// Looking up a constant's own number gives the constant back.
    proof fn lemma_value_round_trip(self)
        ensures
            Self::spec_from_value(self.spec_value()) == Some(self),
    ;

    /// Parsing a constant's own name gives the constant back.
    proof fn lemma_name_round_trip(self)
        ensures
            Self::spec_from_str(self.spec_name()) == Some(self),
    ;

    /// A number is only ever resolved to the constant that it stands for.
    proof fn lemma_from_value_exact(v: u32)
        ensures
            Self::spec_from_value(v) matches Some(x) ==> x.spec_value() == v,
    ;
}

/// A table whose constants are single bits of a mask.
pub trait FlagTable: Table {
    /// The largest number in the table.
    spec fn spec_max_value() -> u32;

    fn max_value() -> (r: u32)
        ensures
            r == Self::spec_max_value(),
    ;
}

} // verus!
