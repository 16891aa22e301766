//! Writing the items of a table of named constants as source text: the
//! `enum` itself and the impls that go with it.

use vstd::prelude::*;
use crate::cenum::entry::{CEnum, CEnumView};
use crate::cenum::sort::entry_views;
use crate::nl::text::{hex_text, int_text, push_hex, push_int};

verus! {

/// The unsigned number with the same 32 bits as `i`.
pub open spec fn bits_of(i: i32) -> nat {
    if i >= 0 {
        i as nat
    } else {
        (i + 0x1_0000_0000) as nat
    }
}

/// How the number of a constant is written: in decimal, or where `hex` is
/// set as the hexadecimal of its 32 bits behind `0x`.
pub open spec fn number_text(i: i32, hex: bool) -> Seq<char> {
    if hex {
        hex_text(bits_of(i))
    } else {
        int_text(i as int)
    }
}

/// Appends the number of a constant.
pub fn push_number(f: &mut String, i: i32, hex: bool)
    ensures
        final(f)@ == old(f)@ + number_text(i, hex),
{
    if hex {
        let bits: u64 = if i >= 0 {
            i as u64
        } else {
            (i as i64 + 0x1_0000_0000) as u64
        };
        push_hex(f, bits);
    } else {
        push_int(f, i as i64);
    }
}

/// The kinds of line that are written once for each constant.
#[derive(Clone, Copy, Debug, PartialEq, Eq, Structural)]
pub enum Arm {
    Variant,
    FromStr,
    Display,
    FromPrimitive,
}

/// The line of kind `arm` for the constant `e` of the table `name`.
pub open spec fn arm_text(arm: Arm, name: Seq<char>, hex: bool, e: CEnumView) -> Seq<char> {
    match arm {
        // a variant of the `enum`: the name and its number
        Arm::Variant => "    "@ + e.s + " = "@ + number_text(e.i, hex) + ",\n"@,
        // an arm of `from_str`: from the name to the variant
        Arm::FromStr => "            \""@ + e.s + "\" => Ok("@ + name + "::"@ + e.s + "),\n"@,
        // an arm of `fmt`: from the variant to its name
        Arm::Display => "            "@ + name + "::"@ + e.s + " => write!(f, \""@ + e.s + "\"),\n"@,
        // an arm of `from_i64` and `from_u64`: from the number to the variant
        Arm::FromPrimitive => "            "@ + number_text(e.i, hex) + " => Some("@ + name + "::"@ + e.s + "),\n"@,
    }
}

/// The lines of kind `arm` for the constants of a table, in their order.
pub open spec fn arms_text(arm: Arm, name: Seq<char>, hex: bool, entries: Seq<CEnumView>) -> Seq<
    char,
>
    decreases entries.len(),
{
    if entries.len() == 0 {
        Seq::empty()
    } else {
        arms_text(arm, name, hex, entries.drop_last()) + arm_text(arm, name, hex, entries.last())
    }
}

/// The line of kind `arm` for one constant.
fn arm_line(arm: Arm, name: &str, hex: bool, e: &CEnum) -> (s: String)
    ensures
        s@ == arm_text(arm, name@, hex, e@),
{
    match arm {
        Arm::Variant => {
            let mut s = "    ".to_owned();
            s.append(e.s.as_str());
            s.append(" = ");
            push_number(&mut s, e.i, hex);
            s.append(",\n");
            s
        },
        Arm::FromStr => {
            let mut s = "            \"".to_owned();
            s.append(e.s.as_str());
            s.append("\" => Ok(");
            s.append(name);
            s.append("::");
            s.append(e.s.as_str());
            s.append("),\n");
            s
        },
        Arm::Display => {
            let mut s = "            ".to_owned();
            s.append(name);
            s.append("::");
            s.append(e.s.as_str());
            s.append(" => write!(f, \"");
            s.append(e.s.as_str());
            s.append("\"),\n");
            s
        },
        Arm::FromPrimitive => {
            let mut s = "            ".to_owned();
            push_number(&mut s, e.i, hex);
            s.append(" => Some(");
            s.append(name);
            s.append("::");
            s.append(e.s.as_str());
            s.append("),\n");
            s
        },
    }
}

/// The lines of kind `arm` for the constants of a table, in their order.
pub fn arm_lines(arm: Arm, name: &str, hex: bool, entries: &Vec<CEnum>) -> (s: String)
    ensures
        s@ == arms_text(arm, name@, hex, entry_views(entries@)),
{
    let mut s = String::new();
    let mut i: usize = 0;
    let ghost all = entry_views(entries@);
    assert(all.take(0) =~= Seq::empty());
    while i < entries.len()
        invariant
            i <= entries.len(),
            all == entry_views(entries@),
            s@ == arms_text(arm, name@, hex, all.take(i as int)),
        decreases entries.len() - i,
    {
        let line = arm_line(arm, name, hex, &entries[i]);
        s.append(line.as_str());
        proof {
            assert(all.take(i + 1).drop_last() =~= all.take(i as int));
            assert(all.take(i + 1).last() == entries[i as int]@);
        }
        i = i + 1;
    }
    assert(all.take(all.len() as int) =~= all);
    s
}

/// The items that can be written for a table.
#[derive(Clone, Copy, Debug, PartialEq, Eq, Structural)]
pub enum FormatOutput {
    /// The `enum` with a variant for each constant.
    Enum,
    /// `FromStr`: from a name to its variant.
    FromStr,
    /// `Default`: the variant with the lowest number.
    Default,
    /// `Display`: from a variant to its name.
    Display,
    /// `FromPrimitive`: from a number to its variant.
    FromPrimitive,
    /// `pretty_fmt`: a mask decomposed into the names of its bits.
    PrettyFmt,
}

/// The `enum` of the table `name`: a variant for each constant, with its
/// number.
pub open spec fn enum_text(name: Seq<char>, hex: bool, entries: Seq<CEnumView>) -> Seq<char>
{
    "#[allow(dead_code, non_camel_case_types)]\npub enum "@
        + name
        + " {\n"@
        + arms_text(Arm::Variant, name, hex, entries)
        + "}\n"@
}

/// Writes what [`enum_text`] states.
pub fn write_enum(name: &str, hex: bool, entries: &Vec<CEnum>) -> (s: String)
    ensures
        s@ == enum_text(name@, hex, entry_views(entries@)),
{
    let mut s = "#[allow(dead_code, non_camel_case_types)]\npub enum ".to_owned();
    s.append(name);
    s.append(" {\n");
    s.append(arm_lines(Arm::Variant, name, hex, entries).as_str());
    s.append("}\n");
    s
}

/// The `FromStr` impl of the table `name`: an arm for each constant, and one
/// that refuses every other text.
pub open spec fn from_str_text(name: Seq<char>, hex: bool, entries: Seq<CEnumView>) -> Seq<char>
{
    "impl ::std::str::FromStr for "@
        + name
        + " {\n    type Err = ();\n    #[allow(dead_code)]\n    fn from_str(s: &str) -> Result<Self, Self::Err> {\n        match s {\n"@
        + arms_text(Arm::FromStr, name, hex, entries)
        + "            _ => Err( () )\n        }\n    }\n}\n"@
}

/// Writes what [`from_str_text`] states.
pub fn write_from_str(name: &str, hex: bool, entries: &Vec<CEnum>) -> (s: String)
    ensures
        s@ == from_str_text(name@, hex, entry_views(entries@)),
{
    let mut s = "impl ::std::str::FromStr for ".to_owned();
    s.append(name);
    s.append(" {\n    type Err = ();\n    #[allow(dead_code)]\n    fn from_str(s: &str) -> Result<Self, Self::Err> {\n        match s {\n");
    s.append(arm_lines(Arm::FromStr, name, hex, entries).as_str());
    s.append("            _ => Err( () )\n        }\n    }\n}\n");
    s
}

/// The `Default` impl of the table `name`: the first constant.
pub open spec fn default_text(name: Seq<char>, hex: bool, entries: Seq<CEnumView>) -> Seq<char>
    recommends
        entries.len() > 0,
{
    "impl Default for "@
        + name
        + " {\n    fn default() -> "@
        + name
        + " {\n        "@
        + name
        + "::"@
        + entries[0].s
        + "\n    }\n}\n"@
}

/// Writes what [`default_text`] states.
pub fn write_default(name: &str, hex: bool, entries: &Vec<CEnum>) -> (s: String)
    requires
        entries.len() > 0,
    ensures
        s@ == default_text(name@, hex, entry_views(entries@)),
{
    let mut s = "impl Default for ".to_owned();
    s.append(name);
    s.append(" {\n    fn default() -> ");
    s.append(name);
    s.append(" {\n        ");
    s.append(name);
    s.append("::");
    s.append(entries[0].s.as_str());
    s.append("\n    }\n}\n");
    s
}

/// The `Display` impl of the table `name`: an arm for each constant.
pub open spec fn display_text(name: Seq<char>, hex: bool, entries: Seq<CEnumView>) -> Seq<char>
{
    "impl ::std::fmt::Display for "@
        + name
        + " {\n    #[allow(dead_code)]\n    fn fmt(&self, f: &mut ::std::fmt::Formatter) -> ::std::fmt::Result {\n        match *self {\n"@
        + arms_text(Arm::Display, name, hex, entries)
        + "        }\n    }\n}\n"@
}

/// Writes what [`display_text`] states.
pub fn write_display(name: &str, hex: bool, entries: &Vec<CEnum>) -> (s: String)
    ensures
        s@ == display_text(name@, hex, entry_views(entries@)),
{
    let mut s = "impl ::std::fmt::Display for ".to_owned();
    s.append(name);
    s.append(" {\n    #[allow(dead_code)]\n    fn fmt(&self, f: &mut ::std::fmt::Formatter) -> ::std::fmt::Result {\n        match *self {\n");
    s.append(arm_lines(Arm::Display, name, hex, entries).as_str());
    s.append("        }\n    }\n}\n");
    s
}

/// The `FromPrimitive` impl of the table `name`: in each of its two
/// functions an arm for each constant, and one that refuses every other
/// number.
pub open spec fn from_primitive_text(name: Seq<char>, hex: bool, entries: Seq<CEnumView>) -> Seq<char>
{
    "impl ::num::traits::FromPrimitive for "@
        + name
        + " {\n    #[allow(dead_code)]\n    fn from_i64(n: i64) -> Option<Self> {\n        match n {\n"@
        + arms_text(Arm::FromPrimitive, name, hex, entries)
        + "            _ => None\n        }\n    }\n    #[allow(dead_code)]\n    fn from_u64(n: u64) -> Option<Self> {\n        match n {\n"@
        + arms_text(Arm::FromPrimitive, name, hex, entries)
        + "            _ => None\n        }\n    }\n}\n"@
}

/// Writes what [`from_primitive_text`] states.
pub fn write_from_primitive(name: &str, hex: bool, entries: &Vec<CEnum>) -> (s: String)
    ensures
        s@ == from_primitive_text(name@, hex, entry_views(entries@)),
{
    let arms = arm_lines(Arm::FromPrimitive, name, hex, entries);
    let mut s = "impl ::num::traits::FromPrimitive for ".to_owned();
    s.append(name);
    s.append(" {\n    #[allow(dead_code)]\n    fn from_i64(n: i64) -> Option<Self> {\n        match n {\n");
    s.append(arms.as_str());
    s.append("            _ => None\n        }\n    }\n    #[allow(dead_code)]\n    fn from_u64(n: u64) -> Option<Self> {\n        match n {\n");
    s.append(arms.as_str());
    s.append("            _ => None\n        }\n    }\n}\n");
    s
}

/// The `pretty_fmt` function of the table `name`, which walks the bits of a
/// mask up to the last constant.
pub open spec fn pretty_fmt_text(name: Seq<char>, hex: bool, entries: Seq<CEnumView>) -> Seq<char>
    recommends
        entries.len() > 0,
{
    "impl "@
        + name
        + " {\n    fn pretty_fmt(f: &mut ::std::fmt::Formatter, flags: u32) -> ::std::fmt::Result {\n        let mut shift: u32 = 0;\n        let mut result: u32 = 1<<shift;\n        let mut found = false;\n        while result <= "@
        + name
        + "::"@
        + entries.last().s
        + " as u32 {\n            let tmp = result & flags;\n            if tmp > 0 {\n                if found {\n                    try!(write!(f, \"|\"));\n                }\n                let flag = "@
        + name
        + "::from_u32(tmp).unwrap();\n                try!(write!(f, \"{}\", flag));\n                found = true;\n            }\n            shift += 1;\n            result = 1<<shift;\n        }\n        write!(f, \"\")\n    }\n}\n"@
}

/// Writes what [`pretty_fmt_text`] states.
pub fn write_pretty_fmt(name: &str, hex: bool, entries: &Vec<CEnum>) -> (s: String)
    requires
        entries.len() > 0,
    ensures
        s@ == pretty_fmt_text(name@, hex, entry_views(entries@)),
{
    let mut s = "impl ".to_owned();
    s.append(name);
    s.append(" {\n    fn pretty_fmt(f: &mut ::std::fmt::Formatter, flags: u32) -> ::std::fmt::Result {\n        let mut shift: u32 = 0;\n        let mut result: u32 = 1<<shift;\n        let mut found = false;\n        while result <= ");
    s.append(name);
    s.append("::");
    s.append(entries[entries.len() - 1].s.as_str());
    s.append(" as u32 {\n            let tmp = result & flags;\n            if tmp > 0 {\n                if found {\n                    try!(write!(f, \"|\"));\n                }\n                let flag = ");
    s.append(name);
    s.append("::from_u32(tmp).unwrap();\n                try!(write!(f, \"{}\", flag));\n                found = true;\n            }\n            shift += 1;\n            result = 1<<shift;\n        }\n        write!(f, \"\")\n    }\n}\n");
    s
}

impl FormatOutput {
    /// The text of this item for the table `name`.
    pub open spec fn text(self, name: Seq<char>, hex: bool, entries: Seq<CEnumView>) -> Seq<char>
        recommends
            entries.len() > 0 || (self != FormatOutput::Default && self != FormatOutput::PrettyFmt),
    {
        match self {
            FormatOutput::Enum => enum_text(name, hex, entries),
            FormatOutput::FromStr => from_str_text(name, hex, entries),
            FormatOutput::Default => default_text(name, hex, entries),
            FormatOutput::Display => display_text(name, hex, entries),
            FormatOutput::FromPrimitive => from_primitive_text(name, hex, entries),
            FormatOutput::PrettyFmt => pretty_fmt_text(name, hex, entries),
        }
    }

    /// Whether this item can be written for a table without constants.
    pub open spec fn spec_takes_empty(self) -> bool {
        self != FormatOutput::Default && self != FormatOutput::PrettyFmt
    }

    /// Whether this item can be written for a table without constants: all
    /// can but the two that name one of them.
    pub fn takes_empty(self) -> (r: bool)
        ensures
            r == self.spec_takes_empty(),
    {
        match self {
            FormatOutput::Default => false,
            FormatOutput::PrettyFmt => false,
            _ => true,
        }
    }

    /// Writes this item for the table `name` with the constants `entries`.
    pub fn write(self, name: &str, hex: bool, entries: &Vec<CEnum>) -> (s: String)
        requires
            entries.len() > 0 || self.spec_takes_empty(),
        ensures
            s@ == self.text(name@, hex, entry_views(entries@)),
    {
        match self {
            FormatOutput::Enum => write_enum(name, hex, entries),
            FormatOutput::FromStr => write_from_str(name, hex, entries),
            FormatOutput::Default => write_default(name, hex, entries),
            FormatOutput::Display => write_display(name, hex, entries),
            FormatOutput::FromPrimitive => write_from_primitive(name, hex, entries),
            FormatOutput::PrettyFmt => write_pretty_fmt(name, hex, entries),
        }
    }
}

} // verus!
