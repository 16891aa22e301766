use nl_dump::cenum::output::{arm_lines, push_number, Arm};
use nl_dump::cenum::{Args, CEnum, FormatOutput, Switches};

fn table() -> Vec<CEnum> {
    vec![CEnum::new(1, "IFF_UP"), CEnum::new(16, "IFF_POINTOPOINT"), CEnum::new(-1, "ALL")]
}

fn number(i: i32, hex: bool) -> String {
    let mut s = String::new();
    push_number(&mut s, i, hex);
    s
}

#[test]
fn numbers_in_decimal_and_hexadecimal() {
    assert_eq!(number(0, false), "0");
    assert_eq!(number(16, false), "16");
    assert_eq!(number(-3, false), "-3");
    assert_eq!(number(i32::MIN, false), "-2147483648");
    assert_eq!(number(0, true), "0x0");
    assert_eq!(number(16, true), "0x10");
    assert_eq!(number(0x40000, true), "0x40000");
    assert_eq!(number(-1, true), "0xFFFFFFFF");
    assert_eq!(number(i32::MIN, true), "0x80000000");
    for i in [0, 1, -2, 255, i32::MAX, i32::MIN] {
        assert_eq!(number(i, true), format!("0x{:X}", i));
        assert_eq!(number(i, false), format!("{}", i));
    }
}

#[test]
fn the_enum_itself() {
    assert_eq!(
        FormatOutput::Enum.write("Flags", false, &table()),
        "#[allow(dead_code, non_camel_case_types)]\n\
         pub enum Flags {\n\
         \x20   IFF_UP = 1,\n\
         \x20   IFF_POINTOPOINT = 16,\n\
         \x20   ALL = -1,\n\
         }\n"
    );
    assert_eq!(
        FormatOutput::Enum.write("Flags", true, &table()),
        "#[allow(dead_code, non_camel_case_types)]\n\
         pub enum Flags {\n\
         \x20   IFF_UP = 0x1,\n\
         \x20   IFF_POINTOPOINT = 0x10,\n\
         \x20   ALL = 0xFFFFFFFF,\n\
         }\n"
    );
    assert_eq!(
        FormatOutput::Enum.write("Empty", false, &Vec::new()),
        "#[allow(dead_code, non_camel_case_types)]\npub enum Empty {\n}\n"
    );
}

#[test]
fn from_str_impl() {
    assert_eq!(
        FormatOutput::FromStr.write("Flags", true, &table()),
        "impl ::std::str::FromStr for Flags {\n\
         \x20   type Err = ();\n\
         \x20   #[allow(dead_code)]\n\
         \x20   fn from_str(s: &str) -> Result<Self, Self::Err> {\n\
         \x20       match s {\n\
         \x20           \"IFF_UP\" => Ok(Flags::IFF_UP),\n\
         \x20           \"IFF_POINTOPOINT\" => Ok(Flags::IFF_POINTOPOINT),\n\
         \x20           \"ALL\" => Ok(Flags::ALL),\n\
         \x20           _ => Err( () )\n\
         \x20       }\n\
         \x20   }\n\
         }\n"
    );
}

#[test]
fn default_impl() {
    assert_eq!(
        FormatOutput::Default.write("Flags", false, &table()),
        "impl Default for Flags {\n\
         \x20   fn default() -> Flags {\n\
         \x20       Flags::IFF_UP\n\
         \x20   }\n\
         }\n"
    );
}

#[test]
fn display_impl() {
    assert_eq!(
        FormatOutput::Display.write("Flags", false, &table()),
        "impl ::std::fmt::Display for Flags {\n\
         \x20   #[allow(dead_code)]\n\
         \x20   fn fmt(&self, f: &mut ::std::fmt::Formatter) -> ::std::fmt::Result {\n\
         \x20       match *self {\n\
         \x20           Flags::IFF_UP => write!(f, \"IFF_UP\"),\n\
         \x20           Flags::IFF_POINTOPOINT => write!(f, \"IFF_POINTOPOINT\"),\n\
         \x20           Flags::ALL => write!(f, \"ALL\"),\n\
         \x20       }\n\
         \x20   }\n\
         }\n"
    );
}

#[test]
fn from_primitive_impl() {
    let arms = "            0x1 => Some(Flags::IFF_UP),\n\
                \x20           0x10 => Some(Flags::IFF_POINTOPOINT),\n\
                \x20           0xFFFFFFFF => Some(Flags::ALL),\n";
    assert_eq!(arm_lines(Arm::FromPrimitive, "Flags", true, &table()), arms);
    assert_eq!(
        FormatOutput::FromPrimitive.write("Flags", true, &table()),
        format!(
            "impl ::num::traits::FromPrimitive for Flags {{\n\
             \x20   #[allow(dead_code)]\n\
             \x20   fn from_i64(n: i64) -> Option<Self> {{\n\
             \x20       match n {{\n\
             {arms}\
             \x20           _ => None\n\
             \x20       }}\n\
             \x20   }}\n\
             \x20   #[allow(dead_code)]\n\
             \x20   fn from_u64(n: u64) -> Option<Self> {{\n\
             \x20       match n {{\n\
             {arms}\
             \x20           _ => None\n\
             \x20       }}\n\
             \x20   }}\n\
             }}\n"
        )
    );
    assert_eq!(
        arm_lines(Arm::FromPrimitive, "T", false, &vec![CEnum::new(-7, "NEG")]),
        "            -7 => Some(T::NEG),\n"
    );
    assert_eq!(arm_lines(Arm::Variant, "T", false, &Vec::new()), "");
}

#[test]
fn pretty_fmt_function() {
    assert_eq!(
        FormatOutput::PrettyFmt.write("Flags", false, &table()),
        "impl Flags {\n\
         \x20   fn pretty_fmt(f: &mut ::std::fmt::Formatter, flags: u32) -> ::std::fmt::Result {\n\
         \x20       let mut shift: u32 = 0;\n\
         \x20       let mut result: u32 = 1<<shift;\n\
         \x20       let mut found = false;\n\
         \x20       while result <= Flags::ALL as u32 {\n\
         \x20           let tmp = result & flags;\n\
         \x20           if tmp > 0 {\n\
         \x20               if found {\n\
         \x20                   try!(write!(f, \"|\"));\n\
         \x20               }\n\
         \x20               let flag = Flags::from_u32(tmp).unwrap();\n\
         \x20               try!(write!(f, \"{}\", flag));\n\
         \x20               found = true;\n\
         \x20           }\n\
         \x20           shift += 1;\n\
         \x20           result = 1<<shift;\n\
         \x20       }\n\
         \x20       write!(f, \"\")\n\
         \x20   }\n\
         }\n"
    );
}

#[test]
fn items_that_need_a_constant() {
    assert!(FormatOutput::Enum.takes_empty());
    assert!(FormatOutput::FromStr.takes_empty());
    assert!(FormatOutput::Display.takes_empty());
    assert!(FormatOutput::FromPrimitive.takes_empty());
    assert!(!FormatOutput::Default.takes_empty());
    assert!(!FormatOutput::PrettyFmt.takes_empty());
}

fn switches() -> Switches {
    Switches::default()
}

#[test]
fn arguments_without_switches() {
    let a = Args::new(None, None, None, switches());
    assert_eq!(a.input, None);
    assert_eq!(a.output, None);
    assert_eq!(a.name, "Name");
    assert!(!a.c_enum && !a.default && !a.display && !a.fromstr && !a.fromprimative);
    assert!(!a.hex && !a.pretty_fmt);
    assert_eq!(a.outputs(), vec![FormatOutput::Enum]);
}

#[test]
fn arguments_as_given() {
    let s = Switches { c_enum: true, hex: true, fromstr: true, ..switches() };
    let a = Args::new(Some("in.h".to_string()), Some("out.rs".to_string()), Some("Ifla".to_string()), s);
    assert_eq!(a.input.as_deref(), Some("in.h"));
    assert_eq!(a.output.as_deref(), Some("out.rs"));
    assert_eq!(a.name, "Ifla");
    assert!(a.c_enum && a.hex && a.fromstr);
    assert!(!a.default && !a.display && !a.fromprimative && !a.pretty_fmt);
    assert_eq!(a.outputs(), vec![FormatOutput::Enum, FormatOutput::FromStr]);
}

#[test]
fn pretty_fmt_brings_what_it_needs() {
    let a = Args::new(None, None, None, Switches { pretty_fmt: true, ..switches() });
    assert!(a.pretty_fmt && a.fromprimative && a.display);
    assert!(!a.default && !a.fromstr);
    assert_eq!(
        a.outputs(),
        vec![
            FormatOutput::Enum,
            FormatOutput::Display,
            FormatOutput::FromPrimitive,
            FormatOutput::PrettyFmt
        ]
    );
}

#[test]
fn all_selects_every_item() {
    let a = Args::new(None, None, None, Switches { all: true, ..switches() });
    assert!(a.default && a.display && a.fromprimative && a.fromstr && a.pretty_fmt);
    assert!(!a.hex && !a.c_enum);
    assert_eq!(
        a.outputs(),
        vec![
            FormatOutput::Enum,
            FormatOutput::FromStr,
            FormatOutput::Default,
            FormatOutput::Display,
            FormatOutput::FromPrimitive,
            FormatOutput::PrettyFmt
        ]
    );
    let d = Args::new(None, None, None, Switches { default: true, display: true, ..switches() });
    assert_eq!(
        d.outputs(),
        vec![FormatOutput::Enum, FormatOutput::Default, FormatOutput::Display]
    );
}
