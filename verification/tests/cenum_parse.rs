use nl_dump::cenum::number::parse_radix;
use nl_dump::cenum::scan::{line_pattern, read_int, read_shift, DEFINE_PATTERN, ENUM_PATTERN};
use nl_dump::cenum::sort::sort_by_number;
use nl_dump::cenum::{get_num, parse_buff, CEnum};

fn lines(s: &str) -> Vec<String> {
    s.lines().map(String::from).collect()
}

#[test]
fn test_parse_buff() {
    let s = "#define NETLINK_ROUTE 0\n\
    #define NETLINK_UNUSED 1\n\
    #define NETLINK_FIREWALL 3\n\
    #define NETLINK_SOCK_DIAG 4\n\
    #define NETLINK_GENERIC 16";

    let buff = lines(s);

    let v = parse_buff(&buff, false).unwrap();

    assert!(v[0].i == 0); assert!(v[0].s == "NETLINK_ROUTE");
    assert!(v[1].i == 1); assert!(v[1].s == "NETLINK_UNUSED");
    assert!(v[2].i == 3); assert!(v[2].s == "NETLINK_FIREWALL");
    assert!(v[3].i == 4); assert!(v[3].s == "NETLINK_SOCK_DIAG");
    assert!(v[4].i == 16); assert!(v[4].s == "NETLINK_GENERIC");
}

#[test]
fn test_parse_buff_enum() {
    let s = "RTM_NEWLINK    = 16,\n\
             #define RTM_NEWLINK    RTM_NEWLINK\n\
                 RTM_DELLINK,\n\
             #define RTM_DELLINK    RTM_DELLINK\n\
                 RTM_GETLINK,\n\
             #define RTM_GETLINK    RTM_GETLINK\n\
                 RTM_SETLINK,\n\
             #define RTM_SETLINK    RTM_SETLINK\n\n\
                 RTM_NEWADDR    = 20,\n\
             #define RTM_NEWADDR    RTM_NEWADDR\n\
                 RTM_DELADDR,";

    let buff = lines(s);
    let v = parse_buff(&buff, true).unwrap();

    assert!(v[0].i == 16); assert!(v[0].s == "RTM_NEWLINK");
    assert!(v[1].i == 17); assert!(v[1].s == "RTM_DELLINK");
    assert!(v[2].i == 18); assert!(v[2].s == "RTM_GETLINK");
    assert!(v[3].i == 19); assert!(v[3].s == "RTM_SETLINK");
    assert!(v[4].i == 20); assert!(v[4].s == "RTM_NEWADDR");
    assert!(v[5].i == 21); assert!(v[5].s == "RTM_DELADDR");
    assert_eq!(v.len(), 6);
}

fn pairs(v: &[CEnum]) -> Vec<(i32, String)> {
    v.iter().map(|e| (e.i, e.s.clone())).collect()
}

#[test]
fn defines_come_out_ordered_by_number() {
    let buff = lines(
        "#define C 0x10\n#define A 1<<3\n/* a comment */\n#define B 2\n\n  #define INDENTED 1\n#define D\t9",
    );
    let v = parse_buff(&buff, false).unwrap();
    assert_eq!(
        pairs(&v),
        vec![(2, "B".to_string()), (8, "A".to_string()), (9, "D".to_string()), (16, "C".to_string())]
    );
}

#[test]
fn equal_numbers_keep_the_order_of_the_lines() {
    let buff = lines("#define X 5\n#define Y 1\n#define Z 5\n#define W 1\n#define V 5");
    let v = parse_buff(&buff, false).unwrap();
    assert_eq!(
        pairs(&v),
        vec![
            (1, "Y".to_string()),
            (1, "W".to_string()),
            (5, "X".to_string()),
            (5, "Z".to_string()),
            (5, "V".to_string())
        ]
    );
}

#[test]
fn enum_lines_count_on_from_the_last_number() {
    let buff = lines("  IFLA_UNSPEC,\n\tIFLA_ADDRESS,\nIFLA_MTU = 0x4 ,\nIFLA_LINK,\nnot a line\nLAST = 1<<4,");
    let v = parse_buff(&buff, true).unwrap();
    assert_eq!(
        pairs(&v),
        vec![
            (0, "IFLA_UNSPEC".to_string()),
            (1, "IFLA_ADDRESS".to_string()),
            (4, "IFLA_MTU".to_string()),
            (5, "IFLA_LINK".to_string()),
            (16, "LAST".to_string())
        ]
    );
}

#[test]
fn a_header_without_constants_is_empty() {
    assert_eq!(parse_buff(&Vec::new(), false).unwrap().len(), 0);
    assert_eq!(parse_buff(&lines("int x;\n// nothing\n"), true).unwrap().len(), 0);
    assert_eq!(parse_buff(&lines("#define\n#define ONLY_NAME\n"), false).unwrap().len(), 0);
}

#[test]
fn a_number_that_cannot_be_read_fails_the_header() {
    assert!(parse_buff(&lines("#define A 1\n#define B A\n#define C 2"), false).is_none());
    assert!(parse_buff(&lines("#define A 0x1F"), false).is_none());
    assert!(parse_buff(&lines("A = 1,\nB = (A+1),"), true).is_none());
    assert!(parse_buff(&lines("#define A 4294967296"), false).is_none());
}

#[test]
fn counting_goes_on_past_the_largest_number() {
    let v = parse_buff(&lines("A = 2147483647,\nB,"), true).unwrap();
    assert_eq!(pairs(&v), vec![(i32::MIN, "B".to_string()), (i32::MAX, "A".to_string())]);
}

#[test]
fn numbers_as_headers_write_them() {
    assert_eq!(get_num("0"), Some(0));
    assert_eq!(get_num("16"), Some(16));
    assert_eq!(get_num("0016"), Some(16));
    assert_eq!(get_num("0x10"), Some(16));
    assert_eq!(get_num("0x0"), Some(0));
    assert_eq!(get_num("2147483647"), Some(i32::MAX));
    assert_eq!(get_num("0x7999"), Some(0x7999));
    assert_eq!(get_num("1<<0"), Some(1));
    assert_eq!(get_num("1 << 3"), Some(8));
    assert_eq!(get_num("3\t<<  4"), Some(48));
    assert_eq!(get_num("1<<31"), Some(i32::MIN));
    assert_eq!(get_num("3 << 31"), Some(i32::MIN));
    assert_eq!(get_num("5 << 30"), Some(0x4000_0000));
}

#[test]
fn texts_that_are_no_numbers() {
    for s in [
        "", " ", "x", "0x", "0x1F", "0xg", "-1", "+1", " 1", "1 ", "1.5", "1 << ", "<< 1", "1 < < 2",
        "1 << 32", "1 << 99999999999", "2147483648", "0x80000000", "99999999999999999999",
        "1 << 0x2", "RTM_NEWLINK",
    ] {
        assert_eq!(get_num(s), None, "{:?}", s);
    }
}

fn groups(g: &[Option<&str>]) -> Vec<Option<String>> {
    g.iter().map(|o| o.map(String::from)).collect()
}

#[test]
fn number_out_of_the_groups_of_a_match() {
    assert_eq!(read_int(&groups(&[Some("12"), None, Some("12")])), Some(12));
    assert_eq!(read_int(&groups(&[Some("0x12"), Some("0x"), Some("12")])), Some(18));
    assert_eq!(read_int(&groups(&[Some("0xff"), Some("0x"), Some("ff")])), Some(255));
    assert_eq!(read_int(&groups(&[Some("ff"), None, Some("ff")])), None);
    assert_eq!(read_int(&groups(&[Some("-5"), None, Some("-5")])), Some(-5));
    assert_eq!(read_int(&groups(&[Some("12"), None, None])), None);
    assert_eq!(read_int(&groups(&[Some("12"), None])), None);
    assert_eq!(read_int(&groups(&[])), None);

    assert_eq!(read_shift(&groups(&[Some("1<<4"), Some("1"), Some("4")])), Some(16));
    assert_eq!(read_shift(&groups(&[Some(""), Some("-1"), Some("4")])), Some(-16));
    assert_eq!(read_shift(&groups(&[Some(""), Some("1"), Some("32")])), None);
    assert_eq!(read_shift(&groups(&[Some(""), Some("1"), Some("-1")])), None);
    assert_eq!(read_shift(&groups(&[Some(""), Some("x"), Some("1")])), None);
    assert_eq!(read_shift(&groups(&[Some(""), Some("1"), Some("x")])), None);
    assert_eq!(read_shift(&groups(&[Some(""), None, Some("1")])), None);
    assert_eq!(read_shift(&groups(&[Some(""), Some("1")])), None);
}

#[test]
fn integers_in_a_base() {
    assert_eq!(parse_radix("0", 10), Some(0));
    assert_eq!(parse_radix("42", 10), Some(42));
    assert_eq!(parse_radix("+42", 10), Some(42));
    assert_eq!(parse_radix("-42", 10), Some(-42));
    assert_eq!(parse_radix("-0", 10), Some(0));
    assert_eq!(parse_radix("000000000000000000000000007", 10), Some(7));
    assert_eq!(parse_radix("ff", 16), Some(255));
    assert_eq!(parse_radix("FF", 16), Some(255));
    assert_eq!(parse_radix("7fffffff", 16), Some(i32::MAX));
    assert_eq!(parse_radix("-80000000", 16), Some(i32::MIN));
    assert_eq!(parse_radix("z", 36), Some(35));
    assert_eq!(parse_radix("Z", 36), Some(35));
    assert_eq!(parse_radix("101", 2), Some(5));
    assert_eq!(parse_radix("2147483647", 10), Some(i32::MAX));
    assert_eq!(parse_radix("-2147483648", 10), Some(i32::MIN));
    for (s, radix) in [
        ("", 10u32), ("+", 10), ("-", 10), ("--1", 10), ("1-", 10), ("12a", 10), ("a", 10),
        ("g", 16), ("2", 2), ("z", 35), (" 1", 10), ("1 ", 10), ("2147483648", 10),
        ("-2147483649", 10), ("80000000", 16), ("99999999999999999999999", 10), ("١", 10),
    ] {
        assert_eq!(parse_radix(s, radix), None, "{:?} in base {}", s, radix);
    }
    for n in [0i32, 1, -1, 9, 10, 255, -256, 65535, i32::MAX, i32::MIN] {
        for radix in [2u32, 8, 10, 16, 36] {
            assert_eq!(i32::from_str_radix(&n.to_string(), 10).ok(), parse_radix(&n.to_string(), 10));
            let text = format!("{:x}", n.unsigned_abs());
            if radix == 16 && n >= 0 {
                assert_eq!(parse_radix(&text, radix), Some(n));
            }
        }
    }
}

#[test]
fn ordering_a_list() {
    let v = vec![
        CEnum::new(3, "c"),
        CEnum::new(-1, "a"),
        CEnum::new(3, "d"),
        CEnum::new(0, "b"),
        CEnum::new(-1, "e"),
    ];
    let s = sort_by_number(v);
    assert_eq!(
        pairs(&s),
        vec![
            (-1, "a".to_string()),
            (-1, "e".to_string()),
            (0, "b".to_string()),
            (3, "c".to_string()),
            (3, "d".to_string())
        ]
    );
    assert!(sort_by_number(Vec::new()).is_empty());
    let one = sort_by_number(vec![CEnum::new(7, "x")]);
    assert_eq!(pairs(&one), vec![(7, "x".to_string())]);
}

#[test]
fn pattern_of_each_kind_of_line() {
    assert_eq!(line_pattern(true), ENUM_PATTERN);
    assert_eq!(line_pattern(false), DEFINE_PATTERN);
}
