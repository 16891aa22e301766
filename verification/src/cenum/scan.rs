//! Reading the constants out of the lines of a C header. The lines are
//! matched by regular expressions; what follows a match is decided here.

use vstd::prelude::*;
use crate::cenum::entry::{CEnum, CEnumView};
use crate::cenum::number::{parse_radix, radix_value};
use crate::cenum::sort::{entry_views, sort_by_number, sorted_by_number};

verus! {

/// A decimal number, or a number behind `0x`: the prefix is group 1, the
/// digits are group 2.
pub const INT_PATTERN: &'static str = "^(0x)?([[:digit:]]+)$";

/// A decimal number shifted left by another: groups 1 and 2.
pub const SHIFT_PATTERN: &'static str =
    "^([[:digit:]]+)[[:space:]]*<<[[:space:]]*([[:digit:]]+)$";

/// A line of an `enum`: the name is group 1, the number behind `=`, where
/// there is one, group 3.
pub const ENUM_PATTERN: &'static str =
    "^[[:space:]]*([[:alnum:]_]+)([[:space:]]*=[[:space:]]*([[:graph:]]+))?[[:space:]]*,";

/// A `#define` line: the name is group 1, the number group 2.
pub const DEFINE_PATTERN: &'static str =
    "^#define[[:space:]]+([[:graph:]]+)[[:space:]]+([[:graph:]]+)";

/// The groups of the first match of the regular expression `pattern` in
/// `haystack`, the whole match first; a group that took no part is `None`.
/// No match, or a pattern that does not compile, is `None`.
pub uninterp spec fn regex_captures(pattern: Seq<char>, haystack: Seq<char>) -> Option<
    Seq<Option<Seq<char>>>,
>;

/// The groups of each of the successive matches of the regular expression
/// `pattern` in `haystack` that do not overlap, in their order. A pattern
/// that does not compile has none.
pub uninterp spec fn regex_captures_iter(pattern: Seq<char>, haystack: Seq<char>) -> Seq<
    Seq<Option<Seq<char>>>,
>;

/// `regex::Regex::new` and `regex::Regex::captures`: compiles `pattern` and
/// searches `haystack` for its first match. The result is a function of the
/// two texts; it is handed out as owned strings, one for each group.
#[verifier::external_body]
fn captures(pattern: &str, haystack: &str) -> (r: Option<Vec<Option<String>>>)
    ensures
        r.deep_view() == regex_captures(pattern@, haystack@),
{
    let re = regex::Regex::new(pattern).ok()?;
    let caps = re.captures(haystack)?;
    Some(caps.iter().map(|m| m.map(|m| m.as_str().to_owned())).collect())
}

/// `regex::Regex::new` and `regex::Regex::captures_iter`: compiles `pattern`
/// and walks the matches in `haystack`. The result is a function of the two
/// texts; it is handed out as owned strings, one for each group of each
/// match.
#[verifier::external_body]
fn captures_iter(pattern: &str, haystack: &str) -> (r: Vec<Vec<Option<String>>>)
    ensures
        r.deep_view() == regex_captures_iter(pattern@, haystack@),
{
    match regex::Regex::new(pattern) {
        Ok(re) => re.captures_iter(haystack).map(
            |caps| caps.iter().map(|m| m.map(|m| m.as_str().to_owned())).collect(),
        ).collect(),
        Err(_) => Vec::new(),
    }
}

/// The group `k` of a match, if the match has one and it took part.
pub open spec fn group(groups: Seq<Option<Seq<char>>>, k: int) -> Option<Seq<char>> {
    if 0 <= k < groups.len() {
        groups[k]
    } else {
        None
    }
}

/// The group `k` of a match, if the match has one and it took part.
fn group_of(groups: &Vec<Option<String>>, k: usize) -> (r: Option<&String>)
    ensures
        r.deep_view() == group(groups.deep_view(), k as int),
{
    if k < groups.len() {
        groups[k].as_ref()
    } else {
        None
    }
}

/// The number that a match of [`INT_PATTERN`] writes: group 2 read in base
/// sixteen where group 1 took part, else in base ten.
pub open spec fn int_of_groups(groups: Seq<Option<Seq<char>>>) -> Option<i32> {
    match group(groups, 2) {
        None => None,
        Some(digits) => radix_value(
            digits,
            if group(groups, 1) is Some {
                16
            } else {
                10
            },
        ),
    }
}

/// The number that a match of [`SHIFT_PATTERN`] writes: group 1 shifted left
/// by group 2, both read in base ten. Bits shifted out of the 32 are lost; a
/// shift by 32 or more is no number.
pub open spec fn shift_of_groups(groups: Seq<Option<Seq<char>>>) -> Option<i32> {
    match (group(groups, 1), group(groups, 2)) {
        (Some(left), Some(right)) => match (radix_value(left, 10), radix_value(right, 10)) {
            (Some(l), Some(r)) => if 0 <= r < 32 {
                Some(l << r)
            } else {
                None
            },
            _ => None,
        },
        _ => None,
    }
}

/// The number that a text writes, given what the two patterns find in it: a
/// match of [`INT_PATTERN`] decides; without one, a match of
/// [`SHIFT_PATTERN`] does; without either the text is no number.
pub open spec fn num_of_captures(
    int_caps: Option<Seq<Option<Seq<char>>>>,
    shift_caps: Option<Seq<Option<Seq<char>>>>,
) -> Option<i32> {
    match int_caps {
        Some(groups) => int_of_groups(groups),
        None => match shift_caps {
            Some(groups) => shift_of_groups(groups),
            None => None,
        },
    }
}

/// The number that the text `s` writes.
pub open spec fn num_of_text(s: Seq<char>) -> Option<i32> {
    num_of_captures(regex_captures(INT_PATTERN@, s), regex_captures(SHIFT_PATTERN@, s))
}

/// Reads the number out of a match of [`INT_PATTERN`].
pub fn read_int(groups: &Vec<Option<String>>) -> (r: Option<i32>)
    ensures
        r == int_of_groups(groups.deep_view()),
{
    let radix: u32 = match group_of(groups, 1) {
        Some(_) => 16,
        None => 10,
    };
    match group_of(groups, 2) {
        Some(digits) => parse_radix(digits.as_str(), radix),
        None => None,
    }
}

/// Reads the number out of a match of [`SHIFT_PATTERN`].
pub fn read_shift(groups: &Vec<Option<String>>) -> (r: Option<i32>)
    ensures
        r == shift_of_groups(groups.deep_view()),
{
    let left = match group_of(groups, 1) {
        Some(text) => text,
        None => {
            return None;
        },
    };
    let right = match group_of(groups, 2) {
        Some(text) => text,
        None => {
            return None;
        },
    };
    let l = match parse_radix(left.as_str(), 10) {
        Some(n) => n,
        None => {
            return None;
        },
    };
    let r = match parse_radix(right.as_str(), 10) {
        Some(n) => n,
        None => {
            return None;
        },
    };
    if 0 <= r && r < 32 {
        Some(l << r)
    } else {
        None
    }
}

/// Reads a number as a C header writes it: in decimal, behind `0x`, or as
/// one decimal number shifted left by another.
pub fn get_num(s: &str) -> (r: Option<i32>)
    ensures
        r == num_of_text(s@),
{
    match captures(INT_PATTERN, s) {
        Some(groups) => read_int(&groups),
        None => match captures(SHIFT_PATTERN, s) {
            Some(groups) => read_shift(&groups),
            None => None,
        },
    }
}

/// The pattern that a line is matched by.
pub open spec fn spec_line_pattern(parse_enum: bool) -> &'static str {
    if parse_enum {
        ENUM_PATTERN
    } else {
        DEFINE_PATTERN
    }
}

/// The pattern that a line is matched by: that of an `enum` line where
/// `parse_enum` is set, else that of a `#define` line.
pub fn line_pattern(parse_enum: bool) -> (r: &'static str)
    ensures
        r == spec_line_pattern(parse_enum),
{
    if parse_enum {
        ENUM_PATTERN
    } else {
        DEFINE_PATTERN
    }
}

/// The number after `i` where there is one, else the lowest number.
pub open spec fn next_number(i: i32) -> i32 {
    if i == i32::MAX {
        i32::MIN
    } else {
        (i + 1) as i32
    }
}

/// How far a header has been read: the constants found, in the order of the
/// lines, and the number of an `enum` line that gives none.
pub ghost struct Scan {
    pub entries: Seq<CEnumView>,
    pub num: i32,
}

/// The number of the constant that a match holds. An `enum` line gives it
/// in group 3 or, without one, goes on counting; a `#define` line gives it
/// in group 2.
pub open spec fn number_of_match(
    groups: Seq<Option<Seq<char>>>,
    parse_enum: bool,
    num: i32,
) -> Option<i32> {
    if parse_enum {
        match group(groups, 3) {
            Some(text) => num_of_text(text),
            None => Some(num),
        }
    } else {
        match group(groups, 2) {
            Some(text) => num_of_text(text),
            None => None,
        }
    }
}

/// One match more: its constant, named by group 1, is added, and counting
/// goes on behind its number. A match whose number cannot be read, or that
/// has no name, fails the whole scan.
pub open spec fn scan_match(state: Option<Scan>, groups: Seq<Option<Seq<char>>>, parse_enum: bool)
    -> Option<Scan> {
    match state {
        None => None,
        Some(scan) => match (number_of_match(groups, parse_enum, scan.num), group(groups, 1)) {
            (Some(i), Some(name)) => Some(
                Scan { entries: scan.entries.push(CEnumView { i, s: name }), num: next_number(i) },
            ),
            _ => None,
        },
    }
}

/// The matches of one line, one after another.
pub open spec fn scan_matches(
    state: Option<Scan>,
    matches: Seq<Seq<Option<Seq<char>>>>,
    parse_enum: bool,
) -> Option<Scan>
    decreases matches.len(),
{
    if matches.len() == 0 {
        state
    } else {
        scan_match(scan_matches(state, matches.drop_last(), parse_enum), matches.last(), parse_enum)
    }
}

/// The lines of a header, one after another, each matched by the pattern of
/// its kind. Counting starts at 0.
pub open spec fn scan_lines(lines: Seq<Seq<char>>, parse_enum: bool) -> Option<Scan>
    decreases lines.len(),
{
    if lines.len() == 0 {
        Some(Scan { entries: Seq::empty(), num: 0 })
    } else {
        scan_matches(
            scan_lines(lines.drop_last(), parse_enum),
            regex_captures_iter(spec_line_pattern(parse_enum)@, lines.last()),
            parse_enum,
        )
    }
}

/// The constants of a header, ordered by number; none if a number cannot be
/// read.
pub open spec fn constants_of(lines: Seq<Seq<char>>, parse_enum: bool) -> Option<Seq<CEnumView>> {
    match scan_lines(lines, parse_enum) {
        Some(scan) => Some(sorted_by_number(scan.entries)),
        None => None,
    }
}

/// The constant that one match holds and the number at which counting goes
/// on, or `None` where the match fails the scan.
fn read_match(groups: &Vec<Option<String>>, parse_enum: bool, num: i32) -> (r: Option<
    (CEnum, i32),
>)
    ensures
        match r {
            Some((entry, next)) => number_of_match(groups.deep_view(), parse_enum, num) == Some(
                entry.i,
            ) && group(groups.deep_view(), 1) == Some(entry.s@) && next == next_number(entry.i),
            None => number_of_match(groups.deep_view(), parse_enum, num) is None || group(
                groups.deep_view(),
                1,
            ) is None,
        },
{
    let number = if parse_enum {
        match group_of(groups, 3) {
            Some(text) => get_num(text.as_str()),
            None => Some(num),
        }
    } else {
        match group_of(groups, 2) {
            Some(text) => get_num(text.as_str()),
            None => None,
        }
    };
    match (number, group_of(groups, 1)) {
        (Some(i), Some(name)) => {
            let next = if i == i32::MAX {
                i32::MIN
            } else {
                i + 1
            };
            Some((CEnum::new(i, name.as_str()), next))
        },
        _ => None,
    }
}

/// Reads the constants out of the lines of a header: the `enum` lines where
/// `parse_enum` is set, else the `#define` lines. The constants come out
/// ordered by number; `None` if the number of one cannot be read.
pub fn parse_buff(lines: &Vec<String>, parse_enum: bool) -> (r: Option<Vec<CEnum>>)
    ensures
        match r {
            Some(v) => constants_of(lines.deep_view(), parse_enum) == Some(entry_views(v@)),
            None => constants_of(lines.deep_view(), parse_enum) is None,
        },
{
    let pattern = line_pattern(parse_enum);
    let mut v: Vec<CEnum> = Vec::new();
    let mut num: i32 = 0;
    let mut n: usize = 0;
    let ghost all = lines.deep_view();
    assert(all.take(0) =~= Seq::empty());
    assert(entry_views(v@) =~= Seq::empty());
    while n < lines.len()
        invariant
            n <= lines.len(),
            all == lines.deep_view(),
            pattern == spec_line_pattern(parse_enum),
            scan_lines(all.take(n as int), parse_enum) == Some(
                Scan { entries: entry_views(v@), num },
            ),
        decreases lines.len() - n,
    {
        let matches = captures_iter(pattern, lines[n].as_str());
        let ghost found = matches.deep_view();
        let ghost before = scan_lines(all.take(n as int), parse_enum);
        let mut k: usize = 0;
        proof {
            assert(all.take(n + 1).drop_last() =~= all.take(n as int));
            assert(all.take(n + 1).last() == lines[n as int]@);
            assert(found.take(0) =~= Seq::empty());
        }
        while k < matches.len()
            invariant
                k <= matches.len(),
                n < all.len(),
                all == lines.deep_view(),
                found == matches.deep_view(),
                scan_lines(all.take(n + 1), parse_enum) == scan_matches(before, found, parse_enum),
                scan_matches(before, found.take(k as int), parse_enum) == Some(
                    Scan { entries: entry_views(v@), num },
                ),
            decreases matches.len() - k,
        {
            let ghost entries = entry_views(v@);
            proof {
                assert(found.take(k + 1).drop_last() =~= found.take(k as int));
                assert(found.take(k + 1).last() == matches[k as int].deep_view());
            }
            match read_match(&matches[k], parse_enum, num) {
                None => {
                    proof {
                        lemma_scan_matches_fails(before, found, k + 1, parse_enum);
                        lemma_scan_lines_fails(all, n + 1, parse_enum);
                    }
                    return None;
                },
                Some((entry, next)) => {
                    v.push(entry);
                    num = next;
                    proof {
                        assert(entry_views(v@) =~= entries.push(entry@));
                    }
                },
            }
            k = k + 1;
        }
        proof {
            assert(found.take(found.len() as int) =~= found);
        }
        n = n + 1;
    }
    proof {
        assert(all.take(all.len() as int) =~= all);
    }
    Some(sort_by_number(v))
}

/// Matches that fail the scan up to some place fail it as a whole.
proof fn lemma_scan_matches_fails(
    state: Option<Scan>,
    matches: Seq<Seq<Option<Seq<char>>>>,
    k: int,
    parse_enum: bool,
)
    requires
        0 <= k <= matches.len(),
        scan_matches(state, matches.take(k), parse_enum) is None,
    ensures
        scan_matches(state, matches, parse_enum) is None,
    decreases matches.len() - k,
{
    if k < matches.len() {
        assert(matches.take(k + 1).drop_last() =~= matches.take(k));
        lemma_scan_matches_fails(state, matches, k + 1, parse_enum);
    } else {
        assert(matches.take(k) =~= matches);
    }
}

/// A scan that has failed stays failed whatever matches follow.
proof fn lemma_scan_matches_of_none(matches: Seq<Seq<Option<Seq<char>>>>, parse_enum: bool)
    ensures
        scan_matches(None, matches, parse_enum) is None,
    decreases matches.len(),
{
    if matches.len() > 0 {
        lemma_scan_matches_of_none(matches.drop_last(), parse_enum);
    }
}

/// Lines that fail the scan up to some place fail it as a whole.
proof fn lemma_scan_lines_fails(lines: Seq<Seq<char>>, n: int, parse_enum: bool)
    requires
        0 <= n <= lines.len(),
        scan_lines(lines.take(n), parse_enum) is None,
    ensures
        scan_lines(lines, parse_enum) is None,
    decreases lines.len() - n,
{
    if n < lines.len() {
        assert(lines.take(n + 1).drop_last() =~= lines.take(n));
        lemma_scan_matches_of_none(
            regex_captures_iter(spec_line_pattern(parse_enum)@, lines.take(n + 1).last()),
            parse_enum,
        );
        lemma_scan_lines_fails(lines, n + 1, parse_enum);
    } else {
        assert(lines.take(n) =~= lines);
    }
}

} // verus!
