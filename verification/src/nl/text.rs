//! Building blocks of the textual rendering: indentation, numbers in
//! decimal and hexadecimal, joined lists and decomposed flag masks.

use vstd::prelude::*;
use crate::nl::table::{FlagTable, Table};

verus! {

/// Four spaces for each level of `indent`; nothing for a level below one.
pub open spec fn indent_text(indent: int) -> Seq<char>
    decreases indent,
{
    if indent <= 0 {
        Seq::empty()
    } else {
        indent_text(indent - 1) + "    "@
    }
}

/// The digit that stands for `d`, upper case above nine.
pub open spec fn digit_text(d: int) -> Seq<char> {
    if d == 0 {
        "0"@
    } else if d == 1 {
        "1"@
    } else if d == 2 {
        "2"@
    } else if d == 3 {
        "3"@
    } else if d == 4 {
        "4"@
    } else if d == 5 {
        "5"@
    } else if d == 6 {
        "6"@
    } else if d == 7 {
        "7"@
    } else if d == 8 {
        "8"@
    } else if d == 9 {
        "9"@
    } else if d == 10 {
        "A"@
    } else if d == 11 {
        "B"@
    } else if d == 12 {
        "C"@
    } else if d == 13 {
        "D"@
    } else if d == 14 {
        "E"@
    } else {
        "F"@
    }
}

/// `n` in decimal, without leading zeros.
pub open spec fn dec_text(n: nat) -> Seq<char>
    decreases n,
{
    if n < 10 {
        digit_text(n as int)
    } else {
        dec_text(n / 10) + digit_text((n % 10) as int)
    }
}

/// `n` in decimal, with a minus sign in front of a negative number.
pub open spec fn int_text(n: int) -> Seq<char> {
    if n < 0 {
        "-"@ + dec_text((-n) as nat)
    } else {
        dec_text(n as nat)
    }
}

/// `n` in upper-case hexadecimal behind `0x`, without leading zeros.
pub open spec fn hex_text(n: nat) -> Seq<char> {
    "0x"@ + hex_digits(n)
}

/// `n` in upper-case hexadecimal, without leading zeros.
pub open spec fn hex_digits(n: nat) -> Seq<char>
    decreases n,
{
    if n < 16 {
        digit_text(n as int)
    } else {
        hex_digits(n / 16) + digit_text((n % 16) as int)
    }
}

/// The items one after another, with `sep` between each two.
pub open spec fn join(items: Seq<Seq<char>>, sep: Seq<char>) -> Seq<char>
    decreases items.len(),
{
    if items.len() == 0 {
        Seq::empty()
    } else if items.len() == 1 {
        items[0]
    } else {
        join(items.drop_last(), sep) + sep + items.last()
    }
}

/// Joining one more item: the separator goes in front of it unless it is
/// the first.
pub proof fn lemma_join_push(items: Seq<Seq<char>>, sep: Seq<char>, item: Seq<char>)
    ensures
        join(items.push(item), sep) == if items.len() == 0 {
            item
        } else {
            join(items, sep) + sep + item
        },
{
    assert(items.push(item).drop_last() =~= items);
}

/// Four spaces for each level of `indent`.
pub fn format_indent(indent: i32) -> (s: String)
    ensures
        s@ == indent_text(indent as int),
{
    let mut s = String::new();
    let mut level: i32 = 0;
    while level < indent
        invariant
            0 <= level,
            level <= indent || level == 0,
            s@ == indent_text(level as int),
        decreases indent - level,
    {
        s.append("    ");
        level = level + 1;
    }
    assert(indent < 0 ==> indent_text(indent as int) == indent_text(0));
    s
}

/// The digit that stands for `d`, upper case above nine.
fn digit_str(d: u8) -> (r: &'static str)
    requires
        d < 16,
    ensures
        r@ == digit_text(d as int),
{
    match d {
        0 => "0",
        1 => "1",
        2 => "2",
        3 => "3",
        4 => "4",
        5 => "5",
        6 => "6",
        7 => "7",
        8 => "8",
        9 => "9",
        10 => "A",
        11 => "B",
        12 => "C",
        13 => "D",
        14 => "E",
        _ => "F",
    }
}

/// Appends `n` in decimal.
pub fn push_dec(f: &mut String, n: u64)
    ensures
        final(f)@ == old(f)@ + dec_text(n as nat),
    decreases n,
{
    if n >= 10 {
        push_dec(f, n / 10);
    }
    f.append(digit_str((n % 10) as u8));
}

/// Appends `n` in decimal, with a minus sign in front of a negative number.
pub fn push_int(f: &mut String, n: i64)
    ensures
        final(f)@ == old(f)@ + int_text(n as int),
{
    if n < 0 {
        f.append("-");
        let magnitude: u64 = (-(n + 1)) as u64 + 1;
        push_dec(f, magnitude);
    } else {
        push_dec(f, n as u64);
    }
}

/// Appends the upper-case hexadecimal digits of `n`.
fn push_hex_digits(f: &mut String, n: u64)
    ensures
        final(f)@ == old(f)@ + hex_digits(n as nat),
    decreases n,
{
    if n >= 16 {
        push_hex_digits(f, n / 16);
    }
    f.append(digit_str((n % 16) as u8));
}

/// Appends `n` in upper-case hexadecimal behind `0x`.
pub fn push_hex(f: &mut String, n: u64)
    ensures
        final(f)@ == old(f)@ + hex_text(n as nat),
{
    f.append("0x");
    push_hex_digits(f, n);
}

/// Each byte as it stands in a list: a space and the number, in hexadecimal
/// where `hex` is set, else in decimal.
pub open spec fn byte_items(bytes: Seq<u8>, hex: bool) -> Seq<Seq<char>> {
    bytes.map_values(
        |b: u8|
            if hex {
                " "@ + hex_text(b as nat)
            } else {
                " "@ + dec_text(b as nat)
            },
    )
}

/// The bytes as a list: a space in front of each, a comma between each two.
pub open spec fn byte_list_text(bytes: Seq<u8>, hex: bool) -> Seq<char> {
    join(byte_items(bytes, hex), ","@)
}

/// The bytes as a list, in hexadecimal where `hex` is set, else in decimal.
pub fn byte_list(bytes: &[u8], hex: bool) -> (s: String)
    ensures
        s@ == byte_list_text(bytes@, hex),
{
    let mut s = String::new();
    let mut i: usize = 0;
    assert(byte_items(bytes@.take(0), hex) =~= Seq::empty());
    while i < bytes.len()
        invariant
            i <= bytes.len(),
            s@ == join(byte_items(bytes@.take(i as int), hex), ","@),
        decreases bytes.len() - i,
    {
        let ghost before = byte_items(bytes@.take(i as int), hex);
        let mut item = " ".to_owned();
        if hex {
            push_hex(&mut item, bytes[i] as u64);
        } else {
            push_dec(&mut item, bytes[i] as u64);
        }
        if i > 0 {
            s.append(",");
        }
        s.append(item.as_str());
        proof {
            assert(byte_items(bytes@.take(i + 1), hex) =~= before.push(item@));
            lemma_join_push(before, ","@, item@);
            assert(Seq::<char>::empty() + item@ =~= item@);
        }
        i = i + 1;
    }
    assert(bytes@.take(bytes@.len() as int) =~= bytes@);
    s
}

/// Whether the decomposition of a mask over `T` looks at bit `k`: it looks at
/// the powers of two up to the largest number in the table.
pub open spec fn scanned<T: FlagTable>(k: nat) -> bool {
    k < 32 && (1u32 << (k as u32)) <= T::spec_max_value()
}

/// How a set bit is written: by its name if the table lists it, else by its
/// number in hexadecimal.
pub open spec fn bit_text<T: FlagTable>(bit: u32) -> Seq<char> {
    match T::spec_from_value(bit) {
        Some(flag) => flag.spec_name(),
        None => hex_text(bit as nat),
    }
}

/// The bits of `flags` below bit `k` that are set and looked at, each as it
/// is written, lowest first.
pub open spec fn set_bits_below<T: FlagTable>(flags: u32, k: nat) -> Seq<Seq<char>>
    decreases k,
{
    if k == 0 {
        Seq::empty()
    } else {
        let below = set_bits_below::<T>(flags, (k - 1) as nat);
        let bit = 1u32 << ((k - 1) as u32);
        if scanned::<T>((k - 1) as nat) && flags & bit != 0 {
            below.push(bit_text::<T>(bit))
        } else {
            below
        }
    }
}

/// A mask over `T` decomposed: its set bits, lowest first, with `|` between
/// them. Bits above the largest number in the table are not looked at.
pub open spec fn flags_text<T: FlagTable>(flags: u32) -> Seq<char> {
    join(set_bits_below::<T>(flags, 32), "|"@)
}

/// Once a bit is not looked at, none above it is.
proof fn lemma_scan_stops<T: FlagTable>(flags: u32, k: nat, upto: nat)
    requires
        k <= upto <= 32,
        !scanned::<T>(k),
    ensures
        set_bits_below::<T>(flags, upto) == set_bits_below::<T>(flags, k),
    decreases upto,
{
    if upto > k {
        lemma_scan_stops::<T>(flags, k, (upto - 1) as nat);
        let low = k as u32;
        let high = (upto - 1) as u32;
        let max = T::spec_max_value();
        assert(low <= high && high < 32 && (1u32 << low) > max ==> (1u32 << high) > max)
            by (bit_vector);
    }
}

/// Appends the decomposition of the mask `flags` over `T`.
pub fn push_flags<T: FlagTable>(f: &mut String, flags: u32)
    ensures
        final(f)@ == old(f)@ + flags_text::<T>(flags),
{
    let max = T::max_value();
    let mut k: u32 = 0;
    let mut found = false;
    assert(f@ =~= old(f)@ + join(set_bits_below::<T>(flags, 0), "|"@));
    while k < 32 && (1u32 << k) <= max
        invariant
            k <= 32,
            max == T::spec_max_value(),
            f@ == old(f)@ + join(set_bits_below::<T>(flags, k as nat), "|"@),
            found == (set_bits_below::<T>(flags, k as nat).len() > 0),
        decreases 32 - k,
    {
        let bit = 1u32 << k;
        let ghost below = set_bits_below::<T>(flags, k as nat);
        if flags & bit != 0 {
            if found {
                f.append("|");
            }
            match T::from_value(bit) {
                Some(flag) => f.append(flag.name()),
                None => push_hex(f, bit as u64),
            }
            found = true;
            proof {
                lemma_join_push(below, "|"@, bit_text::<T>(bit));
                assert(f@ =~= old(f)@ + join(below.push(bit_text::<T>(bit)), "|"@));
            }
        }
        k = k + 1;
    }
    proof {
        if k < 32 {
            lemma_scan_stops::<T>(flags, k as nat, 32);
        }
    }
}

/// How a number is written that a table names only in part: by its name if
/// the table lists it, else as `user defined`.
pub open spec fn name_or_user_defined<T: Table>(num: u8) -> Seq<char> {
    match T::spec_from_value(num as u32) {
        Some(e) => e.spec_name(),
        None => "user defined"@,
    }
}

/// Appends the name of `num` in `T`, or `user defined`.
pub fn push_name_or_user_defined<T: Table>(f: &mut String, num: u8)
    ensures
        final(f)@ == old(f)@ + name_or_user_defined::<T>(num),
{
    match T::from_value(num as u32) {
        Some(e) => f.append(e.name()),
        None => f.append("user defined"),
    }
}

} // verus!
