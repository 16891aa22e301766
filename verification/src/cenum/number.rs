//! Integers as C headers write them.

use vstd::prelude::*;

verus! {

/// What the character `c` counts for as a digit: `0` to `9` for themselves,
/// the letters of either case from ten on.
pub open spec fn digit_value(c: char) -> Option<int> {
    if '0' <= c <= '9' {
        Some(c as int - '0' as int)
    } else if 'a' <= c <= 'z' {
        Some(c as int - 'a' as int + 10)
    } else if 'A' <= c <= 'Z' {
        Some(c as int - 'A' as int + 10)
    } else {
        None
    }
}

/// The number that the digits `s` write in base `radix`, most significant
/// first; none if a character is no digit of that base. No digits write 0.
pub open spec fn digits_value(s: Seq<char>, radix: int) -> Option<int>
    decreases s.len(),
{
    if s.len() == 0 {
        Some(0)
    } else {
        match (digits_value(s.drop_last(), radix), digit_value(s.last())) {
            (Some(high), Some(d)) => if d < radix {
                Some(high * radix + d)
            } else {
                None
            },
            _ => None,
        }
    }
}

/// The 32-bit integer that `s` writes in base `radix`: an optional sign and
/// at least one digit, nothing before, between or after. None if `s` is not
/// of that form or the number does not fit.
pub open spec fn radix_value(s: Seq<char>, radix: int) -> Option<i32> {
    let signed = s.len() > 0 && (s[0] == '-' || s[0] == '+');
    let digits = if signed {
        s.skip(1)
    } else {
        s
    };
    if digits.len() == 0 {
        None
    } else {
        match digits_value(digits, radix) {
            None => None,
            Some(magnitude) => {
                let n = if signed && s[0] == '-' {
                    -magnitude
                } else {
                    magnitude
                };
                if i32::MIN <= n <= i32::MAX {
                    Some(n as i32)
                } else {
                    None
                }
            },
        }
    }
}

/// What the character `c` counts for as a digit.
fn digit_of(c: char) -> (r: Option<u32>)
    ensures
        match r {
            Some(d) => digit_value(c) == Some(d as int) && d < 36,
            None => digit_value(c) is None,
        },
{
    if '0' <= c && c <= '9' {
        Some(c as u32 - '0' as u32)
    } else if 'a' <= c && c <= 'z' {
        Some(c as u32 - 'a' as u32 + 10)
    } else if 'A' <= c && c <= 'Z' {
        Some(c as u32 - 'A' as u32 + 10)
    } else {
        None
    }
}

/// More than any magnitude that fits: sums are capped here.
const CAP: u64 = 0x8000_0001;

/// A number that is past the cap stays past it when a digit is added.
proof fn lemma_capped_step(high: int, radix: int, d: int)
    requires
        high >= CAP,
        radix >= 2,
        d >= 0,
    ensures
        high * radix + d >= CAP,
{
    assert(high * radix >= high) by (nonlinear_arith)
        requires
            high >= 0,
            radix >= 2,
    ;
}

/// Reads a 32-bit integer in base `radix`: an optional sign and digits.
pub fn parse_radix(s: &str, radix: u32) -> (r: Option<i32>)
    requires
        2 <= radix <= 36,
    ensures
        r == radix_value(s@, radix as int),
{
    let len = s.unicode_len();
    if len == 0 {
        return None;
    }
    let first = s.get_char(0);
    let signed = first == '-' || first == '+';
    let start: usize = if signed {
        1
    } else {
        0
    };
    if start == len {
        assert(s@.skip(1).len() == 0);
        return None;
    }
    let ghost digits = if signed {
        s@.skip(1)
    } else {
        s@
    };
    let mut capped: u64 = 0;
    let mut i: usize = start;
    assert(digits.take(0) =~= Seq::<char>::empty());

    while i < len
        invariant
            start <= i <= len,
            len == s@.len(),
            2 <= radix <= 36,
            first == s@[0],
            signed == (first == '-' || first == '+'),
            digits == if signed {
                s@.skip(1)
            } else {
                s@
            },
            start == if signed {
                1usize
            } else {
                0usize
            },
            capped <= CAP,
            match digits_value(digits.take(i - start), radix as int) {
                Some(v) => capped == if v < CAP {
                    v
                } else {
                    CAP as int
                },
                None => false,
            },
        decreases len - i,
    {
        let c = s.get_char(i);
        let ghost before = digits.take(i - start);
        let ghost high = digits_value(before, radix as int)->Some_0;
        proof {
            assert(digits.take(i - start + 1).drop_last() =~= before);
            assert(digits.take(i - start + 1).last() == c);
        }
        match digit_of(c) {
            None => {
                proof {
                    lemma_bad_prefix(digits, i - start + 1, radix as int);
                }
                return None;
            },
            Some(d) => {
                if d >= radix {
                    proof {
                        lemma_bad_prefix(digits, i - start + 1, radix as int);
                    }
                    return None;
                }
                proof {
                    if high >= CAP {
                        lemma_capped_step(high, radix as int, d as int);
                    }
                    assert(capped * radix <= CAP * 36) by (nonlinear_arith)
                        requires
                            capped <= CAP,
                            radix <= 36,
                    ;
                    assert(capped * radix >= capped) by (nonlinear_arith)
                        requires
                            capped >= 0,
                            radix >= 2,
                    ;
                    assert(capped == high ==> capped * radix + d == high * radix + d);
                    assert(digits_value(digits.take(i - start + 1), radix as int) == Some(
                        high * radix + d,
                    ));
                }
                let sum = capped * (radix as u64) + d as u64;
                capped = if sum < CAP {
                    sum
                } else {
                    CAP
                };
            },
        }
        i = i + 1;
    }
    assert(digits.take(len - start) =~= digits);
    if signed && first == '-' {
        if capped <= 0x8000_0000 {
            Some((-(capped as i64)) as i32)
        } else {
            None
        }
    } else {
        if capped <= 0x7FFF_FFFF {
            Some(capped as i32)
        } else {
            None
        }
    }
}

/// Digits that are bad up to some place are bad as a whole.
proof fn lemma_bad_prefix(digits: Seq<char>, n: int, radix: int)
    requires
        0 <= n <= digits.len(),
        digits_value(digits.take(n), radix) is None,
    ensures
        digits_value(digits, radix) is None,
    decreases digits.len() - n,
{
    if n < digits.len() {
        assert(digits.take(n + 1).drop_last() =~= digits.take(n));
        lemma_bad_prefix(digits, n + 1, radix);
    } else {
        assert(digits.take(n) =~= digits);
    }
}

} // verus!
