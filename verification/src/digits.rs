//! Verified decimal parsing and rendering for the integer identifiers the
//! service uses (project ids, parent task ids, numeric user ids).

use vstd::prelude::*;
use vstd::string::StrSliceExecFns;
use vstd::string::StringExecFns;

verus! {

pub open spec fn is_digit(c: char) -> bool {
    48 <= c as int && c as int <= 57
}

pub open spec fn digit_val(c: char) -> int {
    c as int - 48
}

pub open spec fn all_digits(s: Seq<char>) -> bool {
    forall|i: int| 0 <= i < s.len() ==> is_digit(#[trigger] s[i])
}

/// Numeric value of a string of decimal digits, most significant first.
pub open spec fn digits_val(s: Seq<char>) -> int
    decreases s.len(),
{
    if s.len() == 0 {
        0
    } else {
        digits_val(s.drop_last()) * 10 + digit_val(s.last())
    }
}

pub proof fn lemma_digits_val_nonneg(s: Seq<char>)
    requires
        all_digits(s),
    ensures
        digits_val(s) >= 0,
    decreases s.len(),
{
    if s.len() > 0 {
        assert(all_digits(s.drop_last()));
        lemma_digits_val_nonneg(s.drop_last());
    }
}

/// The decimal representation the service's integer fields render to:
/// no leading zeros, a leading '-' exactly for negative values.
pub open spec fn u_dec_rep(n: int) -> Seq<char>
    decreases n,
{
    if n < 10 {
        seq![digit_char(n)]
    } else {
        u_dec_rep(n / 10) + seq![digit_char(n % 10)]
    }
}

pub open spec fn digit_char(d: int) -> char {
    ((48 + d) as u8) as char
}

pub open spec fn i32_dec_rep(n: int) -> Seq<char> {
    if n < 0 {
        seq!['-'] + u_dec_rep(-n)
    } else {
        u_dec_rep(n)
    }
}

/// How `str::parse::<i32>` reads a string: an optional sign, then at least
/// one decimal digit, and the value must fit in the type.
pub open spec fn parse_i32_spec(s: Seq<char>) -> Option<i32> {
    if s.len() > 0 && (s[0] == '+' || s[0] == '-') {
        let ds = s.subrange(1, s.len() as int);
        if ds.len() > 0 && all_digits(ds) {
            let v = if s[0] == '-' {
                -digits_val(ds)
            } else {
                digits_val(ds)
            };
            if i32::MIN <= v <= i32::MAX {
                Some(v as i32)
            } else {
                None
            }
        } else {
            None
        }
    } else {
        if s.len() > 0 && all_digits(s) && digits_val(s) <= i32::MAX {
            Some(digits_val(s) as i32)
        } else {
            None
        }
    }
}

/// Value of the digit run `s[start..i]`, helping the parser's loop invariant.
pub open spec fn prefix_val(s: Seq<char>, start: int, i: int) -> int {
    digits_val(s.subrange(start, i))
}

proof fn lemma_prefix_val_step(s: Seq<char>, start: int, i: int)
    requires
        0 <= start <= i < s.len(),
    ensures
        prefix_val(s, start, i + 1) == prefix_val(s, start, i) * 10 + digit_val(s[i]),
{
    assert(s.subrange(start, i + 1).drop_last() =~= s.subrange(start, i));
    assert(s.subrange(start, i + 1).last() == s[i]);
}

proof fn lemma_prefix_val_grows(s: Seq<char>, start: int, i: int, bound: int)
    requires
        0 <= start <= i < s.len(),
        is_digit(s[i]),
        prefix_val(s, start, i) > bound,
        bound >= 0,
    ensures
        prefix_val(s, start, i + 1) > bound,
{
    lemma_prefix_val_step(s, start, i);
}

/// Reads a decimal integer the way `str::parse::<i32>` does: an optional
/// leading sign, then at least one digit, rejecting values out of range.
pub fn parse_i32(s: &str) -> (r: Option<i32>)
    ensures
        r == parse_i32_spec(s@),
{
    let len = s.unicode_len();
    if len == 0 {
        return None;
    }
    let first = s.get_char(0);
    let negative = first == '-';
    let start: usize = if first == '-' || first == '+' {
        1
    } else {
        0
    };
    if len == start {
        return None;
    }
    let ghost whole: Seq<char> = s@.subrange(start as int, len as int);
    let mut i: usize = start;
    let mut acc: u64 = 0;
    let mut over = false;
    while i < len
        invariant
            start <= i <= len,
            start < len,
            len == s@.len(),
            start == 0 || start == 1,
            start == 1 <==> (s@[0] == '+' || s@[0] == '-'),
            whole == s@.subrange(start as int, len as int),
            all_digits(s@.subrange(start as int, i as int)),
            !over ==> acc == prefix_val(s@, start as int, i as int) && acc <= 2147483648,
            over ==> prefix_val(s@, start as int, i as int) > 2147483648,
        decreases len - i,
    {
        let c = s.get_char(i);
        let v = c as u32;
        if v < 48 || v > 57 {
            proof {
                assert(whole[i - start as int] == s@[i as int]);
                assert(!all_digits(whole));
                if start == 0 {
                    assert(whole =~= s@);
                }
            }
            return None;
        }
        let d: u64 = (v - 48) as u64;
        proof {
            lemma_prefix_val_step(s@, start as int, i as int);
            if over {
                lemma_prefix_val_grows(s@, start as int, i as int, 2147483648);
            }
            assert(s@.subrange(start as int, i + 1 as int) =~= s@.subrange(
                start as int,
                i as int,
            ).push(s@[i as int]));
        }
        if !over {
            acc = acc * 10 + d;
            if acc > 2147483648 {
                over = true;
            }
        }
        i += 1;
    }
    proof {
        assert(whole =~= s@.subrange(start as int, i as int));
        if start == 1 {
            assert(s@[0] == '+' || s@[0] == '-');
        } else {
            assert(!(s@[0] == '+' || s@[0] == '-'));
            assert(whole =~= s@);
        }
        lemma_digits_val_nonneg(whole);
    }
    if over {
        return None;
    }
    if negative {
        if acc > 2147483648 {
            return None;
        }
        Some((-(acc as i64)) as i32)
    } else {
        if acc > 2147483647 {
            return None;
        }
        Some(acc as i32)
    }
}

/// Digit characters as one-character string slices, for string building.
fn digit_str(d: u32) -> (r: &'static str)
    requires
        d < 10,
    ensures
        r@ =~= seq![digit_char(d as int)],
{
    proof {
        reveal_strlit("0");
        reveal_strlit("1");
        reveal_strlit("2");
        reveal_strlit("3");
        reveal_strlit("4");
        reveal_strlit("5");
        reveal_strlit("6");
        reveal_strlit("7");
        reveal_strlit("8");
        reveal_strlit("9");
    }
    match d {
        0 => "0",
        1 => "1",
        2 => "2",
        3 => "3",
        4 => "4",
        5 => "5",
        6 => "6",
        7 => "7",
        8 => "8",
        _ => "9",
    }
}

fn u32_to_string(n: u32) -> (r: String)
    ensures
        r@ == u_dec_rep(n as int),
    decreases n,
{
    if n < 10 {
        let mut s = String::new();
        s.append(digit_str(n));
        proof {
            assert(s@ =~= u_dec_rep(n as int));
        }
        s
    } else {
        let mut s = u32_to_string(n / 10);
        s.append(digit_str(n % 10));
        proof {
            assert(s@ =~= u_dec_rep(n as int));
        }
        s
    }
}

/// Renders an integer identifier in the decimal form `str::parse` reads back.
pub fn i32_to_string(n: i32) -> (r: String)
    ensures
        r@ == i32_dec_rep(n as int),
{
    if n < 0 {
        let magnitude: u32 = (-(n as i64)) as u32;
        let mut s = String::new();
        proof {
            reveal_strlit("-");
        }
        s.append("-");
        let digits = u32_to_string(magnitude);
        s.append(digits.as_str());
        proof {
            assert(s@ =~= i32_dec_rep(n as int));
        }
        s
    } else {
        u32_to_string(n as u32)
    }
}

} // verus!
