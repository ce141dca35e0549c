//! The fixed-width gauge: a single line that visualizes the running balance
//! between the two counters.
//!
//! The line is a left label, `floor(ratio * width)` fill characters, the
//! ratio to four decimal places between delimiters, the remaining fill
//! characters of the opposite kind, and a right label. The left fill count
//! is computed once by flooring and the right count is derived by
//! subtraction, so the two always sum to the width exactly. Rendering here
//! is pure formatting; writing the line to a terminal is the host's job.

use vstd::prelude::*;

use vstd::arithmetic::div_mod::{
    lemma_div_by_multiple, lemma_div_is_ordered, lemma_fundamental_div_mod_converse,
};
use vstd::arithmetic::mul::{lemma_mul_inequality, lemma_mul_upper_bound};

use crate::score::{ratio_den, ratio_num};

verus! {

/// `n` copies of the character `c`.
pub open spec fn char_repeat(c: char, n: nat) -> Seq<char> {
    Seq::new(n, |i: int| c)
}

/// The character of one decimal digit.
pub open spec fn digit_char(d: int) -> char {
    if d == 0 {
        '0'
    } else if d == 1 {
        '1'
    } else if d == 2 {
        '2'
    } else if d == 3 {
        '3'
    } else if d == 4 {
        '4'
    } else if d == 5 {
        '5'
    } else if d == 6 {
        '6'
    } else if d == 7 {
        '7'
    } else if d == 8 {
        '8'
    } else {
        '9'
    }
}

/// The ratio `num / den` rounded half-up to four decimal places and scaled
/// by ten thousand, so the result lies in `0 ..= 10000` when `num <= den`.
pub open spec fn scaled_ratio4(num: int, den: int) -> int {
    (20000 * num + den) / (2 * den)
}

/// The ratio `num / den` written to four decimal places: `0.dddd`, or
/// `1.0000` when it rounds all the way up.
pub open spec fn ratio4_chars(num: int, den: int) -> Seq<char> {
    let v = scaled_ratio4(num, den);
    if v == 10000 {
        seq!['1', '.', '0', '0', '0', '0']
    } else {
        seq![
            '0',
            '.',
            digit_char(v / 1000),
            digit_char(v / 100 % 10),
            digit_char(v / 10 % 10),
            digit_char(v % 10),
        ]
    }
}

/// The left fill count of a gauge over the counters `a` and `b`: the floor
/// of `ratio * width`, with the ratio's division-by-zero guard.
pub open spec fn left_fill(a: int, b: int, width: int) -> int {
    ratio_num(a, b) * width / ratio_den(a, b)
}

/// The whole gauge line over the counters `a` and `b`.
pub open spec fn gauge_chars(a: int, b: int, width: int) -> Seq<char> {
    seq!['P', '1'] + char_repeat('>', left_fill(a, b, width) as nat) + seq!['|']
        + ratio4_chars(ratio_num(a, b), ratio_den(a, b)) + seq!['|']
        + char_repeat('<', (width - left_fill(a, b, width)) as nat) + seq!['P', '2']
}

/// The left fill count never exceeds the width, so the right count, derived
/// by subtraction, is well defined and the two sum to the width exactly.
pub proof fn lemma_left_fill_bounds(a: int, b: int, width: int)
    requires
        0 <= a,
        0 <= b,
        1 <= width,
    ensures
        0 <= left_fill(a, b, width) <= width,
{
    let num = ratio_num(a, b);
    let den = ratio_den(a, b);
    assert(0 <= num <= den);
    assert(1 <= den);
    lemma_mul_inequality(num, den, width);
    lemma_div_is_ordered(num * width, den * width, den);
    lemma_div_by_multiple(width, den);
    assert(den * width == width * den);
}

/// Left and right fill counts for a gauge of the given width. The counts
/// sum to the width exactly; no independent recomputation of the right
/// side, hence no rounding drift.
pub fn fill_counts(a: u64, b: u64, width: u64) -> (r: (u64, u64))
    requires
        1 <= width,
    ensures
        r.0 == left_fill(a as int, b as int, width as int),
        r.1 == width - r.0,
        r.0 + r.1 == width,
{
    proof {
        lemma_left_fill_bounds(a as int, b as int, width as int);
    }
    let left: u64 = if a == 0 && b == 0 {
        width / 2
    } else {
        let den: u128 = a as u128 + b as u128;
        proof {
            lemma_mul_upper_bound(a as int, u64::MAX as int, width as int, u64::MAX as int);
        }
        ((a as u128 * width as u128) / den) as u64
    };
    (left, width - left)
}

/// The character of one decimal digit, as a one-character string slice.
fn digit_str(d: u64) -> (s: &'static str)
    requires
        d <= 9,
    ensures
        s@ == seq![digit_char(d as int)],
{
    if d == 0 {
        proof {
            reveal_strlit("0");
            assert("0"@ =~= seq![digit_char(0int)]);
        }
        "0"
    } else if d == 1 {
        proof {
            reveal_strlit("1");
            assert("1"@ =~= seq![digit_char(1int)]);
        }
        "1"
    } else if d == 2 {
        proof {
            reveal_strlit("2");
            assert("2"@ =~= seq![digit_char(2int)]);
        }
        "2"
    } else if d == 3 {
        proof {
            reveal_strlit("3");
            assert("3"@ =~= seq![digit_char(3int)]);
        }
        "3"
    } else if d == 4 {
        proof {
            reveal_strlit("4");
            assert("4"@ =~= seq![digit_char(4int)]);
        }
        "4"
    } else if d == 5 {
        proof {
            reveal_strlit("5");
            assert("5"@ =~= seq![digit_char(5int)]);
        }
        "5"
    } else if d == 6 {
        proof {
            reveal_strlit("6");
            assert("6"@ =~= seq![digit_char(6int)]);
        }
        "6"
    } else if d == 7 {
        proof {
            reveal_strlit("7");
            assert("7"@ =~= seq![digit_char(7int)]);
        }
        "7"
    } else if d == 8 {
        proof {
            reveal_strlit("8");
            assert("8"@ =~= seq![digit_char(8int)]);
        }
        "8"
    } else {
        proof {
            reveal_strlit("9");
            assert("9"@ =~= seq![digit_char(9int)]);
        }
        "9"
    }
}

/// The scaled ratio stays within `0 ..= 10000` whenever `num <= den`.
proof fn lemma_scaled_ratio4_bounds(num: int, den: int)
    requires
        1 <= den,
        0 <= num <= den,
    ensures
        0 <= scaled_ratio4(num, den) <= 10000,
{
    assert(20000 * num + den <= 20001 * den);
    lemma_fundamental_div_mod_converse(20001 * den, 2 * den, 10000, den);
    lemma_div_is_ordered(20000 * num + den, 20001 * den, 2 * den);
    assert(0 <= (20000 * num + den) / (2 * den)) by {
        lemma_fundamental_div_mod_converse(0, 2 * den, 0, 0);
        lemma_div_is_ordered(0, 20000 * num + den, 2 * den);
    }
}

/// Format the ratio `num / den` to four decimal places, rounding half-up.
pub fn format_ratio4(num: u64, den: u64) -> (s: String)
    requires
        1 <= den,
        num <= den,
    ensures
        s@ == ratio4_chars(num as int, den as int),
{
    proof {
        lemma_scaled_ratio4_bounds(num as int, den as int);
    }
    let scaled: u128 = (20000 * num as u128 + den as u128) / (2 * den as u128);
    let v: u64 = scaled as u64;
    if v == 10000 {
        let s = String::from_str("1.0000");
        proof {
            reveal_strlit("1.0000");
            assert(s@ =~= ratio4_chars(num as int, den as int));
        }
        s
    } else {
        let d1: u64 = v / 1000;
        let d2: u64 = v / 100 % 10;
        let d3: u64 = v / 10 % 10;
        let d4: u64 = v % 10;
        proof {
            lemma_div_is_ordered(v as int, 9999, 1000);
            lemma_fundamental_div_mod_converse(9999, 1000, 9, 999);
        }
        let mut s = String::from_str("0.");
        s.append(digit_str(d1));
        s.append(digit_str(d2));
        s.append(digit_str(d3));
        s.append(digit_str(d4));
        proof {
            reveal_strlit("0.");
            assert(s@ =~= ratio4_chars(num as int, den as int));
        }
        s
    }
}

/// Append `n` copies of the one-character slice `piece` to `s`.
fn append_repeat(s: &mut String, piece: &str, n: u64)
    requires
        piece@.len() == 1,
    ensures
        final(s)@ == old(s)@ + char_repeat(piece@[0], n as nat),
{
    let mut i: u64 = 0;
    while i < n
        invariant
            i <= n,
            piece@.len() == 1,
            s@ == old(s)@ + char_repeat(piece@[0], i as nat),
        decreases n - i,
    {
        s.append(piece);
        proof {
            assert(old(s)@ + char_repeat(piece@[0], (i + 1) as nat) =~= old(s)@ + char_repeat(
                piece@[0],
                i as nat,
            ) + piece@);
        }
        i = i + 1;
    }
    proof {
        assert(s@ =~= old(s)@ + char_repeat(piece@[0], n as nat));
    }
}

/// Render the whole gauge line over the counters `a` and `b`: left label,
/// left fill, the ratio to four decimal places between delimiters, right
/// fill, right label. The counters' total must fit the machine word so the
/// ratio's denominator is exact.
pub fn render_gauge(a: u64, b: u64, width: u64) -> (s: String)
    requires
        1 <= width,
        a + b <= u64::MAX,
    ensures
        s@ == gauge_chars(a as int, b as int, width as int),
{
    let (left, right) = fill_counts(a, b, width);
    let (num, den): (u64, u64) = if a == 0 && b == 0 {
        (1, 2)
    } else {
        (a, a + b)
    };
    let mut s = String::from_str("P1");
    proof {
        reveal_strlit("P1");
        reveal_strlit(">");
        reveal_strlit("|");
        reveal_strlit("<");
        reveal_strlit("P2");
    }
    append_repeat(&mut s, ">", left);
    s.append("|");
    let ratio = format_ratio4(num, den);
    s.append(ratio.as_str());
    s.append("|");
    append_repeat(&mut s, "<", right);
    s.append("P2");
    proof {
        assert(s@ =~= gauge_chars(a as int, b as int, width as int));
    }
    s
}

} // verus!
