//! Decimal text for integers and exact decimal rationals.
//!
//! The specification functions here say, character for character, what the
//! decimal rendering of a number is; the executable functions are proved to
//! produce exactly that text.

use vstd::prelude::*;
use vstd::string::StringExecFns;

verus! {

/// The character for one decimal digit value.
pub open spec fn digit_char(d: nat) -> char {
    if d == 0 {
        '0'
    } else if d == 1 {
        '1'
    } else if d == 2 {
        '2'
    } else if d == 3 {
        '3'
    } else if d == 4 {
        '4'
    } else if d == 5 {
        '5'
    } else if d == 6 {
        '6'
    } else if d == 7 {
        '7'
    } else if d == 8 {
        '8'
    } else {
        '9'
    }
}

/// The decimal digits of `n`, most significant first, with no leading
/// zeros (a single `'0'` for zero).
pub open spec fn dec_digits(n: nat) -> Seq<char>
    decreases n,
{
    if n < 10 {
        seq![digit_char(n)]
    } else {
        dec_digits(n / 10).push(digit_char(n % 10))
    }
}

/// The decimal text of an integer: a `'-'` sign for negative values,
/// then the digits of the magnitude.
pub open spec fn int_text(i: int) -> Seq<char> {
    if i < 0 {
        seq!['-'] + dec_digits((-i) as nat)
    } else {
        dec_digits(i as nat)
    }
}

/// Ten to the power `k`.
pub open spec fn pow10(k: nat) -> nat
    decreases k,
{
    if k == 0 {
        1
    } else {
        10 * pow10((k - 1) as nat)
    }
}

/// Exactly `width` decimal digits of `n` (taken modulo `10^width`),
/// zero-padded at the left.
pub open spec fn padded_digits(n: nat, width: nat) -> Seq<char>
    decreases width,
{
    if width == 0 {
        Seq::empty()
    } else {
        padded_digits(n / 10, (width - 1) as nat).push(digit_char(n % 10))
    }
}

/// A run of `k` copies of one character.
pub open spec fn char_run(c: char, k: nat) -> Seq<char>
    decreases k,
{
    if k == 0 {
        Seq::empty()
    } else {
        char_run(c, (k - 1) as nat).push(c)
    }
}

/// The decimal text of the exact rational `num / 10^scale`: the sign, the
/// integer part in decimal, and — when `scale` is positive — a point
/// followed by exactly `scale` fractional digits.
pub open spec fn float_text(num: int, scale: nat) -> Seq<char> {
    let mag = (if num < 0 { -num } else { num }) as nat;
    let sign: Seq<char> = if num < 0 { seq!['-'] } else { Seq::empty() };
    if scale == 0 {
        sign + dec_digits(mag)
    } else {
        sign + dec_digits(mag / pow10(scale)) + seq!['.'] + padded_digits(mag % pow10(scale), scale)
    }
}

/// `pow10` never vanishes and grows with its argument.
pub proof fn lemma_pow10_mono(a: nat, b: nat)
    requires
        a <= b,
    ensures
        1 <= pow10(a) <= pow10(b),
    decreases b,
{
    if b == 0 {
    } else if a == b {
        lemma_pow10_mono((a - 1) as nat, (b - 1) as nat);
    } else {
        lemma_pow10_mono(a, (b - 1) as nat);
    }
}

/// A number below `10^k` has at most `k` decimal digits.
pub proof fn lemma_dec_digits_len(n: nat, k: nat)
    requires
        1 <= k,
        n < pow10(k),
    ensures
        1 <= dec_digits(n).len() <= k,
    decreases n,
{
    if n < 10 {
    } else {
        assert(pow10(k) == 10 * pow10((k - 1) as nat));
        lemma_pow10_mono(1, k);
        assert(k >= 2) by {
            if k == 1 {
                assert(pow10(1nat) == 10);
            }
        }
        assert(n / 10 < pow10((k - 1) as nat));
        lemma_dec_digits_len(n / 10, (k - 1) as nat);
    }
}

/// Padding zero to any width gives a run of zeros.
pub proof fn lemma_padded_digits_zero(width: nat)
    ensures
        padded_digits(0, width) == char_run('0', width),
    decreases width,
{
    if width > 0 {
        lemma_padded_digits_zero((width - 1) as nat);
    }
}

/// When the width is at least the digit count, the padded form is a run of
/// zeros followed by the plain digits.
pub proof fn lemma_padded_digits_split(n: nat, width: nat)
    requires
        dec_digits(n).len() <= width,
    ensures
        padded_digits(n, width) == char_run('0', (width - dec_digits(n).len()) as nat)
            + dec_digits(n),
    decreases width,
{
    if n < 10 {
        lemma_padded_digits_zero((width - 1) as nat);
        assert(padded_digits(n, width) =~= char_run('0', (width - 1) as nat) + dec_digits(n));
    } else {
        lemma_padded_digits_split(n / 10, (width - 1) as nat);
        assert(padded_digits(n, width) =~= char_run('0', (width - dec_digits(n).len()) as nat)
            + dec_digits(n));
    }
}

/// The text of one decimal digit.
fn digit_str(d: u64) -> (r: &'static str)
    requires
        d < 10,
    ensures
        r@ == seq![digit_char(d as nat)],
{
    proof {
        reveal_strlit("0");
        reveal_strlit("1");
        reveal_strlit("2");
        reveal_strlit("3");
        reveal_strlit("4");
        reveal_strlit("5");
        reveal_strlit("6");
        reveal_strlit("7");
        reveal_strlit("8");
        reveal_strlit("9");
    }
    if d == 0 {
        "0"
    } else if d == 1 {
        "1"
    } else if d == 2 {
        "2"
    } else if d == 3 {
        "3"
    } else if d == 4 {
        "4"
    } else if d == 5 {
        "5"
    } else if d == 6 {
        "6"
    } else if d == 7 {
        "7"
    } else if d == 8 {
        "8"
    } else {
        "9"
    }
}

/// Renders an unsigned value in decimal.
pub fn u64_string(n: u64) -> (r: String)
    ensures
        r@ == dec_digits(n as nat),
    decreases n,
{
    if n < 10 {
        let mut s = String::new();
        s.append(digit_str(n));
        proof {
            assert(s@ =~= dec_digits(n as nat));
        }
        s
    } else {
        let mut s = u64_string(n / 10);
        s.append(digit_str(n % 10));
        proof {
            assert(s@ =~= dec_digits(n as nat));
        }
        s
    }
}

/// The magnitude of a signed value, without overflow at the minimum.
fn magnitude(n: i64) -> (r: u64)
    ensures
        r as nat == (if n < 0 { -(n as int) } else { n as int }) as nat,
{
    if n >= 0 {
        n as u64
    } else {
        (-(n as i128)) as u64
    }
}

/// Renders a signed value in decimal.
pub fn i64_string(n: i64) -> (r: String)
    ensures
        r@ == int_text(n as int),
{
    if n >= 0 {
        u64_string(n as u64)
    } else {
        let mut s = String::new();
        s.append("-");
        let mag = magnitude(n);
        let digits = u64_string(mag);
        s.append(digits.as_str());
        proof {
            reveal_strlit("-");
            assert(s@ =~= int_text(n as int));
        }
        s
    }
}

/// Computes `10^k` for small exponents.
fn pow10_u64(k: u32) -> (r: u64)
    requires
        k <= 18,
    ensures
        r as nat == pow10(k as nat),
    decreases k,
{
    if k == 0 {
        1
    } else {
        let p = pow10_u64(k - 1);
        proof {
            lemma_pow10_mono((k - 1) as nat, 17);
            assert(pow10(17nat) == 100000000000000000) by {
                reveal_with_fuel(pow10, 18);
            }
        }
        10 * p
    }
}

/// Renders exactly `width` digits of `n`, zero-padded at the left.
fn padded_string(n: u64, width: u32) -> (r: String)
    requires
        width <= 18,
    ensures
        r@ == padded_digits(n as nat, width as nat),
    decreases width,
{
    if width == 0 {
        let s = String::new();
        proof {
            assert(s@ =~= padded_digits(n as nat, width as nat));
        }
        s
    } else {
        let mut s = padded_string(n / 10, width - 1);
        s.append(digit_str(n % 10));
        proof {
            assert(s@ =~= padded_digits(n as nat, width as nat));
        }
        s
    }
}

/// A run of `k` zero characters.
fn zeros_string(k: u32) -> (r: String)
    ensures
        r@ == char_run('0', k as nat),
{
    let mut s = String::new();
    let mut i: u32 = 0;
    while i < k
        invariant
            i <= k,
            s@ == char_run('0', i as nat),
        decreases k - i,
    {
        s.append("0");
        proof {
            reveal_strlit("0");
            assert(s@ =~= char_run('0', (i + 1) as nat));
        }
        i = i + 1;
    }
    s
}

/// The number of decimal digits of `n`.
fn digit_count(n: u64) -> (c: u32)
    ensures
        c as nat == dec_digits(n as nat).len(),
        1 <= c <= 20,
    decreases n,
{
    if n < 10 {
        1
    } else {
        proof {
            assert(pow10(20nat) == 100000000000000000000) by {
                reveal_with_fuel(pow10, 21);
            }
            lemma_dec_digits_len(n as nat, 20);
        }
        1 + digit_count(n / 10)
    }
}

/// Renders the exact decimal rational `num / 10^scale`.
pub fn float_string(num: i64, scale: u32) -> (r: String)
    ensures
        r@ == float_text(num as int, scale as nat),
{
    let mut s = String::new();
    if num < 0 {
        s.append("-");
    }
    proof {
        reveal_strlit("-");
    }
    let mag = magnitude(num);
    if scale == 0 {
        let digits = u64_string(mag);
        s.append(digits.as_str());
        proof {
            assert(s@ =~= float_text(num as int, scale as nat));
        }
        s
    } else if scale <= 18 {
        let p = pow10_u64(scale);
        proof {
            lemma_pow10_mono(1, scale as nat);
        }
        let whole = u64_string(mag / p);
        let frac = padded_string(mag % p, scale);
        s.append(whole.as_str());
        s.append(".");
        s.append(frac.as_str());
        proof {
            reveal_strlit(".");
            assert((mag / p) as nat == mag as nat / pow10(scale as nat));
            assert((mag % p) as nat == mag as nat % pow10(scale as nat));
            assert(s@ =~= float_text(num as int, scale as nat));
        }
        s
    } else {
        // The magnitude has at most 19 digits, so with 19 or more
        // fractional digits the integer part is zero and the fraction is
        // the zero-padded magnitude itself.
        proof {
            assert(pow10(19nat) == 10000000000000000000) by {
                reveal_with_fuel(pow10, 20);
            }
            lemma_pow10_mono(19, scale as nat);
            assert((mag as nat) < pow10(scale as nat));
            lemma_dec_digits_len(mag as nat, 19);
            vstd::arithmetic::div_mod::lemma_basic_div_specific_divisor(pow10(scale as nat) as int);
            vstd::arithmetic::div_mod::lemma_small_mod(mag as nat, pow10(scale as nat));
            assert(mag as nat / pow10(scale as nat) == 0);
            assert(mag as nat % pow10(scale as nat) == mag as nat);
            lemma_padded_digits_split(mag as nat, scale as nat);
        }
        let digits = u64_string(mag);
        let count = digit_count(mag);
        let zeros = zeros_string(scale - count);
        s.append("0");
        s.append(".");
        s.append(zeros.as_str());
        s.append(digits.as_str());
        proof {
            reveal_strlit("0");
            reveal_strlit(".");
            assert(dec_digits(0) =~= seq!['0']);
            assert(s@ =~= float_text(num as int, scale as nat));
        }
        s
    }
}

} // verus!
