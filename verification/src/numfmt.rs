//! Decimal digit strings for integers and fixed-point values: the spec-level
//! digit sequences, the executable renderers, and the lemmas tying digit
//! strings back to the numbers they denote.

use vstd::prelude::*;

verus! {

use vstd::string::StrSliceExecFns;
use vstd::string::StringExecFns;

/// Whether `c` is a decimal digit.
pub open spec fn is_dec_digit(c: char) -> bool {
    48 <= c as int <= 57
}

/// The numeric value of a digit character.
pub open spec fn digit_val(c: char) -> nat {
    (c as int - 48) as nat
}

/// The digit character for a value below ten.
pub open spec fn digit_char(d: nat) -> char {
    if d == 0 {
        '0'
    } else if d == 1 {
        '1'
    } else if d == 2 {
        '2'
    } else if d == 3 {
        '3'
    } else if d == 4 {
        '4'
    } else if d == 5 {
        '5'
    } else if d == 6 {
        '6'
    } else if d == 7 {
        '7'
    } else if d == 8 {
        '8'
    } else {
        '9'
    }
}

/// Ten to the power `k`.
pub open spec fn pow10(k: nat) -> nat
    decreases k,
{
    if k == 0 {
        1
    } else {
        10 * pow10((k - 1) as nat)
    }
}

/// The decimal digit string of `n`, most significant digit first, with no
/// leading zeros ("0" for zero).
pub open spec fn dec_str(n: nat) -> Seq<char>
    decreases n,
{
    if n < 10 {
        seq![digit_char(n)]
    } else {
        dec_str(n / 10).push(digit_char(n % 10))
    }
}

/// The decimal digit string of `v` with a leading minus sign when negative.
pub open spec fn int_str(v: int) -> Seq<char> {
    if v < 0 {
        seq!['-'] + dec_str((-v) as nat)
    } else {
        dec_str(v as nat)
    }
}

/// The low `w` decimal digits of `n`, zero padded to exactly `w` characters.
pub open spec fn dec_str_width(n: nat, w: nat) -> Seq<char>
    decreases w,
{
    if w == 0 {
        Seq::empty()
    } else {
        dec_str_width(n / 10, (w - 1) as nat).push(digit_char(n % 10))
    }
}

/// The fixed-point rendering of `v` in units of `10^-k`: optional minus
/// sign, integer part, a point, then exactly `k` fraction digits.
pub open spec fn fixed_str(v: int, k: nat) -> Seq<char> {
    let a = if v < 0 {
        (-v) as nat
    } else {
        v as nat
    };
    (if v < 0 {
        "-"@
    } else {
        Seq::<char>::empty()
    }) + dec_str(a / pow10(k)) + "."@ + dec_str_width(a % pow10(k), k)
}

/// The number denoted by a digit string (most significant digit first).
pub open spec fn parse_digits(s: Seq<char>) -> nat
    decreases s.len(),
{
    if s.len() == 0 {
        0
    } else {
        parse_digits(s.drop_last()) * 10 + digit_val(s.last())
    }
}

/// Ten to any power is at least one.
pub proof fn lemma_pow10_pos(k: nat)
    ensures
        pow10(k) >= 1,
    decreases k,
{
    if k > 0 {
        lemma_pow10_pos((k - 1) as nat);
    }
}

/// Ten to the power is monotonic in the exponent.
pub proof fn lemma_pow10_mono(a: nat, b: nat)
    requires
        a <= b,
    ensures
        pow10(a) <= pow10(b),
    decreases b,
{
    if a < b {
        lemma_pow10_mono(a, (b - 1) as nat);
        lemma_pow10_pos((b - 1) as nat);
    }
}

/// Every character of a decimal digit string is a digit, and there is at
/// least one.
pub proof fn lemma_dec_str_digits(n: nat)
    ensures
        dec_str(n).len() >= 1,
        forall|i: int| 0 <= i < dec_str(n).len() ==> is_dec_digit(#[trigger] dec_str(n)[i]),
    decreases n,
{
    if n >= 10 {
        lemma_dec_str_digits(n / 10);
    }
}

/// Reading the digit string of `n` back as a number gives `n`.
pub proof fn lemma_dec_str_parse(n: nat)
    ensures
        parse_digits(dec_str(n)) == n,
    decreases n,
{
    if n < 10 {
        let s1 = seq![digit_char(n)];
        assert(s1.drop_last() =~= Seq::<char>::empty());
        reveal_with_fuel(parse_digits, 2);
        assert(parse_digits(s1) == digit_val(digit_char(n)));
    } else {
        lemma_dec_str_parse(n / 10);
        let s = dec_str(n / 10).push(digit_char(n % 10));
        assert(s.drop_last() =~= dec_str(n / 10));
        assert(s.last() == digit_char(n % 10));
        vstd::arithmetic::div_mod::lemma_fundamental_div_mod(n as int, 10);
    }
}

/// A number below `10^k` has at most `k` digits.
pub proof fn lemma_dec_str_len(n: nat, k: nat)
    requires
        k >= 1,
        n < pow10(k),
    ensures
        dec_str(n).len() <= k,
    decreases n,
{
    if n >= 10 {
        assert(pow10(k) == 10 * pow10((k - 1) as nat));
        assert(n / 10 < pow10((k - 1) as nat)) by (nonlinear_arith)
            requires
                n < 10 * pow10((k - 1) as nat),
                n >= 10,
        {
        }
        lemma_dec_str_len(n / 10, (k - 1) as nat);
    }
}

/// A string of `w` digits denotes a number below `10^w`.
pub proof fn lemma_parse_digits_bound(s: Seq<char>)
    requires
        forall|i: int| 0 <= i < s.len() ==> is_dec_digit(#[trigger] s[i]),
    ensures
        parse_digits(s) < pow10(s.len()),
    decreases s.len(),
{
    if s.len() > 0 {
        lemma_parse_digits_bound(s.drop_last());
        assert(is_dec_digit(s[s.len() - 1]));
        assert(digit_val(s.last()) <= 9);
        assert(pow10(s.len()) == 10 * pow10((s.len() - 1) as nat));
    }
}

/// A single digit as a static string.
fn digit_str(d: u64) -> (r: &'static str)
    requires
        d < 10,
    ensures
        r@ == seq![digit_char(d as nat)],
        r@.len() == 1,
{
    if d == 0 {
        proof {
            reveal_strlit("0");
            assert("0"@ =~= seq![digit_char(0)]);
        }
        "0"
    } else if d == 1 {
        proof {
            reveal_strlit("1");
            assert("1"@ =~= seq![digit_char(1)]);
        }
        "1"
    } else if d == 2 {
        proof {
            reveal_strlit("2");
            assert("2"@ =~= seq![digit_char(2)]);
        }
        "2"
    } else if d == 3 {
        proof {
            reveal_strlit("3");
            assert("3"@ =~= seq![digit_char(3)]);
        }
        "3"
    } else if d == 4 {
        proof {
            reveal_strlit("4");
            assert("4"@ =~= seq![digit_char(4)]);
        }
        "4"
    } else if d == 5 {
        proof {
            reveal_strlit("5");
            assert("5"@ =~= seq![digit_char(5)]);
        }
        "5"
    } else if d == 6 {
        proof {
            reveal_strlit("6");
            assert("6"@ =~= seq![digit_char(6)]);
        }
        "6"
    } else if d == 7 {
        proof {
            reveal_strlit("7");
            assert("7"@ =~= seq![digit_char(7)]);
        }
        "7"
    } else if d == 8 {
        proof {
            reveal_strlit("8");
            assert("8"@ =~= seq![digit_char(8)]);
        }
        "8"
    } else {
        proof {
            reveal_strlit("9");
            assert("9"@ =~= seq![digit_char(9)]);
        }
        "9"
    }
}

/// Render `n` as its decimal digit string.
pub fn u64_dec_string(n: u64) -> (r: String)
    ensures
        r@ == dec_str(n as nat),
    decreases n,
{
    if n < 10 {
        digit_str(n).to_owned()
    } else {
        let mut s = u64_dec_string(n / 10);
        s.append(digit_str(n % 10));
        proof {
            assert(dec_str(n as nat) =~= dec_str((n as nat) / 10).push(digit_char((n as nat) % 10)));
            assert(s@ =~= dec_str((n as nat) / 10).push(digit_char((n as nat) % 10)));
        }
        s
    }
}

/// Render the low `w` digits of `n`, zero padded to width `w`.
pub fn u64_dec_width(n: u64, w: usize) -> (r: String)
    ensures
        r@ == dec_str_width(n as nat, w as nat),
    decreases w,
{
    if w == 0 {
        String::new()
    } else {
        let mut s = u64_dec_width(n / 10, w - 1);
        s.append(digit_str(n % 10));
        proof {
            assert(s@ =~= dec_str_width((n as nat) / 10, (w - 1) as nat).push(
                digit_char((n as nat) % 10),
            ));
        }
        s
    }
}

/// The magnitude of `v` as an unsigned value (defined for the minimum too).
pub fn abs_u64(v: i64) -> (r: u64)
    ensures
        r as int == (if v < 0 {
            -(v as int)
        } else {
            v as int
        }),
{
    if v < 0 {
        let w: i128 = -(v as i128);
        proof {
            assert(0 <= w < 0x1_0000_0000_0000_0000_i128);
        }
        w as u64
    } else {
        v as u64
    }
}

/// Render `v` as its decimal digit string with an optional minus sign.
pub fn i64_dec_string(v: i64) -> (r: String)
    ensures
        r@ == int_str(v as int),
{
    let a = abs_u64(v);
    if v < 0 {
        let mut s = "-".to_owned();
        let t = u64_dec_string(a);
        s.append(t.as_str());
        proof {
            reveal_strlit("-");
            assert("-"@ =~= seq!['-']);
            assert(s@ =~= int_str(v as int));
        }
        s
    } else {
        u64_dec_string(a)
    }
}

/// Ten to the power `k` as a machine integer.
pub fn pow10_u64(k: usize) -> (r: u64)
    requires
        k <= 19,
    ensures
        r as nat == pow10(k as nat),
    decreases k,
{
    if k == 0 {
        1
    } else {
        let p = pow10_u64(k - 1);
        proof {
            lemma_pow10_mono((k - 1) as nat, 18);
            assert(pow10(18) == 1_000_000_000_000_000_000) by {
                reveal_with_fuel(pow10, 20);
            };
        }
        10 * p
    }
}

/// Render the nonnegative fixed-point value `v` (in units of `10^-k`) with
/// exactly `k` digits after the decimal point.
pub fn fixed_dec_string_u64(v: u64, k: usize) -> (r: String)
    requires
        1 <= k <= 6,
    ensures
        r@ == fixed_str(v as int, k as nat),
{
    let scale = pow10_u64(k);
    proof {
        lemma_pow10_pos(k as nat);
    }
    let whole = v / scale;
    let frac = v % scale;
    let mut s = u64_dec_string(whole);
    s.append(".");
    let f = u64_dec_width(frac, k);
    s.append(f.as_str());
    proof {
        assert(s@ =~= fixed_str(v as int, k as nat));
    }
    s
}

/// Render the fixed-point value `v` (in units of `10^-k`) with exactly `k`
/// digits after the decimal point and a minus sign when negative.
pub fn fixed_dec_string(v: i64, k: usize) -> (r: String)
    requires
        1 <= k <= 6,
    ensures
        r@ == fixed_str(v as int, k as nat),
{
    let a = abs_u64(v);
    if v < 0 {
        let mut s = "-".to_owned();
        let t = fixed_dec_string_u64(a, k);
        s.append(t.as_str());
        proof {
            reveal_strlit("-");
            assert("-"@ =~= seq!['-']);
            assert(s@ =~= fixed_str(v as int, k as nat));
        }
        s
    } else {
        fixed_dec_string_u64(a, k)
    }
}

} // verus!
