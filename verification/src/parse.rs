//! A small verified scanner for the structured text form: literal matching,
//! decimal integers (at most nineteen digits), length-prefixed strings, and
//! optional values. Each spec parser consumes a prefix of a character
//! sequence and returns the parsed value with the remaining suffix; each
//! exec parser is proved to agree with its spec parser exactly.

use crate::numfmt::{
    dec_str, digit_val, int_str, is_dec_digit, lemma_dec_str_digits, lemma_dec_str_len,
    lemma_dec_str_parse, lemma_parse_digits_bound, lemma_pow10_mono, parse_digits, pow10,
};
use vstd::prelude::*;

verus! {

use vstd::string::StrSliceExecFns;

/// A suffix at which a digit run has ended: empty, or starting with a
/// character that is not a decimal digit.
pub open spec fn nondigit_start(s: Seq<char>) -> bool {
    s.len() == 0 || !is_dec_digit(s[0])
}

/// The number of leading decimal digits of `s`, counting at most `max`.
pub open spec fn digit_run(s: Seq<char>, max: int) -> int
    decreases max,
{
    if max <= 0 || s.len() == 0 || !is_dec_digit(s[0]) {
        0
    } else {
        1 + digit_run(s.skip(1), max - 1)
    }
}

/// The digit run is exactly `j` when `s` has `j` leading digits followed
/// by a boundary: the cap, the end of the sequence, or a non-digit.
pub proof fn lemma_digit_run_is(s: Seq<char>, max: int, j: int)
    requires
        0 <= j <= max,
        j <= s.len(),
        forall|i: int| 0 <= i < j ==> is_dec_digit(#[trigger] s[i]),
        j == max || j == s.len() || !is_dec_digit(s[j]),
    ensures
        digit_run(s, max) == j,
    decreases j,
{
    if j == 0 {
    } else {
        assert(is_dec_digit(s[0]));
        assert(forall|i: int| 0 <= i < j - 1 ==> is_dec_digit(#[trigger] s.skip(1)[i]));
        if j < max && j < s.len() {
            assert(s.skip(1)[j - 1] == s[j]);
        }
        lemma_digit_run_is(s.skip(1), max - 1, j - 1);
    }
}

/// Parse an unsigned decimal integer of at most nineteen digits.
pub open spec fn sp_u64(s: Seq<char>) -> Option<(u64, Seq<char>)> {
    let k = digit_run(s, 19);
    if k == 0 {
        Option::None
    } else {
        Option::Some((parse_digits(s.take(k)) as u64, s.skip(k)))
    }
}

/// Parse a signed decimal integer within the 64-bit range.
pub open spec fn sp_i64(s: Seq<char>) -> Option<(i64, Seq<char>)> {
    if s.len() > 0 && s[0] == '-' {
        match sp_u64(s.skip(1)) {
            Option::None => Option::None,
            Option::Some((v, r)) => if v <= 0x8000_0000_0000_0000u64 {
                Option::Some(((-(v as int)) as i64, r))
            } else {
                Option::None
            },
        }
    } else {
        match sp_u64(s) {
            Option::None => Option::None,
            Option::Some((v, r)) => if v <= 0x7fff_ffff_ffff_ffffu64 {
                Option::Some(((v as int) as i64, r))
            } else {
                Option::None
            },
        }
    }
}

/// Match a fixed literal prefix.
pub open spec fn sp_lit(lit: Seq<char>, s: Seq<char>) -> Option<Seq<char>> {
    if lit.len() <= s.len() && s.take(lit.len() as int) == lit {
        Option::Some(s.skip(lit.len() as int))
    } else {
        Option::None
    }
}

/// Parse a length-prefixed string: the character count, a colon, then
/// exactly that many characters.
pub open spec fn sp_str(s: Seq<char>) -> Option<(Seq<char>, Seq<char>)> {
    match sp_u64(s) {
        Option::None => Option::None,
        Option::Some((n, r)) => if n < r.len() && r[0] == ':' {
            Option::Some((r.subrange(1, n as int + 1), r.skip(n as int + 1)))
        } else {
            Option::None
        },
    }
}

/// Parse an optional signed integer: the word `none`, or the integer.
pub open spec fn sp_opt_i64(s: Seq<char>) -> Option<(Option<i64>, Seq<char>)> {
    match sp_lit("none"@, s) {
        Option::Some(r) => Option::Some((Option::<i64>::None, r)),
        Option::None => match sp_i64(s) {
            Option::None => Option::None,
            Option::Some((v, r)) => Option::Some((Option::Some(v), r)),
        },
    }
}

/// The encoded form of a length-prefixed string.
pub open spec fn tok_str(t: Seq<char>) -> Seq<char> {
    dec_str(t.len()) + seq![':'] + t
}

/// The encoded form of an optional signed integer.
pub open spec fn tok_opt(v: Option<i64>) -> Seq<char> {
    match v {
        Option::None => "none"@,
        Option::Some(x) => int_str(x as int),
    }
}

/// Matching a literal against itself plus a suffix yields the suffix.
pub proof fn lemma_sp_lit(lit: Seq<char>, rest: Seq<char>)
    ensures
        sp_lit(lit, lit + rest) == Option::Some(rest),
{
    let s = lit + rest;
    assert(s.take(lit.len() as int) =~= lit);
    assert(s.skip(lit.len() as int) =~= rest);
}

/// Reading an unsigned integer from its digit string plus a non-digit
/// suffix yields exactly that integer and suffix.
pub proof fn lemma_sp_u64(n: u64, rest: Seq<char>)
    requires
        n < 10_000_000_000_000_000_000u64,
        nondigit_start(rest),
    ensures
        sp_u64(dec_str(n as nat) + rest) == Option::Some((n, rest)),
{
    let ds = dec_str(n as nat);
    let s = ds + rest;
    lemma_dec_str_digits(n as nat);
    assert(pow10(19) == 10_000_000_000_000_000_000) by {
        reveal_with_fuel(pow10, 20);
    };
    lemma_dec_str_len(n as nat, 19);
    assert(forall|i: int| 0 <= i < ds.len() ==> is_dec_digit(#[trigger] s[i]));
    if (ds.len() as int) < 19 && (ds.len() as int) < s.len() {
        assert(s[ds.len() as int] == rest[0]);
    }
    lemma_digit_run_is(s, 19, ds.len() as int);
    assert(s.take(ds.len() as int) =~= ds);
    lemma_dec_str_parse(n as nat);
    assert(s.skip(ds.len() as int) =~= rest);
}

/// Reading a signed integer from its digit string plus a suffix that does
/// not continue the number yields exactly that integer and suffix.
pub proof fn lemma_sp_i64(v: i64, rest: Seq<char>)
    requires
        nondigit_start(rest),
    ensures
        sp_i64(int_str(v as int) + rest) == Option::Some((v, rest)),
{
    if v >= 0 {
        let s = dec_str(v as nat) + rest;
        lemma_sp_u64(v as u64, rest);
        lemma_dec_str_digits(v as nat);
        assert(s[0] == dec_str(v as nat)[0]);
        assert(is_dec_digit(s[0]));
        assert(s[0] != '-');
        assert(int_str(v as int) + rest =~= s);
    } else {
        let m = (-(v as int)) as nat;
        let s = int_str(v as int) + rest;
        assert(s[0] == '-');
        assert(s.skip(1) =~= dec_str(m) + rest);
        lemma_sp_u64(m as u64, rest);
        assert(sp_u64(s.skip(1)) == Option::Some((m as u64, rest)));
    }
}

/// Reading a length-prefixed string from its encoded form plus any suffix
/// yields exactly that string and suffix.
pub proof fn lemma_sp_str(t: Seq<char>, rest: Seq<char>)
    requires
        t.len() < 10_000_000_000_000_000_000,
    ensures
        sp_str(tok_str(t) + rest) == Option::Some((t, rest)),
{
    let s = tok_str(t) + rest;
    let r2 = seq![':'] + t + rest;
    assert(s =~= dec_str(t.len()) + r2);
    assert(r2[0] == ':');
    assert(!is_dec_digit(':'));
    lemma_sp_u64(t.len() as u64, r2);
    assert(sp_u64(s) == Option::Some((t.len() as u64, r2)));
    assert(r2.subrange(1, t.len() as int + 1) =~= t);
    assert(r2.skip(t.len() as int + 1) =~= rest);
}

/// Reading an optional integer from its encoded form plus a suffix that
/// does not continue a number yields exactly that value and suffix.
pub proof fn lemma_sp_opt_i64(v: Option<i64>, rest: Seq<char>)
    requires
        nondigit_start(rest),
    ensures
        sp_opt_i64(tok_opt(v) + rest) == Option::Some((v, rest)),
{
    reveal_strlit("none");
    match v {
        Option::None => {
            lemma_sp_lit("none"@, rest);
        },
        Option::Some(x) => {
            let s = int_str(x as int) + rest;
            lemma_dec_str_digits(if x >= 0 {
                x as nat
            } else {
                (-(x as int)) as nat
            });
            assert(s[0] == int_str(x as int)[0]);
            if x >= 0 {
                assert(is_dec_digit(s[0]));
            } else {
                assert(s[0] == '-');
            }
            assert(s[0] != 'n');
            if sp_lit("none"@, s) is Some {
                assert(s.take(4)[0] == s[0]);
                assert(false);
            }
            lemma_sp_i64(x, rest);
        },
    }
}

/// Read an unsigned decimal integer (at most nineteen digits) from the
/// front of `s`.
pub fn p_u64<'a>(s: &'a str) -> (r: Option<(u64, &'a str)>)
    ensures
        r is Some <==> sp_u64(s@) is Some,
        r matches Some((v, rest)) ==> sp_u64(s@) == Option::Some((v, rest@)),
{
    let len = s.unicode_len();
    let mut j: usize = 0;
    let mut acc: u64 = 0;
    while j < len && j < 19
        invariant
            len == s@.len(),
            j <= len,
            j <= 19,
            forall|i: int| 0 <= i < j ==> is_dec_digit(#[trigger] s@[i]),
            acc as nat == parse_digits(s@.take(j as int)),
        ensures
            len == s@.len(),
            j <= len,
            j <= 19,
            forall|i: int| 0 <= i < j ==> is_dec_digit(#[trigger] s@[i]),
            acc as nat == parse_digits(s@.take(j as int)),
            j == 19 || j == len || !is_dec_digit(s@[j as int]),
        decreases len - j,
    {
        let c = s.get_char(j);
        let u = c as u32;
        if u < 48 || u > 57 {
            break;
        }
        proof {
            lemma_parse_digits_bound(s@.take(j as int));
            lemma_pow10_mono(j as nat, 18);
            assert(pow10(18) == 1_000_000_000_000_000_000) by {
                reveal_with_fuel(pow10, 19);
            };
            assert(s@.take(j as int + 1).drop_last() =~= s@.take(j as int));
            assert(s@.take(j as int + 1).last() == s@[j as int]);
            assert(digit_val(s@[j as int]) == u - 48);
        }
        acc = acc * 10 + (u - 48) as u64;
        j += 1;
    }
    if j == 0 {
        proof {
            lemma_digit_run_is(s@, 19, 0);
        }
        None
    } else {
        proof {
            lemma_digit_run_is(s@, 19, j as int);
        }
        Some((acc, s.substring_char(j, len)))
    }
}

/// Read a signed decimal integer within the 64-bit range from the front
/// of `s`.
pub fn p_i64<'a>(s: &'a str) -> (r: Option<(i64, &'a str)>)
    ensures
        r is Some <==> sp_i64(s@) is Some,
        r matches Some((v, rest)) ==> sp_i64(s@) == Option::Some((v, rest@)),
{
    let len = s.unicode_len();
    if len > 0 && s.get_char(0) == '-' {
        let t = s.substring_char(1, len);
        proof {
            assert(t@ =~= s@.skip(1));
        }
        match p_u64(t) {
            None => None,
            Some((v, rest)) => {
                if v <= 0x8000_0000_0000_0000u64 {
                    let x: i64 = (-(v as i128)) as i64;
                    Some((x, rest))
                } else {
                    None
                }
            },
        }
    } else {
        match p_u64(s) {
            None => None,
            Some((v, rest)) => {
                if v <= 0x7fff_ffff_ffff_ffffu64 {
                    Some((v as i64, rest))
                } else {
                    None
                }
            },
        }
    }
}

/// Match a fixed literal at the front of `s`.
pub fn p_lit<'a>(s: &'a str, lit: &str) -> (r: Option<&'a str>)
    ensures
        r is Some <==> sp_lit(lit@, s@) is Some,
        r matches Some(rest) ==> sp_lit(lit@, s@) == Option::Some(rest@),
{
    let ll = lit.unicode_len();
    let sl = s.unicode_len();
    if ll > sl {
        return None;
    }
    let mut i: usize = 0;
    while i < ll
        invariant
            i <= ll,
            ll == lit@.len(),
            sl == s@.len(),
            ll <= sl,
            forall|q: int| 0 <= q < i ==> s@[q] == lit@[q],
        decreases ll - i,
    {
        if s.get_char(i) != lit.get_char(i) {
            proof {
                assert(s@.take(ll as int)[i as int] != lit@[i as int]);
            }
            return None;
        }
        i += 1;
    }
    proof {
        assert(s@.take(ll as int) =~= lit@);
    }
    Some(s.substring_char(ll, sl))
}

/// Read a length-prefixed string from the front of `s`.
pub fn p_str<'a>(s: &'a str) -> (r: Option<(String, &'a str)>)
    ensures
        r is Some <==> sp_str(s@) is Some,
        r matches Some((t, rest)) ==> sp_str(s@) == Option::Some((t@, rest@)),
{
    match p_u64(s) {
        None => None,
        Some((n, r1)) => {
            let rl = r1.unicode_len();
            if n < rl as u64 && r1.get_char(0) == ':' {
                let end: usize = (n + 1) as usize;
                let t = r1.substring_char(1, end);
                let rest = r1.substring_char(end, rl);
                Some((t.to_owned(), rest))
            } else {
                None
            }
        },
    }
}

/// Read an optional signed integer from the front of `s`.
pub fn p_opt_i64<'a>(s: &'a str) -> (r: Option<(Option<i64>, &'a str)>)
    ensures
        r is Some <==> sp_opt_i64(s@) is Some,
        r matches Some((v, rest)) ==> sp_opt_i64(s@) == Option::Some((v, rest@)),
{
    match p_lit(s, "none") {
        Some(rest) => Some((None, rest)),
        None => match p_i64(s) {
            None => None,
            Some((v, rest)) => Some((Some(v), rest)),
        },
    }
}

} // verus!
