//! Decimal integers: writing them out and reading them back, as Rust's
//! `Display` and `FromStr` for the integer types do.

use vstd::prelude::*;
use vstd::string::*;

use crate::text::{hex_digits, push_hex_digit, to_chars};

verus! {

/// The decimal digits of `n`, most significant first, without leading zeros.
pub open spec fn nat_digits(n: nat) -> Seq<char>
    decreases n,
{
    if n < 10 {
        seq![hex_digits()[n as int]]
    } else {
        nat_digits(n / 10).push(hex_digits()[(n % 10) as int])
    }
}

/// `n` written in decimal, with a leading `-` when negative.
pub open spec fn int_decimal(n: int) -> Seq<char> {
    if n < 0 {
        seq!['-'] + nat_digits((-n) as nat)
    } else {
        nat_digits(n as nat)
    }
}

fn append_digits(s: &mut String, n: u64)
    ensures
        final(s)@ == old(s)@ + nat_digits(n as nat),
    decreases n,
{
    if n >= 10 {
        append_digits(s, n / 10);
    }
    let ghost mid = s@;
    push_hex_digit(s, (n % 10) as u8);
    proof {
        if n >= 10 {
            assert(old(s)@ + nat_digits(n as nat) =~= mid.push(hex_digits()[(n % 10) as int]));
        } else {
            assert(old(s)@ + nat_digits(n as nat) =~= old(s)@.push(hex_digits()[n as int]));
        }
    }
}

/// `n` in decimal, as `n.to_string()` writes it.
pub fn u64_to_string(n: u64) -> (r: String)
    ensures
        r@ == nat_digits(n as nat),
{
    let mut s = String::new();
    append_digits(&mut s, n);
    assert(s@ =~= nat_digits(n as nat));
    s
}

/// `n` in decimal, as `n.to_string()` writes it.
pub fn i64_to_string(n: i64) -> (r: String)
    ensures
        r@ == int_decimal(n as int),
{
    if n < 0 {
        let m: u64 = (-(n as i128)) as u64;
        let mut s = String::from_str("-");
        proof {
            reveal_strlit("-");
        }
        append_digits(&mut s, m);
        s
    } else {
        let s = u64_to_string(n as u64);
        s
    }
}

/// Append the decimal form of `n` to `s`.
pub fn push_i64(s: &mut String, n: i64)
    ensures
        final(s)@ == old(s)@ + int_decimal(n as int),
{
    let d = i64_to_string(n);
    s.append(d.as_str());
}

/// Append the decimal form of `n` to `s`.
pub fn push_u64(s: &mut String, n: u64)
    ensures
        final(s)@ == old(s)@ + nat_digits(n as nat),
{
    append_digits(s, n);
}

pub open spec fn is_digit(c: char) -> bool {
    '0' <= c && c <= '9'
}

pub open spec fn all_digits(s: Seq<char>) -> bool {
    forall|i: int| 0 <= i < s.len() ==> is_digit(#[trigger] s[i])
}

/// The value of a string of decimal digits.
pub open spec fn digits_value(s: Seq<char>) -> nat
    decreases s.len(),
{
    if s.len() == 0 {
        0
    } else {
        digits_value(s.drop_last()) * 10 + (s.last() as nat - '0' as nat) as nat
    }
}

/// The unsigned magnitude a decimal integer literal denotes, and whether it
/// is negative: an optional sign (`-` only where `signed`) followed by one
/// or more ASCII digits, and nothing else.
pub open spec fn decimal_parts(s: Seq<char>, signed: bool) -> Option<(bool, nat)> {
    if s.len() > 0 && (s[0] == '+' || (signed && s[0] == '-')) {
        let body = s.drop_first();
        if body.len() > 0 && all_digits(body) {
            Some((s[0] == '-', digits_value(body)))
        } else {
            None
        }
    } else if s.len() > 0 && all_digits(s) {
        Some((false, digits_value(s)))
    } else {
        None
    }
}

/// What `s.parse::<i64>()` gives: the value of a signed decimal literal
/// that fits in an `i64`, and `None` for anything else.
pub open spec fn spec_parse_i64(s: Seq<char>) -> Option<i64> {
    match decimal_parts(s, true) {
        Some((neg, mag)) => {
            let v: int = if neg { -(mag as int) } else { mag as int };
            if i64::MIN <= v <= i64::MAX {
                Some(v as i64)
            } else {
                None
            }
        },
        None => None,
    }
}

/// What `s.parse::<u64>()` gives: the value of an unsigned decimal
/// literal (a leading `+` allowed) that fits in a `u64`, else `None`.
pub open spec fn spec_parse_u64(s: Seq<char>) -> Option<u64> {
    match decimal_parts(s, false) {
        Some((_, mag)) => if mag <= u64::MAX {
            Some(mag as u64)
        } else {
            None
        },
        None => None,
    }
}

proof fn lemma_digits_value_prefix(s: Seq<char>, k: int)
    requires
        0 <= k <= s.len(),
    ensures
        digits_value(s.take(k)) <= digits_value(s),
    decreases s.len(),
{
    if k < s.len() {
        lemma_digits_value_prefix(s.drop_last(), k);
        assert(s.drop_last().take(k) =~= s.take(k));
    } else {
        assert(s.take(k) =~= s);
    }
}

/// The value of the digit string `s[from..]`, or `None` when a character
/// there is not a digit or the value exceeds `bound`.
fn digits_up_to(s: &Vec<char>, from: usize, bound: u128) -> (r: Option<u128>)
    requires
        from <= s.len(),
        bound < 0x1_0000_0000_0000_0000_0000,
    ensures
        match r {
            Some(v) => all_digits(s@.skip(from as int)) && v == digits_value(s@.skip(from as int))
                && v <= bound,
            None => !all_digits(s@.skip(from as int)) || digits_value(s@.skip(from as int))
                > bound,
        },
{
    let ghost body = s@.skip(from as int);
    let mut acc: u128 = 0;
    let mut i: usize = from;
    while i < s.len()
        invariant
            from <= i <= s.len(),
            body == s@.skip(from as int),
            bound < 0x1_0000_0000_0000_0000_0000,
            acc <= bound,
            all_digits(body.take(i - from)),
            acc == digits_value(body.take(i - from)),
        decreases s.len() - i,
    {
        let c = s[i];
        if !('0' <= c && c <= '9') {
            assert(body[i - from] == c);
            return None;
        }
        let d: u128 = ((c as u32) - ('0' as u32)) as u128;
        let next = acc * 10 + d;
        assert(body.take(i + 1 - from).drop_last() =~= body.take(i - from));
        assert(body.take(i + 1 - from).last() == c);
        assert(all_digits(body.take(i + 1 - from))) by {
            assert forall|j: int| 0 <= j < i + 1 - from implies is_digit(
                #[trigger] body.take(i + 1 - from)[j],
            ) by {
                if j < i - from {
                    assert(body.take(i + 1 - from)[j] == body.take(i - from)[j]);
                }
            }
        }
        if next > bound {
            proof {
                lemma_digits_value_prefix(body, i + 1 - from);
            }
            return None;
        }
        acc = next;
        i = i + 1;
    }
    assert(body.take(i - from) =~= body);
    Some(acc)
}

/// Reads a decimal integer as `s.parse::<i64>()` does.
pub fn parse_i64(s: &str) -> (r: Option<i64>)
    ensures
        r == spec_parse_i64(s@),
{
    let cs = to_chars(s);
    if cs.len() == 0 {
        return None;
    }
    let first = cs[0];
    let signed = first == '+' || first == '-';
    let from: usize = if signed {
        1
    } else {
        0
    };
    if signed && cs.len() == 1 {
        return None;
    }
    let neg = first == '-';
    let bound: u128 = if neg {
        9_223_372_036_854_775_808
    } else {
        9_223_372_036_854_775_807
    };
    proof {
        if !signed {
            assert(cs@.skip(0) =~= cs@);
        } else {
            assert(cs@.skip(1) =~= cs@.drop_first());
        }
    }
    match digits_up_to(&cs, from, bound) {
        Some(v) => {
            if neg {
                Some((-(v as i128)) as i64)
            } else {
                Some(v as i64)
            }
        },
        None => None,
    }
}

/// Reads a decimal integer as `s.parse::<u64>()` does.
pub fn parse_u64(s: &str) -> (r: Option<u64>)
    ensures
        r == spec_parse_u64(s@),
{
    let cs = to_chars(s);
    if cs.len() == 0 {
        return None;
    }
    let first = cs[0];
    let signed = first == '+';
    let from: usize = if signed {
        1
    } else {
        0
    };
    if signed && cs.len() == 1 {
        return None;
    }
    proof {
        if !signed {
            assert(cs@.skip(0) =~= cs@);
        } else {
            assert(cs@.skip(1) =~= cs@.drop_first());
        }
    }
    match digits_up_to(&cs, from, 18_446_744_073_709_551_615) {
        Some(v) => Some(v as u64),
        None => None,
    }
}

/// What `s.parse::<usize>()` gives.
pub open spec fn spec_parse_usize(s: Seq<char>) -> Option<usize> {
    match decimal_parts(s, false) {
        Some((_, mag)) => if mag <= usize::MAX {
            Some(mag as usize)
        } else {
            None
        },
        None => None,
    }
}

/// Reads a decimal integer as `s.parse::<usize>()` does.
pub fn parse_usize(s: &str) -> (r: Option<usize>)
    ensures
        r == spec_parse_usize(s@),
{
    match parse_u64(s) {
        Some(v) => {
            if v <= usize::MAX as u64 {
                Some(v as usize)
            } else {
                None
            }
        },
        None => None,
    }
}

proof fn lemma_digit_char(d: nat)
    requires
        d < 10,
    ensures
        is_digit(hex_digits()[d as int]),
        hex_digits()[d as int] as nat - '0' as nat == d,
{
    if d == 0 {
    } else if d == 1 {
    } else if d == 2 {
    } else if d == 3 {
    } else if d == 4 {
    } else if d == 5 {
    } else if d == 6 {
    } else if d == 7 {
    } else if d == 8 {
    } else {
    }
}

proof fn lemma_nat_digits(n: nat)
    ensures
        nat_digits(n).len() > 0,
        all_digits(nat_digits(n)),
        digits_value(nat_digits(n)) == n,
    decreases n,
{
    if n < 10 {
        lemma_digit_char(n);
        let s = nat_digits(n);
        assert(s.drop_last() =~= Seq::<char>::empty());
        assert(digits_value(s.drop_last()) == 0);
        assert(s.last() == hex_digits()[n as int]);
        assert(digits_value(s) == digits_value(s.drop_last()) * 10 + (s.last() as nat
            - '0' as nat) as nat);
    } else {
        lemma_nat_digits(n / 10);
        lemma_digit_char(n % 10);
        let s = nat_digits(n);
        assert(s.drop_last() =~= nat_digits(n / 10));
        assert(s.last() == hex_digits()[(n % 10) as int]);
        assert forall|i: int| 0 <= i < s.len() implies is_digit(#[trigger] s[i]) by {
            if i < s.len() - 1 {
                assert(s[i] == nat_digits(n / 10)[i]);
            }
        }
        assert(digits_value(s) == digits_value(s.drop_last()) * 10 + (s.last() as nat
            - '0' as nat) as nat);
        assert(digits_value(s) == (n / 10) * 10 + n % 10);
        assert((n / 10) * 10 + n % 10 == n) by (nonlinear_arith);
    }
}

/// Writing an `i64` in decimal and reading it back gives the same number.
pub proof fn law_i64_round_trip(n: i64)
    ensures
        spec_parse_i64(int_decimal(n as int)) == Some(n),
{
    if n < 0 {
        let m = (-(n as int)) as nat;
        lemma_nat_digits(m);
        let s = int_decimal(n as int);
        assert(s.drop_first() =~= nat_digits(m));
        assert(s[0] == '-');
    } else {
        lemma_nat_digits(n as nat);
        let s = nat_digits(n as nat);
        assert(is_digit(s[0]));
    }
}

/// Writing a `u64` in decimal and reading it back gives the same number.
pub proof fn law_u64_round_trip(n: u64)
    ensures
        spec_parse_u64(nat_digits(n as nat)) == Some(n),
{
    lemma_nat_digits(n as nat);
    let s = nat_digits(n as nat);
    assert(is_digit(s[0]));
}

} // verus!
