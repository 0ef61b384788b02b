//! Decimal rendering of integers into strings.
use vstd::prelude::*;
use vstd::string::*;

verus! {

/// The character that stands for the decimal digit `d`.
pub open spec fn digit_char(d: int) -> char {
    if d == 0 {
        '0'
    } else if d == 1 {
        '1'
    } else if d == 2 {
        '2'
    } else if d == 3 {
        '3'
    } else if d == 4 {
        '4'
    } else if d == 5 {
        '5'
    } else if d == 6 {
        '6'
    } else if d == 7 {
        '7'
    } else if d == 8 {
        '8'
    } else {
        '9'
    }
}

/// The decimal digits of `n`, most significant first, without leading zeros.
pub open spec fn natural_digits(n: nat) -> Seq<char>
    decreases n,
{
    if n < 10 {
        seq![digit_char(n as int)]
    } else {
        natural_digits(n / 10).push(digit_char((n % 10) as int))
    }
}

/// The decimal rendering of `v`: a minus sign for negative values, then the
/// digits of the magnitude.
pub open spec fn decimal_digits(v: int) -> Seq<char> {
    if v < 0 {
        seq!['-'] + natural_digits((-v) as nat)
    } else {
        natural_digits(v as nat)
    }
}

/// The number of digits that `natural_digits` produces.
pub open spec fn digit_count(n: nat) -> nat
    decreases n,
{
    if n < 10 {
        1
    } else {
        digit_count(n / 10) + 1
    }
}

/// Every rendering of a natural number has `digit_count` characters, each of
/// them a decimal digit, and no leading zero unless the number is zero.
pub proof fn lemma_natural_digits_shape(n: nat)
    ensures
        natural_digits(n).len() == digit_count(n),
        forall|i: int|
            0 <= i < natural_digits(n).len() ==> '0' <= #[trigger] natural_digits(n)[i] <= '9',
        n > 0 ==> natural_digits(n)[0] != '0',
    decreases n,
{
    if n >= 10 {
        lemma_natural_digits_shape(n / 10);
    }
}

fn digit_str(d: u32) -> (s: &'static str)
    requires
        d < 10,
    ensures
        s@ == seq![digit_char(d as int)],
{
    proof {
        reveal_strlit("0");
        reveal_strlit("1");
        reveal_strlit("2");
        reveal_strlit("3");
        reveal_strlit("4");
        reveal_strlit("5");
        reveal_strlit("6");
        reveal_strlit("7");
        reveal_strlit("8");
        reveal_strlit("9");
    }
    let s: &'static str = if d == 0 {
        "0"
    } else if d == 1 {
        "1"
    } else if d == 2 {
        "2"
    } else if d == 3 {
        "3"
    } else if d == 4 {
        "4"
    } else if d == 5 {
        "5"
    } else if d == 6 {
        "6"
    } else if d == 7 {
        "7"
    } else if d == 8 {
        "8"
    } else {
        "9"
    };
    assert(s@ =~= seq![digit_char(d as int)]);
    s
}

/// Appends the decimal digits of `n` to `out`.
pub fn append_natural(out: &mut String, n: u32)
    ensures
        final(out)@ == old(out)@ + natural_digits(n as nat),
    decreases n,
{
    if n >= 10 {
        append_natural(out, n / 10);
    }
    out.append(digit_str(n % 10));
    assert(out@ =~= old(out)@ + natural_digits(n as nat));
}

/// Appends the decimal rendering of `v` to `out`.
pub fn append_decimal(out: &mut String, v: i32)
    ensures
        final(out)@ == old(out)@ + decimal_digits(v as int),
{
    if v < 0 {
        let wide: i64 = -(v as i64);
        let magnitude: u32 = wide as u32;
        proof {
            reveal_strlit("-");
        }
        out.append("-");
        append_natural(out, magnitude);
        assert(out@ =~= old(out)@ + decimal_digits(v as int));
    } else {
        append_natural(out, v as u32);
    }
}

/// The decimal rendering of `v` as a fresh string.
pub fn decimal_string(v: i32) -> (s: String)
    ensures
        s@ == decimal_digits(v as int),
{
    let mut s = String::new();
    append_decimal(&mut s, v);
    assert(s@ =~= decimal_digits(v as int));
    s
}

} // verus!
