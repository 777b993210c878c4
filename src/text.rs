//! Decimal rendering of integers and of values held in hundredths.

use vstd::prelude::*;

verus! {

/// The ten decimal digits, in order.
pub const DIGITS: &'static str = "0123456789";

/// The character that writes the digit `d` (0 to 9).
pub open spec fn digit_char(d: int) -> char {
    DIGITS@[d]
}

/// The decimal digits of `n`, most significant first, without leading zeros.
pub open spec fn digits_of(n: nat) -> Seq<char>
    decreases n,
{
    if n < 10 {
        seq![digit_char(n as int)]
    } else {
        digits_of(n / 10).push(digit_char((n % 10) as int))
    }
}

pub open spec fn abs(x: int) -> int {
    if x < 0 {
        -x
    } else {
        x
    }
}

/// A value given in hundredths, written with exactly two decimals:
/// an optional minus sign, the integer part, a dot and two digits.
pub open spec fn centi_text(c: int) -> Seq<char> {
    let m = abs(c);
    let sign: Seq<char> = if c < 0 {
        seq!['-']
    } else {
        seq![]
    };
    sign + digits_of((m / 100) as nat) + seq!['.', digit_char((m / 10) % 10), digit_char(m % 10)]
}

/// Appends the digit `d` to `out`.
fn push_digit(out: &mut String, d: u64)
    requires
        d < 10,
    ensures
        final(out)@ == old(out)@.push(digit_char(d as int)),
{
    proof {
        reveal_strlit("0123456789");
    }
    let one = DIGITS.substring_char(d as usize, d as usize + 1);
    assert(one@ =~= seq![digit_char(d as int)]);
    out.append(one);
}

/// Appends the decimal digits of `n` to `out`.
pub fn push_digits(out: &mut String, n: u64)
    ensures
        final(out)@ == old(out)@ + digits_of(n as nat),
    decreases n,
{
    if n >= 10 {
        push_digits(out, n / 10);
        push_digit(out, n % 10);
        assert(final(out)@ =~= old(out)@ + digits_of(n as nat));
    } else {
        push_digit(out, n);
        assert(final(out)@ =~= old(out)@ + digits_of(n as nat));
    }
}

/// Appends the value `c`, given in hundredths, with exactly two decimals.
pub fn push_centi(out: &mut String, c: i64)
    ensures
        final(out)@ == old(out)@ + centi_text(c as int),
{
    let ghost start = out@;
    let m: u64 = if c < 0 {
        (-(c as i128)) as u64
    } else {
        c as u64
    };
    if c < 0 {
        out.append("-");
        proof {
            reveal_strlit("-");
        }
    }
    push_digits(out, m / 100);
    out.append(".");
    proof {
        reveal_strlit(".");
    }
    push_digit(out, (m / 10) % 10);
    push_digit(out, m % 10);
    assert(out@ =~= start + centi_text(c as int));
}

/// The value `c`, given in hundredths, with exactly two decimals.
pub fn centi_string(c: i64) -> (r: String)
    ensures
        r@ == centi_text(c as int),
{
    let mut out = String::new();
    push_centi(&mut out, c);
    assert(out@ =~= centi_text(c as int));
    out
}

} // verus!
