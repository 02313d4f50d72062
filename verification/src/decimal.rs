//! Decimal rendering of integers.

use vstd::prelude::*;

verus! {

/// The character of the decimal digit `d`, for `0 <= d <= 9`.
pub open spec fn digit_char(d: int) -> char {
    (0x30 + d) as char
}

/// The decimal digits of `n`, most significant first, without leading zeros;
/// zero is the single digit `0`.
pub open spec fn nat_digits(n: nat) -> Seq<char>
    decreases n,
{
    if n < 10 {
        seq![digit_char(n as int)]
    } else {
        nat_digits(n / 10).push(digit_char((n % 10) as int))
    }
}

/// The decimal text of `v`: a minus sign for a negative number, then the
/// digits of its magnitude.
pub open spec fn int_digits(v: int) -> Seq<char> {
    if v < 0 {
        seq!['-'] + nat_digits((-v) as nat)
    } else {
        nat_digits(v as nat)
    }
}

/// The executable form of [`digit_char`].
fn digit_to_char(d: u64) -> (c: char)
    requires
        d < 10,
    ensures
        c == digit_char(d as int),
{
    (0x30u8 + d as u8) as char
}

/// Appends the decimal digits of `n` to `out`.
pub fn push_nat_digits(out: &mut String, n: u64)
    ensures
        final(out)@ == old(out)@ + nat_digits(n as nat),
{
    // The digits below the leading one, least significant first.
    let mut low: Vec<char> = Vec::new();
    let mut rest: u64 = n;
    while rest >= 10
        invariant
            nat_digits(n as nat) == nat_digits(rest as nat) + low@.reverse(),
        decreases rest,
    {
        let c = digit_to_char(rest % 10);
        proof {
            assert(low@.push(c).reverse() =~= seq![c] + low@.reverse());
            assert(nat_digits(rest as nat) == nat_digits((rest / 10) as nat).push(c));
            assert(nat_digits((rest / 10) as nat).push(c) + low@.reverse() =~= nat_digits(
                (rest / 10) as nat,
            ) + (seq![c] + low@.reverse()));
        }
        low.push(c);
        rest = rest / 10;
    }
    out.push(digit_to_char(rest));
    let ghost start = old(out)@;
    let mut i: usize = low.len();
    while i > 0
        invariant
            i <= low.len(),
            out@ == start + seq![digit_char(rest as int)] + low@.reverse().subrange(
                0,
                low.len() - i,
            ),
        decreases i,
    {
        i = i - 1;
        out.push(low[i]);
    }
    assert(low@.reverse().subrange(0, low.len() as int) =~= low@.reverse());
    assert(out@ =~= start + nat_digits(n as nat));
}

/// Appends the decimal text of `value` to `out`, with a leading minus sign
/// when it is negative.
pub fn push_decimal(out: &mut String, value: i64)
    ensures
        final(out)@ == old(out)@ + int_digits(value as int),
{
    if value < 0 {
        out.push('-');
        // `-(value + 1)` avoids negating the least `i64`, which has no
        // positive counterpart.
        let magnitude: u64 = (-(value + 1)) as u64 + 1;
        push_nat_digits(out, magnitude);
        assert(out@ =~= old(out)@ + int_digits(value as int));
    } else {
        push_nat_digits(out, value as u64);
    }
}

} // verus!
