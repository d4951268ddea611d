//! Decimal rendering of unsigned integers and of fixed-point values.
use vstd::prelude::*;

verus! {

/// The ASCII digit for `d < 10`.
pub open spec fn digit_char(d: nat) -> char {
    if d == 0 { '0' }
    else if d == 1 { '1' }
    else if d == 2 { '2' }
    else if d == 3 { '3' }
    else if d == 4 { '4' }
    else if d == 5 { '5' }
    else if d == 6 { '6' }
    else if d == 7 { '7' }
    else if d == 8 { '8' }
    else { '9' }
}

/// The decimal digits of `n`, without leading zeros.
pub open spec fn digits(n: nat) -> Seq<char>
    decreases n,
{
    if n < 10 {
        seq![digit_char(n)]
    } else {
        digits(n / 10).push(digit_char(n % 10))
    }
}

/// `v` hundredths written with one decimal, rounded half up.
pub open spec fn tenths_text(v: nat) -> Seq<char> {
    let t = (v + 5) / 10;
    digits(t / 10) + seq!['.', digit_char(t % 10)]
}

/// `v` hundredths written with two decimals.
pub open spec fn hundredths_text(v: nat) -> Seq<char> {
    digits(v / 100) + seq!['.', digit_char((v / 10) % 10), digit_char(v % 10)]
}

fn digit(d: u64) -> (c: char)
    requires
        d < 10,
    ensures
        c == digit_char(d as nat),
{
    if d == 0 { '0' }
    else if d == 1 { '1' }
    else if d == 2 { '2' }
    else if d == 3 { '3' }
    else if d == 4 { '4' }
    else if d == 5 { '5' }
    else if d == 6 { '6' }
    else if d == 7 { '7' }
    else if d == 8 { '8' }
    else { '9' }
}

/// Appends the decimal digits of `n`.
pub fn push_digits(out: &mut Vec<char>, n: u64)
    ensures
        final(out)@ == old(out)@ + digits(n as nat),
    decreases n,
{
    if n >= 10 {
        push_digits(out, n / 10);
    }
    out.push(digit(n % 10));
    proof {
        if n < 10 {
            assert(old(out)@ + digits(n as nat) =~= old(out)@.push(digit_char(n as nat)));
        } else {
            assert(old(out)@ + digits(n as nat) =~= (old(out)@ + digits((n / 10) as nat)).push(
                digit_char((n % 10) as nat),
            ));
        }
    }
}

/// Appends `v` hundredths with one decimal, rounded half up.
pub fn push_tenths(out: &mut Vec<char>, v: u64)
    ensures
        final(out)@ == old(out)@ + tenths_text(v as nat),
{
    let t: u64 = ((v as u128 + 5) / 10) as u64;
    push_digits(out, t / 10);
    out.push('.');
    out.push(digit(t % 10));
    assert(final(out)@ =~= old(out)@ + tenths_text(v as nat)) by {
        assert(t as nat == (v as nat + 5) / 10);
    }
}

/// Appends `v` hundredths with two decimals.
pub fn push_hundredths(out: &mut Vec<char>, v: u64)
    ensures
        final(out)@ == old(out)@ + hundredths_text(v as nat),
{
    push_digits(out, v / 100);
    out.push('.');
    out.push(digit((v / 10) % 10));
    out.push(digit(v % 10));
    assert(final(out)@ =~= old(out)@ + hundredths_text(v as nat));
}

/// Appends the characters of `s`.
pub fn push_str(out: &mut Vec<char>, s: &str)
    ensures
        final(out)@ == old(out)@ + s@,
{
    let mut cs = crate::text::chars_of(s);
    out.append(&mut cs);
}

} // verus!
