//! Decimal numbers, ordinals and other small pieces of message text.

use vstd::prelude::*;

verus! {

/// The character of a decimal digit.
pub open spec fn digit_char(d: nat) -> char
    recommends
        d < 10,
{
    if d == 0 { '0' }
    else if d == 1 { '1' }
    else if d == 2 { '2' }
    else if d == 3 { '3' }
    else if d == 4 { '4' }
    else if d == 5 { '5' }
    else if d == 6 { '6' }
    else if d == 7 { '7' }
    else if d == 8 { '8' }
    else { '9' }
}

/// `n` written in decimal, without sign or leading zeros.
#[verifier::opaque]
pub open spec fn decimal(n: nat) -> Seq<char>
    decreases n,
{
    if n < 10 {
        seq![digit_char(n)]
    } else {
        decimal(n / 10).push(digit_char(n % 10))
    }
}

/// The English suffix that follows `n` as an ordinal, chosen by its last digit
/// alone, so that eleven reads "11st".
pub open spec fn ordinal_suffix(n: nat) -> Seq<char> {
    if n % 10 == 1 {
        seq!['s', 't']
    } else if n % 10 == 2 {
        seq!['n', 'd']
    } else if n % 10 == 3 {
        seq!['r', 'd']
    } else {
        seq!['t', 'h']
    }
}

/// `n` written as an ordinal: "1st", "2nd", "3rd", "4th", ...
pub open spec fn ordinal(n: nat) -> Seq<char> {
    decimal(n) + ordinal_suffix(n)
}

fn digit_str(d: usize) -> (r: &'static str)
    requires
        d < 10,
    ensures
        r@ == seq![digit_char(d as nat)],
{
    proof {
        reveal_strlit("0");
        reveal_strlit("1");
        reveal_strlit("2");
        reveal_strlit("3");
        reveal_strlit("4");
        reveal_strlit("5");
        reveal_strlit("6");
        reveal_strlit("7");
        reveal_strlit("8");
        reveal_strlit("9");
    }
    let r = if d == 0 { "0" }
    else if d == 1 { "1" }
    else if d == 2 { "2" }
    else if d == 3 { "3" }
    else if d == 4 { "4" }
    else if d == 5 { "5" }
    else if d == 6 { "6" }
    else if d == 7 { "7" }
    else if d == 8 { "8" }
    else { "9" };
    assert(r@ =~= seq![digit_char(d as nat)]);
    r
}

/// Appends `n` in decimal to `out`.
pub fn push_decimal(out: &mut String, n: u128)
    ensures
        final(out)@ == old(out)@ + decimal(n as nat),
    decreases n,
{
    proof {
        reveal(decimal);
    }
    if n >= 10 {
        push_decimal(out, n / 10);
    }
    out.append(digit_str((n % 10) as usize));
    assert(out@ =~= old(out)@ + decimal(n as nat));
}

/// Appends `n` in decimal to `out`.
pub fn push_usize(out: &mut String, n: usize)
    ensures
        final(out)@ == old(out)@ + decimal(n as nat),
{
    push_decimal(out, n as u128);
}

/// Appends `n` in decimal to `out`.
pub fn push_u32(out: &mut String, n: u32)
    ensures
        final(out)@ == old(out)@ + decimal(n as nat),
{
    push_decimal(out, n as u128);
}

/// Appends `n` in decimal to `out`.
pub fn push_u8(out: &mut String, n: u8)
    ensures
        final(out)@ == old(out)@ + decimal(n as nat),
{
    push_decimal(out, n as u128);
}

/// Appends `idx + 1` as an ordinal to `out`: the position, counted from 1,
/// of the item at index `idx`.
pub fn push_position(out: &mut String, idx: usize)
    ensures
        final(out)@ == old(out)@ + ordinal(idx as nat + 1),
{
    push_ordinal(out, idx as u128 + 1);
}

/// Appends `n` as an ordinal ("1st", "22nd", "11st") to `out`.
pub fn push_ordinal(out: &mut String, n: u128)
    ensures
        final(out)@ == old(out)@ + ordinal(n as nat),
{
    push_decimal(out, n);
    let m: u128 = n % 10;
    if m == 1 {
        out.append("st");
        proof { reveal_strlit("st"); }
    } else if m == 2 {
        out.append("nd");
        proof { reveal_strlit("nd"); }
    } else if m == 3 {
        out.append("rd");
        proof { reveal_strlit("rd"); }
    } else {
        out.append("th");
        proof { reveal_strlit("th"); }
    }
    assert(out@ =~= old(out)@ + ordinal(n as nat));
}

} // verus!
