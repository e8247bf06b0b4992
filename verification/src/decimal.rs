//! Whole numbers written out in decimal.

use vstd::prelude::*;

verus! {

/// The character for a digit below ten.
pub open spec fn digit_char(d: nat) -> char {
    ('0' as nat + d) as char
}

/// `n` in decimal, without leading zeros.
pub open spec fn decimal(n: nat) -> Seq<char>
    decreases n,
{
    if n < 10 {
        seq![digit_char(n)]
    } else {
        decimal(n / 10).push(digit_char(n % 10))
    }
}

/// `i` in decimal, with `-` in front of a negative number.
pub open spec fn int_text(i: i32) -> Seq<char> {
    if i < 0 {
        seq!['-'] + decimal((-(i as int)) as nat)
    } else {
        decimal(i as nat)
    }
}

/// Appends `n` in decimal.
fn push_decimal(out: &mut Vec<char>, n: u64)
    ensures
        final(out)@ == old(out)@ + decimal(n as nat),
    decreases n,
{
    if n >= 10 {
        push_decimal(out, n / 10);
    }
    let digit = (('0' as u8) + ((n % 10) as u8)) as char;
    assert(digit == digit_char((n % 10) as nat));
    out.push(digit);
    assert(out@ =~= old(out)@ + decimal(n as nat));
}

/// Writes `n` out in decimal.
pub fn nat_to_string(n: u64) -> (out: String)
    ensures
        out@ == decimal(n as nat),
{
    let mut chars: Vec<char> = Vec::new();
    push_decimal(&mut chars, n);
    assert(chars@ =~= decimal(n as nat));
    let out = crate::text::collect_string(chars.as_slice(), 0, chars.len());
    assert(chars@.subrange(0, chars@.len() as int) =~= chars@);
    out
}

/// Writes `i` out in decimal.
pub fn int_to_string(i: i32) -> (out: String)
    ensures
        out@ == int_text(i),
{
    let mut chars: Vec<char> = Vec::new();
    if i < 0 {
        chars.push('-');
        push_decimal(&mut chars, (-(i as i64)) as u64);
    } else {
        push_decimal(&mut chars, i as u64);
    }
    assert(chars@ =~= int_text(i));
    let out = crate::text::collect_string(chars.as_slice(), 0, chars.len());
    assert(chars@.subrange(0, chars@.len() as int) =~= chars@);
    out
}

} // verus!
