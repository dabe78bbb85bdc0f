//! Numbers written in decimal.

use vstd::prelude::*;

verus! {

/// The character of the decimal digit `d`.
pub open spec fn digit(d: nat) -> char {
    (('0' as u8) + d) as u8 as char
}

/// The decimal digits of `n`, most significant first, without leading zeros.
pub open spec fn decimal(n: nat) -> Seq<char>
    decreases n,
{
    if n < 10 {
        seq![digit(n)]
    } else {
        decimal(n / 10).push(digit(n % 10))
    }
}

/// Appends the decimal digits of `n` to `text`.
pub fn push_decimal(text: &mut String, n: usize)
    ensures
        final(text)@ == old(text)@ + decimal(n as nat),
{
    let mut digits: Vec<char> = Vec::new();
    let mut rest = n;
    while rest >= 10
        invariant
            decimal(n as nat) == decimal(rest as nat) + digits@.reverse(),
        decreases rest,
    {
        let ghost before = digits@;
        digits.push((('0' as u8) + (rest % 10) as u8) as char);
        proof {
            assert(digits@.reverse() == seq![digit((rest % 10) as nat)] + before.reverse());
        }
        rest = rest / 10;
    }
    text.push((('0' as u8) + rest as u8) as char);
    let ghost start = text@;
    let mut i = digits.len();
    while i > 0
        invariant
            i <= digits.len(),
            text@ == start + digits@.reverse().take(digits.len() - i),
        decreases i,
    {
        i -= 1;
        text.push(digits[i]);
    }
    assert(digits@.reverse().take(digits.len() as int) == digits@.reverse());
}

} // verus!
