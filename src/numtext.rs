//! Decimal text of counts.
use vstd::prelude::*;

verus! {

pub open spec fn digit_char(d: nat) -> char {
    ((48 + d) as u8) as char
}

/// The decimal digits of `n`, most significant first, without leading zeros.
pub open spec fn decimal_text(n: nat) -> Seq<char>
    decreases n,
{
    if n < 10 {
        seq![digit_char(n)]
    } else {
        decimal_text(n / 10).push(digit_char(n % 10))
    }
}

/// Relies on `String::push`: the character is added at the end.
#[verifier::external_body]
pub(crate) fn push_char(s: &mut String, c: char)
    ensures
        final(s)@ == old(s)@.push(c),
{
    s.push(c)
}

/// The decimal text of `n`.
pub fn decimal(n: usize) -> (r: String)
    ensures
        r@ == decimal_text(n as nat),
    decreases n,
{
    let (mut s, d) = if n < 10 {
        (String::new(), n)
    } else {
        (decimal(n / 10), n % 10)
    };
    let c = (48u8 + d as u8) as char;
    push_char(&mut s, c);
    s
}

} // verus!
