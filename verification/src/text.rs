//! Building text: one character at a time, and numbers as numerals.

use vstd::prelude::*;
use vstd::string::StringExecFns;

verus! {

/// The decimal digit for `d`, a number below ten.
pub open spec fn digit(d: int) -> char {
    ('0' as u8 + d) as u8 as char
}

/// The decimal numeral of `n`, without leading zeros.
pub open spec fn decimal(n: nat) -> Seq<char>
    decreases n,
{
    if n < 10 {
        seq![digit(n as int)]
    } else {
        decimal(n / 10).push(digit((n % 10) as int))
    }
}

/// `String::push`: appends one character to the end of the string.
#[verifier::external_body]
pub(crate) fn push_char(text: &mut String, c: char)
    ensures
        final(text)@ == old(text)@.push(c),
{
    text.push(c);
}

/// Appends the decimal numeral of `n` to `text`.
pub fn push_decimal(text: &mut String, n: u128)
    ensures
        final(text)@ == old(text)@ + decimal(n as nat),
    decreases n,
{
    if n >= 10 {
        push_decimal(text, n / 10);
    }
    let d: u8 = (n % 10) as u8;
    push_char(text, (48 + d) as char);
    assert(final(text)@ == old(text)@ + decimal(n as nat)) by {
        assert('0' as u8 == 48);
        if n >= 10 {
            assert((old(text)@ + decimal((n / 10) as nat)).push(digit((n % 10) as int)) == old(text)@
                + decimal((n / 10) as nat).push(digit((n % 10) as int)));
        } else {
            assert(old(text)@.push(digit(n as int)) == old(text)@ + seq![digit(n as int)]);
        }
    }
}

} // verus!
