//! Text renderings of register values: decimal and hexadecimal numbers
//! appended to a `String`.
use crate::registers::{hex_byte, hex_digit};
use vstd::prelude::*;

verus! {

/// Appends `c` to `s` through `String::push` of std, which appends the given
/// character to the end of the string.
#[verifier::external_body]
pub(crate) fn string_push(s: &mut String, c: char)
    ensures
        final(s)@ == old(s)@.push(c),
{
    s.push(c);
}

/// The decimal digit of a value below 10.
pub open spec fn dec_digit(v: nat) -> char {
    ((('0' as u8) + v) as u8) as char
}

/// The decimal digits of `n`, without leading zeros ("0" for zero).
pub open spec fn dec_digits(n: nat) -> Seq<char>
    decreases n,
{
    if n < 10 {
        seq![dec_digit(n)]
    } else {
        dec_digits(n / 10).push(dec_digit(n % 10))
    }
}

/// Decimal digits are ASCII.
pub(crate) proof fn lemma_dec_digits_ascii(n: nat)
    ensures
        forall|i: int| 0 <= i < dec_digits(n).len() ==> (#[trigger] dec_digits(n)[i] as u32) < 128,
    decreases n,
{
    assert forall|v: nat| v < 10 implies (#[trigger] dec_digit(v) as u32) < 128 by {
        assert((('0' as u8) + v) as u8 == 48 + v);
    }
    if n >= 10 {
        lemma_dec_digits_ascii(n / 10);
        assert(dec_digits(n) == dec_digits(n / 10).push(dec_digit(n % 10)));
    }
}

/// The decimal rendering of a signed value: a minus sign for a negative one.
pub open spec fn signed_digits(v: int) -> Seq<char> {
    if v < 0 {
        seq!['-'] + dec_digits((-v) as nat)
    } else {
        dec_digits(v as nat)
    }
}

/// Appends the characters of `t`.
pub(crate) fn push_chars(s: &mut String, t: &[char])
    ensures
        final(s)@ == old(s)@ + t@,
{
    let mut i: usize = 0;
    while i < t.len()
        invariant
            i <= t@.len(),
            s@ == old(s)@ + t@.take(i as int),
        decreases t@.len() - i,
    {
        string_push(s, t[i]);
        assert(t@.take(i + 1) =~= t@.take(i as int).push(t@[i as int]));
        i += 1;
    }
    assert(t@.take(t@.len() as int) =~= t@);
}

/// Appends the decimal digits of `n`.
pub(crate) fn push_decimal(s: &mut String, n: u128)
    ensures
        final(s)@ == old(s)@ + dec_digits(n as nat),
    decreases n,
{
    if n >= 10 {
        push_decimal(s, n / 10);
    }
    let d = (n % 10) as u8;
    string_push(s, (48u8 + d) as char);
    proof {
        assert(((48u8 + d) as char) == dec_digit((n % 10) as nat));
        if n >= 10 {
            assert(old(s)@ + dec_digits(n as nat) =~= (old(s)@ + dec_digits((n / 10) as nat)).push(
                dec_digit((n % 10) as nat),
            ));
        } else {
            assert(old(s)@ + dec_digits(n as nat) =~= old(s)@.push(dec_digit(n as nat)));
        }
    }
}

/// Appends the decimal rendering of the signed value `v`.
pub(crate) fn push_signed(s: &mut String, v: i32)
    requires
        v > i32::MIN,
    ensures
        final(s)@ == old(s)@ + signed_digits(v as int),
{
    if v < 0 {
        string_push(s, '-');
        push_decimal(s, (-v) as u128);
        assert(old(s)@ + signed_digits(v as int) =~= old(s)@.push('-') + dec_digits((-v) as nat));
    } else {
        push_decimal(s, v as u128);
    }
}

/// The upper-case hexadecimal digit of a value below 16.
pub(crate) fn hex_char(v: u8) -> (c: char)
    requires
        v < 16,
    ensures
        c == hex_digit(v),
{
    if v < 10 {
        (48u8 + v) as char
    } else {
        (55u8 + v) as char
    }
}

/// Appends two upper-case hexadecimal digits of `v`.
pub(crate) fn push_hex_byte(s: &mut String, v: u8)
    ensures
        final(s)@ == old(s)@ + hex_byte(v),
{
    string_push(s, hex_char(v / 16));
    string_push(s, hex_char(v % 16));
    assert(s@ =~= old(s)@ + hex_byte(v));
}

} // verus!
