use crate::registers::hex_byte;
use crate::text::{dec_digits, push_chars, push_decimal, push_hex_byte, push_signed, signed_digits};
use vstd::prelude::*;

verus! {

/// An 8-bit register of the 6502.
///
/// The register holds a byte that instructions read either as an unsigned
/// (`u8`) or a two's complement (`i8`) value. Increments, decrements and
/// shifts wrap around at the 8-bit boundary, as on the processor.
#[derive(Clone, Copy, PartialEq, Eq, Structural, Debug)]
pub struct Reg8 {
    value: u8,
}

impl View for Reg8 {
    type V = u8;

    closed spec fn view(&self) -> u8 {
        self.value
    }
}

impl Default for Reg8 {
    fn default() -> (r: Self)
        ensures
            r@ == 0,
    {
        Reg8 { value: 0 }
    }
}

impl From<u8> for Reg8 {
    fn from(value: u8) -> (r: Self) {
        Reg8 { value }
    }
}

impl vstd::std_specs::convert::FromSpecImpl<u8> for Reg8 {
    open spec fn obeys_from_spec() -> bool {
        true
    }

    closed spec fn from_spec(v: u8) -> Self {
        Reg8 { value: v }
    }
}

impl From<i8> for Reg8 {
    fn from(value: i8) -> (r: Self) {
        Reg8 { value: value as u8 }
    }
}

impl vstd::std_specs::convert::FromSpecImpl<i8> for Reg8 {
    open spec fn obeys_from_spec() -> bool {
        true
    }

    closed spec fn from_spec(v: i8) -> Self {
        Reg8 { value: v as u8 }
    }
}

impl From<Reg8> for u8 {
    fn from(value: Reg8) -> (r: Self) {
        value.value
    }
}

impl vstd::std_specs::convert::FromSpecImpl<Reg8> for u8 {
    open spec fn obeys_from_spec() -> bool {
        true
    }

    open spec fn from_spec(v: Reg8) -> Self {
        v@
    }
}

impl From<Reg8> for i8 {
    fn from(value: Reg8) -> (r: Self) {
        value.value as i8
    }
}

impl vstd::std_specs::convert::FromSpecImpl<Reg8> for i8 {
    open spec fn obeys_from_spec() -> bool {
        true
    }

    open spec fn from_spec(v: Reg8) -> Self {
        v@ as i8
    }
}

impl Reg8 {
    /// Resets the register value to zero.
    pub fn reset(&mut self)
        ensures
            final(self)@ == 0,
    {
        self.value = 0;
    }

    /// Creates a new register with the specified value.
    pub fn new(value: u8) -> (r: Self)
        ensures
            r@ == value,
    {
        Reg8 { value }
    }

    /// Retrieves the register value as an unsigned 8-bit integer.
    pub fn to_u8(self) -> (r: u8)
        ensures
            r == self@,
    {
        self.value
    }

    /// Sets the register value from an unsigned 8-bit integer.
    pub fn set_u8(&mut self, value: u8)
        ensures
            final(self)@ == value,
    {
        self.value = value;
    }

    /// Retrieves the register value as a signed 8-bit integer.
    pub fn to_i8(self) -> (r: i8)
        ensures
            r == self@ as i8,
    {
        self.value as i8
    }

    /// Sets the register value from a signed 8-bit integer.
    pub fn set_i8(&mut self, value: i8)
        ensures
            final(self)@ == value as u8,
    {
        self.value = value as u8;
    }

    /// Increments the register value by one, wrapping from 0xFF to 0x00.
    pub fn inc(&mut self)
        ensures
            final(self)@ == (old(self)@ + 1) % 256,
    {
        self.value = self.value.wrapping_add(1);
    }

    /// Decrements the register value by one, wrapping from 0x00 to 0xFF.
    pub fn dec(&mut self)
        ensures
            final(self)@ == (old(self)@ + 255) % 256,
    {
        self.value = self.value.wrapping_sub(1);
    }

    /// Shifts the value one bit to the left: bit 0 becomes 0 and bit 7 is lost.
    pub fn shift_left(&mut self)
        ensures
            final(self)@ == (old(self)@ * 2) % 256,
    {
        let v = self.value;
        assert(((v << 1u8) as u8) == (v * 2) % 256) by (bit_vector);
        self.value = v << 1u8;
    }

    /// Shifts the value one bit to the right: bit 7 becomes 0 and bit 0 is lost.
    pub fn shift_right(&mut self)
        ensures
            final(self)@ == old(self)@ / 2,
    {
        let v = self.value;
        assert((v >> 1u8) == v / 2) by (bit_vector);
        self.value = v >> 1u8;
    }
}

/// Incrementing then decrementing a register, or decrementing then
/// incrementing it, gives back its value (both wrap around).
pub proof fn lemma_reg8_inc_dec(v: u8)
    ensures
        ((((v + 1) % 256) + 255) % 256) == v,
        ((((v + 255) % 256) + 1) % 256) == v,
{
}

/// The debug rendering of a byte register: the value in hexadecimal with
/// a `0x` prefix, then unsigned and signed in decimal, as `0x0F ( 15, 15 )`.
pub open spec fn reg8_debug_text(v: u8) -> Seq<char> {
    seq!['0', 'x'] + hex_byte(v) + seq![' ', '(', ' '] + dec_digits(v as nat) + seq![','
        , ' '] + signed_digits((v as i8) as int) + seq![' ', ')']
}

/// Appends the debug rendering of a byte register.
pub(crate) fn push_reg8_debug_text(s: &mut String, v: u8)
    ensures
        final(s)@ == old(s)@ + reg8_debug_text(v),
{
    push_chars(s, &['0', 'x']);
    push_hex_byte(s, v);
    push_chars(s, &[' ', '(', ' ']);
    push_decimal(s, v as u128);
    push_chars(s, &[',', ' ']);
    push_signed(s, (v as i8) as i32);
    push_chars(s, &[' ', ')']);
    assert(s@ =~= old(s)@ + reg8_debug_text(v));
}

impl Reg8 {
    /// The debug rendering of the register (see `reg8_debug_text`).
    pub fn debug_text(&self) -> (r: String)
        ensures
            r@ == reg8_debug_text(self@),
    {
        let mut s = String::new();
        push_reg8_debug_text(&mut s, self.value);
        s
    }
}

} // verus!
