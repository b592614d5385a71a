use crate::registers::hex_byte;
use crate::text::{dec_digits, push_chars, push_decimal, push_hex_byte, push_signed, signed_digits};
use vstd::prelude::*;

verus! {

/// A 16-bit register of the 6502 (the program counter, or the internal
/// address register).
///
/// Besides the whole value, the high and low bytes can be read and written
/// separately, as the processor moves addresses one byte per cycle.
#[derive(Clone, Copy, PartialEq, Eq, Structural, Debug)]
pub struct Reg16 {
    value: u16,
}

/// The low byte of a 16-bit value.
pub open spec fn lo_byte(v: u16) -> u8 {
    (v % 256) as u8
}

/// The high byte of a 16-bit value.
pub open spec fn hi_byte(v: u16) -> u8 {
    (v / 256) as u8
}

/// The 16-bit value made of a high and a low byte.
pub open spec fn make_word(hi: u8, lo: u8) -> u16 {
    (hi * 256 + lo) as u16
}

impl View for Reg16 {
    type V = u16;

    closed spec fn view(&self) -> u16 {
        self.value
    }
}

impl Default for Reg16 {
    fn default() -> (r: Self)
        ensures
            r@ == 0,
    {
        Reg16 { value: 0 }
    }
}

impl From<u16> for Reg16 {
    fn from(value: u16) -> (r: Self) {
        Reg16 { value }
    }
}

impl vstd::std_specs::convert::FromSpecImpl<u16> for Reg16 {
    open spec fn obeys_from_spec() -> bool {
        true
    }

    closed spec fn from_spec(v: u16) -> Self {
        Reg16 { value: v }
    }
}

impl From<Reg16> for u16 {
    fn from(value: Reg16) -> (r: Self) {
        value.value
    }
}

impl vstd::std_specs::convert::FromSpecImpl<Reg16> for u16 {
    open spec fn obeys_from_spec() -> bool {
        true
    }

    open spec fn from_spec(v: Reg16) -> Self {
        v@
    }
}

impl From<i16> for Reg16 {
    fn from(value: i16) -> (r: Self) {
        Reg16 { value: value as u16 }
    }
}

impl vstd::std_specs::convert::FromSpecImpl<i16> for Reg16 {
    open spec fn obeys_from_spec() -> bool {
        true
    }

    closed spec fn from_spec(v: i16) -> Self {
        Reg16 { value: v as u16 }
    }
}

impl From<Reg16> for i16 {
    fn from(value: Reg16) -> (r: Self) {
        value.value as i16
    }
}

impl vstd::std_specs::convert::FromSpecImpl<Reg16> for i16 {
    open spec fn obeys_from_spec() -> bool {
        true
    }

    open spec fn from_spec(v: Reg16) -> Self {
        v@ as i16
    }
}

impl Reg16 {
    /// Resets the register value to 0.
    pub fn reset(&mut self)
        ensures
            final(self)@ == 0,
    {
        self.value = 0;
    }

    /// Creates a new register with the specified value.
    pub fn new(value: u16) -> (r: Self)
        ensures
            r@ == value,
    {
        Reg16 { value }
    }

    /// Returns the current value as `u16`.
    pub fn to_u16(self) -> (r: u16)
        ensures
            r == self@,
    {
        self.value
    }

    /// Sets the register value from a `u16`.
    pub fn set_u16(&mut self, value: u16)
        ensures
            final(self)@ == value,
    {
        self.value = value;
    }

    /// Returns the current value as `i16` (two's complement reading).
    pub fn to_i16(self) -> (r: i16)
        ensures
            r == self@ as i16,
    {
        self.value as i16
    }

    /// Sets the register value from an `i16` (two's complement bits).
    pub fn set_i16(&mut self, value: i16)
        ensures
            final(self)@ == value as u16,
    {
        self.value = value as u16;
    }

    /// Returns the low 8 bits of the register.
    pub fn low_u8(&self) -> (r: u8)
        ensures
            r == lo_byte(self@),
    {
        let v = self.value;
        assert((v as u8) == (v % 256) as u8) by (bit_vector);
        v as u8
    }

    /// Replaces the low 8 bits of the register, keeping the high byte.
    pub fn set_low_u8(&mut self, value: u8)
        ensures
            final(self)@ == make_word(hi_byte(old(self)@), value),
    {
        let v = self.value;
        let r: u16 = (v & 0xFF00u16) | (value as u16);
        assert(((v & 0xFF00u16) | (value as u16)) == (((v / 256) as u8) * 256 + value) as u16)
            by (bit_vector);
        self.value = r;
    }

    /// Returns the low 8 bits of the register as `i8`.
    pub fn low_i8(&self) -> (r: i8)
        ensures
            r == lo_byte(self@) as i8,
    {
        let v = self.value;
        assert((v as i8) == ((v % 256) as u8) as i8) by (bit_vector);
        v as i8
    }

    /// Replaces the low 8 bits of the register with the bits of an `i8`.
    pub fn set_low_i8(&mut self, value: i8)
        ensures
            final(self)@ == make_word(hi_byte(old(self)@), value as u8),
    {
        self.set_low_u8(value as u8);
    }

    /// Returns the high 8 bits of the register.
    pub fn high_u8(&self) -> (r: u8)
        ensures
            r == hi_byte(self@),
    {
        let v = self.value;
        assert(((v >> 8u16) as u8) == (v / 256) as u8) by (bit_vector);
        (v >> 8u16) as u8
    }

    /// Replaces the high 8 bits of the register, keeping the low byte.
    pub fn set_high_u8(&mut self, value: u8)
        ensures
            final(self)@ == make_word(value, lo_byte(old(self)@)),
    {
        let v = self.value;
        let r: u16 = (v & 0x00FFu16) | ((value as u16) << 8u16);
        assert(((v & 0x00FFu16) | ((value as u16) << 8u16)) == (value * 256 + ((v % 256) as u8))
            as u16) by (bit_vector);
        self.value = r;
    }

    /// Returns the high 8 bits of the register as `i8`.
    pub fn high_i8(&self) -> (r: i8)
        ensures
            r == hi_byte(self@) as i8,
    {
        let h = self.high_u8();
        h as i8
    }

    /// Replaces the high 8 bits of the register with the bits of an `i8`.
    pub fn set_high_i8(&mut self, value: i8)
        ensures
            final(self)@ == make_word(value as u8, lo_byte(old(self)@)),
    {
        self.set_high_u8(value as u8);
    }

    /// Increments the register value by 1, wrapping from 0xFFFF to 0.
    pub fn inc(&mut self)
        ensures
            final(self)@ == (old(self)@ + 1) % 65536,
    {
        self.value = self.value.wrapping_add(1);
    }

    /// Decrements the register value by 1, wrapping from 0 to 0xFFFF.
    pub fn dec(&mut self)
        ensures
            final(self)@ == (old(self)@ + 65535) % 65536,
    {
        self.value = self.value.wrapping_sub(1);
    }
}

/// The high byte of a word made of a high and a low byte is that high byte.
pub broadcast proof fn lemma_word_hi(hi: u8, lo: u8)
    ensures
        #[trigger] hi_byte(make_word(hi, lo)) == hi,
{
}

/// The low byte of a word made of a high and a low byte is that low byte.
pub broadcast proof fn lemma_word_lo(hi: u8, lo: u8)
    ensures
        #[trigger] lo_byte(make_word(hi, lo)) == lo,
{
}

/// A word is made of its high and its low byte.
pub broadcast proof fn lemma_word_split(v: u16)
    ensures
        #[trigger] make_word(hi_byte(v), lo_byte(v)) == v,
{
}

/// The byte-level view of a 16-bit register.
pub broadcast group group_word_bytes {
    lemma_word_hi,
    lemma_word_lo,
    lemma_word_split,
}

/// Incrementing then decrementing a 16-bit register, or decrementing then
/// incrementing it, gives back its value (both wrap around).
pub proof fn lemma_reg16_inc_dec(v: u16)
    ensures
        ((((v + 1) % 65536) + 65535) % 65536) == v,
        ((((v + 65535) % 65536) + 1) % 65536) == v,
{
}

/// The debug rendering of a 16-bit register: the value in hexadecimal with
/// a `0x` prefix, then unsigned and signed in decimal, as
/// `0x1234 ( 4660, 4660 )`.
pub open spec fn reg16_debug_text(v: u16) -> Seq<char> {
    seq!['0', 'x'] + hex_byte(hi_byte(v)) + hex_byte(lo_byte(v)) + seq![' ', '(', ' ']
        + dec_digits(v as nat) + seq![',', ' '] + signed_digits((v as i16) as int) + seq![' ', ')']
}

/// Appends the debug rendering of a 16-bit register.
pub(crate) fn push_reg16_debug_text(s: &mut String, v: u16)
    ensures
        final(s)@ == old(s)@ + reg16_debug_text(v),
{
    push_chars(s, &['0', 'x']);
    push_hex_byte(s, (v / 256) as u8);
    push_hex_byte(s, (v % 256) as u8);
    push_chars(s, &[' ', '(', ' ']);
    push_decimal(s, v as u128);
    push_chars(s, &[',', ' ']);
    push_signed(s, (v as i16) as i32);
    push_chars(s, &[' ', ')']);
    assert(s@ =~= old(s)@ + reg16_debug_text(v));
}

impl Reg16 {
    /// The debug rendering of the register (see `reg16_debug_text`).
    pub fn debug_text(&self) -> (r: String)
        ensures
            r@ == reg16_debug_text(self@),
    {
        let mut s = String::new();
        push_reg16_debug_text(&mut s, self.value);
        s
    }
}

} // verus!
