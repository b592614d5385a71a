use crate::text::push_chars;
use vstd::prelude::*;

verus! {

/// The bit masks of the flags held in the 6502 status register.
///
/// Masks combine with `|`; a register operation takes such a combination.
pub struct StatusRegFlags;

impl StatusRegFlags {
    /// Carry flag (bit 0): set if an operation produced a carry, or if A >= M in a comparison.
    pub const CARRY: u8 = 0b0000_0001;

    /// Zero flag (bit 1): set if the result of the last operation was zero.
    pub const ZERO: u8 = 0b0000_0010;

    /// Interrupt disable flag (bit 2): when set, the CPU does not respond to IRQs.
    pub const IRQ_DISABLE: u8 = 0b0000_0100;

    /// Decimal mode flag (bit 3).
    pub const DECIMAL: u8 = 0b0000_1000;

    /// Break flag (bit 4): set in the status byte pushed by BRK and PHP.
    pub const BREAK: u8 = 0b0001_0000;

    /// Unused flag (bit 5).
    pub const UNUSED: u8 = 0b0010_0000;

    /// Overflow flag (bit 6): set when a signed result does not fit in 8 bits.
    pub const OVERFLOW: u8 = 0b0100_0000;

    /// Negative flag (bit 7): set if the result had bit 7 set.
    pub const NEGATIVE: u8 = 0b1000_0000;

    /// UNUSED, BREAK and IRQ_DISABLE together.
    pub const STARTUP: u8 = 0b0011_0100;
}

/// The flags `f` are all set in the status byte `s`.
pub open spec fn flags_set(s: u8, f: u8) -> bool {
    s & f == f
}

/// The status byte `s` with the flags `f` set (`v`) or cleared (`!v`).
pub open spec fn with_flags(s: u8, f: u8, v: bool) -> u8 {
    if v {
        s | f
    } else {
        s & !f
    }
}

/// The 6502 processor status register (P).
///
/// It holds the flags that instructions set or test; every bit of the byte is
/// a flag, so any byte is a valid register value.
#[derive(Clone, Copy, PartialEq, Eq, Structural, Debug)]
pub struct StatusReg {
    flags: u8,
}

impl View for StatusReg {
    type V = u8;

    closed spec fn view(&self) -> u8 {
        self.flags
    }
}

impl Default for StatusReg {
    fn default() -> (r: Self)
        ensures
            r@ == 0,
    {
        StatusReg { flags: 0 }
    }
}

impl From<u8> for StatusReg {
    fn from(value: u8) -> (r: Self) {
        StatusReg { flags: value }
    }
}

impl vstd::std_specs::convert::FromSpecImpl<u8> for StatusReg {
    open spec fn obeys_from_spec() -> bool {
        true
    }

    closed spec fn from_spec(v: u8) -> Self {
        StatusReg { flags: v }
    }
}

impl From<StatusReg> for u8 {
    fn from(value: StatusReg) -> (r: Self) {
        value.flags
    }
}

impl vstd::std_specs::convert::FromSpecImpl<StatusReg> for u8 {
    open spec fn obeys_from_spec() -> bool {
        true
    }

    open spec fn from_spec(v: StatusReg) -> Self {
        v@
    }
}

impl StatusReg {
    /// Resets the register to its state after a processor reset: UNUSED and
    /// IRQ_DISABLE set (0x24).
    pub fn reset(&mut self)
        ensures
            final(self)@ == 0x24,
    {
        self.flags = 0x24;
    }

    /// The register value as a byte.
    pub fn to_u8(self) -> (r: u8)
        ensures
            r == self@,
    {
        self.flags
    }

    /// Sets the register from a raw byte; every byte is accepted.
    pub fn set_u8(&mut self, value: u8)
        ensures
            final(self)@ == value,
    {
        self.flags = value;
    }

    /// Sets the given flags, leaving the others as they are.
    pub fn set_flags(&mut self, flags_to_set: u8)
        ensures
            final(self)@ == old(self)@ | flags_to_set,
    {
        self.flags = self.flags | flags_to_set;
    }

    /// Clears the given flags, leaving the others as they are.
    pub fn clear_flags(&mut self, flags_to_clear: u8)
        ensures
            final(self)@ == old(self)@ & !flags_to_clear,
    {
        self.flags = self.flags & !flags_to_clear;
    }

    /// Sets the given flags if `value` is true, clears them otherwise.
    pub fn update_flags(&mut self, flags_to_update: u8, value: bool)
        ensures
            final(self)@ == with_flags(old(self)@, flags_to_update, value),
    {
        if value {
            self.set_flags(flags_to_update);
        } else {
            self.clear_flags(flags_to_update);
        }
    }

    /// Whether all the given flags are set.
    pub fn are_all_flags_set(&self, flags_to_check: u8) -> (r: bool)
        ensures
            r == flags_set(self@, flags_to_check),
    {
        self.flags & flags_to_check == flags_to_check
    }

    /// Whether at least one of the given flags is set.
    pub fn are_any_flags_set(&self, flags_to_check: u8) -> (r: bool)
        ensures
            r == (self@ & flags_to_check != 0),
    {
        self.flags & flags_to_check != 0
    }

    /// Whether the negative flag (N) is set.
    pub fn negative(&self) -> (r: bool)
        ensures
            r == flags_set(self@, StatusRegFlags::NEGATIVE),
    {
        self.are_all_flags_set(StatusRegFlags::NEGATIVE)
    }

    /// Whether the carry flag (C) is set.
    pub fn carry(&self) -> (r: bool)
        ensures
            r == flags_set(self@, StatusRegFlags::CARRY),
    {
        self.are_all_flags_set(StatusRegFlags::CARRY)
    }

    /// Whether the zero flag (Z) is set.
    pub fn zero(&self) -> (r: bool)
        ensures
            r == flags_set(self@, StatusRegFlags::ZERO),
    {
        self.are_all_flags_set(StatusRegFlags::ZERO)
    }

    /// Whether the overflow flag (V) is set.
    pub fn overflow(&self) -> (r: bool)
        ensures
            r == flags_set(self@, StatusRegFlags::OVERFLOW),
    {
        self.are_all_flags_set(StatusRegFlags::OVERFLOW)
    }

    /// Whether the interrupt disable flag (I) is set.
    pub fn irq_disable(&self) -> (r: bool)
        ensures
            r == flags_set(self@, StatusRegFlags::IRQ_DISABLE),
    {
        self.are_all_flags_set(StatusRegFlags::IRQ_DISABLE)
    }
}

/// After setting flags they are all set; after clearing them none is set;
/// the other flags are unchanged either way.
pub proof fn lemma_set_clear_flags(s: u8, f: u8)
    ensures
        flags_set(with_flags(s, f, true), f),
        with_flags(s, f, false) & f == 0,
        forall|g: u8| g & f == 0 ==> (with_flags(s, f, true) & g) == (s & g),
        forall|g: u8| g & f == 0 ==> (with_flags(s, f, false) & g) == (s & g),
{
    assert((s | f) & f == f) by (bit_vector);
    assert((s & !f) & f == 0) by (bit_vector);
    assert(forall|g: u8| g & f == 0 ==> ((s | f) & g) == (s & g)) by (bit_vector);
    assert(forall|g: u8| g & f == 0 ==> ((s & !f) & g) == (s & g)) by (bit_vector);
}

/// `'1'` when the flags `f` are set in `s`, `'0'` otherwise.
pub open spec fn flag_digit(s: u8, f: u8) -> char {
    if flags_set(s, f) {
        '1'
    } else {
        '0'
    }
}

/// One entry of the debug rendering of the status register: the flag's
/// letter, a colon, 0 or 1, and three spaces.
pub open spec fn flag_entry(s: u8, letter: char, f: u8) -> Seq<char> {
    seq![letter, ':', ' ', flag_digit(s, f), ' ', ' ', ' ']
}

/// The debug rendering of the status register: every flag from bit 7 to
/// bit 0 (N, V, unused, B, D, I, Z, C) as `n: 1   v: 0   ...`.
pub open spec fn status_debug_text(s: u8) -> Seq<char> {
    flag_entry(s, 'n', StatusRegFlags::NEGATIVE) + flag_entry(s, 'v', StatusRegFlags::OVERFLOW)
        + flag_entry(s, '-', StatusRegFlags::UNUSED) + flag_entry(s, 'b', StatusRegFlags::BREAK)
        + flag_entry(s, 'd', StatusRegFlags::DECIMAL) + flag_entry(
        s,
        'i',
        StatusRegFlags::IRQ_DISABLE,
    ) + flag_entry(s, 'z', StatusRegFlags::ZERO) + flag_entry(s, 'c', StatusRegFlags::CARRY)
}

/// Appends one entry of the debug rendering of the status register.
fn push_flag_entry(t: &mut String, s: &StatusReg, letter: char, f: u8)
    ensures
        final(t)@ == old(t)@ + flag_entry(s@, letter, f),
{
    let digit = if s.are_all_flags_set(f) {
        '1'
    } else {
        '0'
    };
    push_chars(t, &[letter, ':', ' ', digit, ' ', ' ', ' ']);
}

/// Appends the debug rendering of the status register.
pub(crate) fn push_status_debug_text(t: &mut String, s: &StatusReg)
    ensures
        final(t)@ == old(t)@ + status_debug_text(s@),
{
    push_flag_entry(t, s, 'n', StatusRegFlags::NEGATIVE);
    push_flag_entry(t, s, 'v', StatusRegFlags::OVERFLOW);
    push_flag_entry(t, s, '-', StatusRegFlags::UNUSED);
    push_flag_entry(t, s, 'b', StatusRegFlags::BREAK);
    push_flag_entry(t, s, 'd', StatusRegFlags::DECIMAL);
    push_flag_entry(t, s, 'i', StatusRegFlags::IRQ_DISABLE);
    push_flag_entry(t, s, 'z', StatusRegFlags::ZERO);
    push_flag_entry(t, s, 'c', StatusRegFlags::CARRY);
    assert(t@ =~= old(t)@ + status_debug_text(s@));
}

impl StatusReg {
    /// The debug rendering of the register (see `status_debug_text`).
    pub fn debug_text(&self) -> (r: String)
        ensures
            r@ == status_debug_text(self@),
    {
        let mut t = String::new();
        push_status_debug_text(&mut t, self);
        t
    }
}

} // verus!
