//! Interrupt pins, interrupt types and the vectors that hold the addresses of
//! the interrupt and reset handlers.
use vstd::prelude::*;

verus! {

/// Address of the low byte of the NMI vector.
pub const NMINTERRUPT_ADDR_LOW: u16 = 0xFFFA;

/// Address of the high byte of the NMI vector.
pub const NMINTERRUPT_ADDR_HIGH: u16 = 0xFFFB;

/// Address of the low byte of the reset vector.
pub const PROGRAM_START_ADDR_LOW: u16 = 0xFFFC;

/// Address of the high byte of the reset vector.
pub const PROGRAM_START_ADDR_HIGH: u16 = 0xFFFD;

/// Address of the low byte of the IRQ/BRK vector.
pub const INTERRUPT_ADDR_LOW: u16 = 0xFFFE;

/// Address of the high byte of the IRQ/BRK vector.
pub const INTERRUPT_ADDR_HIGH: u16 = 0xFFFF;

/// The vectors of the 6502: 16-bit handler addresses stored at fixed
/// locations, low byte first.
#[derive(Clone, Copy, PartialEq, Eq, Structural, Debug)]
pub enum InterruptVector {
    /// Vector for NMI handling (0xFFFA-0xFFFB).
    NonMaskableInterrupt,
    /// Vector for IRQ/BRK handling (0xFFFE-0xFFFF).
    Interrupt,
    /// Reset vector (0xFFFC-0xFFFD).
    ProgramStart,
}

/// Which byte of a vector address to access.
#[derive(Clone, Copy, PartialEq, Eq, Structural, Debug)]
pub enum InterruptVectorAddrBytePos {
    /// The low byte of the vector address (first byte in memory).
    Low,
    /// The high byte of the vector address (second byte in memory).
    High,
}

/// Where the low byte of a vector is stored.
pub open spec fn vector_low_addr(v: InterruptVector) -> u16 {
    match v {
        InterruptVector::NonMaskableInterrupt => 0xFFFA,
        InterruptVector::Interrupt => 0xFFFE,
        InterruptVector::ProgramStart => 0xFFFC,
    }
}

/// Where a byte of a vector is stored: the high byte follows the low one.
pub open spec fn vector_addr(v: InterruptVector, pos: InterruptVectorAddrBytePos) -> u16 {
    match pos {
        InterruptVectorAddrBytePos::Low => vector_low_addr(v),
        InterruptVectorAddrBytePos::High => (vector_low_addr(v) + 1) as u16,
    }
}

impl InterruptVector {
    /// The address where the low byte of this vector is stored (0xFFFA,
    /// 0xFFFC or 0xFFFE).
    pub fn addr_low_byte(&self) -> (r: u16)
        ensures
            r == vector_low_addr(*self),
    {
        match self {
            InterruptVector::NonMaskableInterrupt => NMINTERRUPT_ADDR_LOW,
            InterruptVector::Interrupt => INTERRUPT_ADDR_LOW,
            InterruptVector::ProgramStart => PROGRAM_START_ADDR_LOW,
        }
    }

    /// The address where the high byte of this vector is stored (0xFFFB,
    /// 0xFFFD or 0xFFFF).
    pub fn addr_high_byte(&self) -> (r: u16)
        ensures
            r == vector_addr(*self, InterruptVectorAddrBytePos::High),
    {
        match self {
            InterruptVector::NonMaskableInterrupt => NMINTERRUPT_ADDR_HIGH,
            InterruptVector::Interrupt => INTERRUPT_ADDR_HIGH,
            InterruptVector::ProgramStart => PROGRAM_START_ADDR_HIGH,
        }
    }

    /// The address of the low or the high byte of this vector.
    pub fn addr(&self, byte_pos: InterruptVectorAddrBytePos) -> (r: u16)
        ensures
            r == vector_addr(*self, byte_pos),
    {
        match byte_pos {
            InterruptVectorAddrBytePos::Low => self.addr_low_byte(),
            InterruptVectorAddrBytePos::High => self.addr_high_byte(),
        }
    }
}

} // verus!

verus! {

/// The kinds of interrupt requests.
#[derive(PartialEq, Eq, Clone, Copy, Debug, Structural)]
pub enum InterruptType {
    /// Non-maskable interrupt (NMI), edge-triggered.
    NonMaskableInterrupt,
    /// Interrupt request (IRQ), level-triggered and masked by the I flag.
    Interrupt,
}

/// The interrupt input lines of the CPU.
///
/// The IRQ line is level-sensitive: an IRQ is requested as long as the line is
/// set. The NMI line is edge-sensitive: its rising edge latches a pending NMI,
/// which stays pending until it is taken, whatever the line does meanwhile.
#[derive(Clone, Copy, Debug)]
pub struct Interrupts {
    irq_input: bool,
    nmi_input: bool,
    new_nmi: bool,
}

/// The state of the interrupt lines.
#[derive(Clone, Copy, PartialEq, Eq, Structural, Debug)]
pub struct InterruptLines {
    /// The level of the IRQ line.
    pub irq: bool,
    /// The level of the NMI line.
    pub nmi: bool,
    /// Whether a rising edge of the NMI line was seen and not yet taken.
    pub nmi_pending: bool,
}

impl View for Interrupts {
    type V = InterruptLines;

    closed spec fn view(&self) -> InterruptLines {
        InterruptLines { irq: self.irq_input, nmi: self.nmi_input, nmi_pending: self.new_nmi }
    }
}

impl Default for Interrupts {
    fn default() -> (r: Self)
        ensures
            r@ == (InterruptLines { irq: false, nmi: false, nmi_pending: false }),
    {
        Interrupts { irq_input: false, nmi_input: false, new_nmi: false }
    }
}

/// The lines after a write of `value` to the NMI line: a rising edge makes an
/// NMI pending.
pub open spec fn nmi_written(l: InterruptLines, value: bool) -> InterruptLines {
    InterruptLines { nmi: value, nmi_pending: l.nmi_pending || (value && !l.nmi), ..l }
}

/// The interrupt to service given the one found waiting at the previous
/// cycle, whether an NMI edge is pending, the IRQ line and the I flag: a
/// waiting or pending NMI first, then an IRQ unless masked.
pub open spec fn interrupt_to_service(
    prev: Option<InterruptType>,
    nmi_pending: bool,
    irq: bool,
    irq_disabled: bool,
) -> Option<InterruptType> {
    if nmi_pending || prev == Some(InterruptType::NonMaskableInterrupt) {
        Some(InterruptType::NonMaskableInterrupt)
    } else if irq && !irq_disabled {
        Some(InterruptType::Interrupt)
    } else {
        None
    }
}

/// The calls of `Interrupts` that change the lines.
pub enum LineCall {
    /// `reset`.
    Reset,
    /// `set_irq_input`.
    SetIrq,
    /// `set_irq_input_value`.
    SetIrqValue(bool),
    /// `clear_irq_input`.
    ClearIrq,
    /// `set_nmi_input`.
    SetNmi,
    /// `set_nmi_input_value`.
    SetNmiValue(bool),
    /// `clear_nmi_input`.
    ClearNmi,
    /// `waiting_nmi`.
    TakeNmi,
}

/// The lines after one call.
pub open spec fn line_call_effect(l: InterruptLines, call: LineCall) -> InterruptLines {
    match call {
        LineCall::Reset => InterruptLines { irq: false, nmi: false, nmi_pending: false },
        LineCall::SetIrq => InterruptLines { irq: true, ..l },
        LineCall::SetIrqValue(v) => InterruptLines { irq: v, ..l },
        LineCall::ClearIrq => InterruptLines { irq: false, ..l },
        LineCall::SetNmi => nmi_written(l, true),
        LineCall::SetNmiValue(v) => nmi_written(l, v),
        LineCall::ClearNmi => nmi_written(l, false),
        LineCall::TakeNmi => InterruptLines { nmi_pending: false, ..l },
    }
}

/// The lines after the calls, made one after the other from `l`.
pub open spec fn lines_after(l: InterruptLines, calls: Seq<LineCall>) -> InterruptLines
    decreases calls.len(),
{
    if calls.len() == 0 {
        l
    } else {
        line_call_effect(lines_after(l, calls.drop_last()), calls.last())
    }
}

/// The IRQ level that the last call writing it gave (set: true, cleared or
/// reset: false, a value: that value), or `initial` when no call wrote it.
pub open spec fn last_irq_write(initial: bool, calls: Seq<LineCall>) -> bool
    decreases calls.len(),
{
    if calls.len() == 0 {
        initial
    } else {
        match calls.last() {
            LineCall::Reset => false,
            LineCall::SetIrq => true,
            LineCall::SetIrqValue(v) => v,
            LineCall::ClearIrq => false,
            _ => last_irq_write(initial, calls.drop_last()),
        }
    }
}

impl Interrupts {
    /// Releases both lines and forgets a pending NMI.
    pub fn reset(&mut self)
        ensures
            final(self)@ == (InterruptLines { irq: false, nmi: false, nmi_pending: false }),
            final(self)@ == line_call_effect(old(self)@, LineCall::Reset),
    {
        self.irq_input = false;
        self.nmi_input = false;
        self.new_nmi = false;
    }

    /// Sets the IRQ line.
    pub fn set_irq_input(&mut self)
        ensures
            final(self)@ == (InterruptLines { irq: true, ..old(self)@ }),
            final(self)@ == line_call_effect(old(self)@, LineCall::SetIrq),
    {
        self.irq_input = true;
    }

    /// Sets the IRQ line to `value`.
    pub fn set_irq_input_value(&mut self, value: bool)
        ensures
            final(self)@ == (InterruptLines { irq: value, ..old(self)@ }),
            final(self)@ == line_call_effect(old(self)@, LineCall::SetIrqValue(value)),
    {
        self.irq_input = value;
    }

    /// Releases the IRQ line.
    pub fn clear_irq_input(&mut self)
        ensures
            final(self)@ == (InterruptLines { irq: false, ..old(self)@ }),
            final(self)@ == line_call_effect(old(self)@, LineCall::ClearIrq),
    {
        self.irq_input = false;
    }

    /// Sets the NMI line; when it was released, the rising edge makes an NMI
    /// pending.
    pub fn set_nmi_input(&mut self)
        ensures
            final(self)@ == nmi_written(old(self)@, true),
            final(self)@ == line_call_effect(old(self)@, LineCall::SetNmi),
    {
        if !self.nmi_input {
            self.nmi_input = true;
            self.new_nmi = true;
        }
    }

    /// Sets the NMI line to `value`; a rising edge makes an NMI pending.
    pub fn set_nmi_input_value(&mut self, value: bool)
        ensures
            final(self)@ == nmi_written(old(self)@, value),
            final(self)@ == line_call_effect(old(self)@, LineCall::SetNmiValue(value)),
    {
        if value && !self.nmi_input {
            self.new_nmi = true;
        }
        self.nmi_input = value;
    }

    /// Releases the NMI line; a pending NMI stays pending.
    pub fn clear_nmi_input(&mut self)
        ensures
            final(self)@ == nmi_written(old(self)@, false),
            final(self)@ == line_call_effect(old(self)@, LineCall::ClearNmi),
    {
        self.nmi_input = false;
    }

    /// Whether the IRQ line is set.
    pub fn is_irq_set(&self) -> (r: bool)
        ensures
            r == self@.irq,
    {
        self.irq_input
    }

    /// Whether an NMI is pending; taking it clears it.
    pub fn waiting_nmi(&mut self) -> (r: bool)
        ensures
            r == old(self)@.nmi_pending,
            final(self)@ == (InterruptLines { nmi_pending: false, ..old(self)@ }),
            final(self)@ == line_call_effect(old(self)@, LineCall::TakeNmi),
    {
        let ret = self.new_nmi;
        self.new_nmi = false;
        ret
    }
}

/// Polls the interrupt lines: a pending NMI (which is then taken from the
/// lines) or an NMI found at the previous poll gives an NMI; otherwise a set
/// IRQ line gives an IRQ unless IRQs are disabled.
pub fn waiting_interrupt(
    prev_waiting_interrupt: Option<InterruptType>,
    pins: &mut Interrupts,
    irq_disabled: bool,
) -> (r: Option<InterruptType>)
    ensures
        r == interrupt_to_service(
            prev_waiting_interrupt,
            old(pins)@.nmi_pending,
            old(pins)@.irq,
            irq_disabled,
        ),
        final(pins)@ == (InterruptLines { nmi_pending: false, ..old(pins)@ }),
{
    if pins.waiting_nmi() || (prev_waiting_interrupt == Some(InterruptType::NonMaskableInterrupt)) {
        Some(InterruptType::NonMaskableInterrupt)
    } else if pins.is_irq_set() && !irq_disabled {
        Some(InterruptType::Interrupt)
    } else {
        None
    }
}

} // verus!

verus! {

/// `is_irq_set` reports the value that the last call writing the IRQ line
/// gave it: lines made by `Interrupts::default()` (all released) report
/// `false` until such a call, and the NMI calls and `waiting_nmi` never change
/// it.
pub proof fn lemma_irq_level_is_last_write(l: InterruptLines, calls: Seq<LineCall>)
    ensures
        lines_after(l, calls).irq == last_irq_write(l.irq, calls),
    decreases calls.len(),
{
    if calls.len() > 0 {
        lemma_irq_level_is_last_write(l, calls.drop_last());
    }
}

/// Writing `true` to the NMI line is setting it, writing `false` is releasing
/// it: the line takes the value, an NMI becomes pending exactly on a rising
/// edge, a pending NMI is never cancelled, and the IRQ line is unchanged.
pub proof fn lemma_nmi_line_write(l: InterruptLines, value: bool)
    ensures
        line_call_effect(l, LineCall::SetNmiValue(true)) == line_call_effect(l, LineCall::SetNmi),
        line_call_effect(l, LineCall::SetNmiValue(false)) == line_call_effect(l, LineCall::ClearNmi),
        nmi_written(l, value).nmi == value,
        nmi_written(l, value).irq == l.irq,
        nmi_written(l, value).nmi_pending == (l.nmi_pending || (value && !l.nmi)),
{
}

/// The NMI line is edge-triggered: a rising edge makes an NMI pending,
/// releasing the line keeps it pending, and holding the line set does not
/// request another one.
pub proof fn lemma_nmi_edge_triggered(l: InterruptLines)
    ensures
        !l.nmi ==> nmi_written(l, true).nmi_pending,
        !l.nmi ==> nmi_written(nmi_written(l, true), false).nmi_pending,
        l.nmi ==> nmi_written(l, true).nmi_pending == l.nmi_pending,
        nmi_written(l, false).nmi_pending == l.nmi_pending,
{
}

/// An NMI, pending or found waiting, is serviced before an IRQ; an IRQ is
/// serviced only while its line is set and IRQs are enabled.
pub proof fn lemma_interrupt_priority(
    prev: Option<InterruptType>,
    nmi_pending: bool,
    irq: bool,
    irq_disabled: bool,
)
    ensures
        nmi_pending || prev == Some(InterruptType::NonMaskableInterrupt) ==> interrupt_to_service(
            prev,
            nmi_pending,
            irq,
            irq_disabled,
        ) == Some(InterruptType::NonMaskableInterrupt),
        interrupt_to_service(prev, nmi_pending, irq, irq_disabled) == Some(InterruptType::Interrupt)
            <==> (!nmi_pending && prev != Some(InterruptType::NonMaskableInterrupt) && irq
            && !irq_disabled),
        (irq_disabled || !irq) && !nmi_pending && prev != Some(InterruptType::NonMaskableInterrupt)
            ==> interrupt_to_service(prev, nmi_pending, irq, irq_disabled) is None,
{
}

} // verus!
