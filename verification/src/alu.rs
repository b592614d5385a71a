//! Arithmetic Logic Unit of the 6502.
//!
//! Each function performs one operation of the instruction set on registers
//! and updates the processor status flags (carry, overflow, zero and negative)
//! as the 6502 does. Arithmetic is binary: the decimal flag is not consulted.
use crate::registers::{flags_set, with_flags, Reg8, StatusReg, StatusRegFlags};
use vstd::prelude::*;

verus! {

/// Two's complement reading of a byte.
pub open spec fn signed(v: u8) -> int {
    if v < 128 {
        v as int
    } else {
        v - 256
    }
}

/// 1 when the carry flag is set in the status byte `s`, 0 otherwise.
pub open spec fn carry_in(s: u8) -> int {
    if flags_set(s, StatusRegFlags::CARRY) {
        1
    } else {
        0
    }
}

/// A value does not fit in a signed byte.
pub open spec fn signed_overflow(v: int) -> bool {
    v < -128 || v > 127
}

/// Status byte `s` with N and Z set from the result `r`.
pub open spec fn nz_status(s: u8, r: u8) -> u8 {
    with_flags(with_flags(s, StatusRegFlags::NEGATIVE, r >= 128), StatusRegFlags::ZERO, r == 0)
}

/// ADC result: `a + m + C` modulo 256.
pub open spec fn adc_value(a: u8, m: u8, s: u8) -> u8 {
    ((a + m + carry_in(s)) % 256) as u8
}

/// ADC flags: V from the signed sum, C from the unsigned sum, N and Z from the result.
pub open spec fn adc_status(a: u8, m: u8, s: u8) -> u8 {
    nz_status(
        with_flags(
            with_flags(
                s,
                StatusRegFlags::OVERFLOW,
                signed_overflow(signed(a) + signed(m) + carry_in(s)),
            ),
            StatusRegFlags::CARRY,
            a + m + carry_in(s) > 255,
        ),
        adc_value(a, m, s),
    )
}

/// SBC result: `a - m - (1 - C)` modulo 256.
pub open spec fn sbc_value(a: u8, m: u8, s: u8) -> u8 {
    ((a - m - (1 - carry_in(s)) + 256) % 256) as u8
}

/// SBC flags: V from the signed difference, C set when no borrow occurred,
/// N and Z from the result.
pub open spec fn sbc_status(a: u8, m: u8, s: u8) -> u8 {
    nz_status(
        with_flags(
            with_flags(
                s,
                StatusRegFlags::OVERFLOW,
                signed_overflow(signed(a) - signed(m) - (1 - carry_in(s))),
            ),
            StatusRegFlags::CARRY,
            a - m - (1 - carry_in(s)) >= 0,
        ),
        sbc_value(a, m, s),
    )
}

/// `a - m` modulo 256.
pub open spec fn wrapping_diff(a: u8, m: u8) -> u8 {
    ((a - m + 256) % 256) as u8
}

/// Compare flags: C set when `a >= m`, N and Z from `a - m`.
pub open spec fn cmp_status(a: u8, m: u8, s: u8) -> u8 {
    nz_status(with_flags(s, StatusRegFlags::CARRY, a >= m), wrapping_diff(a, m))
}

/// Shift left (ASL) result.
pub open spec fn asl_value(v: u8) -> u8 {
    ((v * 2) % 256) as u8
}

/// Shift right (LSR) result.
pub open spec fn lsr_value(v: u8) -> u8 {
    (v / 2) as u8
}

/// Rotate left through carry (ROL) result.
pub open spec fn rol_value(v: u8, s: u8) -> u8 {
    ((v * 2 + carry_in(s)) % 256) as u8
}

/// Rotate right through carry (ROR) result.
pub open spec fn ror_value(v: u8, s: u8) -> u8 {
    (v / 2 + 128 * carry_in(s)) as u8
}

/// Flags after a shift or rotate: N and Z from the result, C from the bit shifted out.
pub open spec fn shift_status(s: u8, r: u8, carry_out: bool) -> u8 {
    with_flags(nz_status(s, r), StatusRegFlags::CARRY, carry_out)
}

/// BIT flags: Z from `a & m`, N from bit 7 of `m`, V from bit 6 of `m`.
pub open spec fn bit_status(a: u8, m: u8, s: u8) -> u8 {
    with_flags(
        with_flags(with_flags(s, StatusRegFlags::ZERO, a & m == 0), StatusRegFlags::NEGATIVE, m >= 128),
        StatusRegFlags::OVERFLOW,
        m & 0x40 != 0,
    )
}

proof fn lemma_i8_sign(r: i8)
    ensures
        (r < 0) == ((r as u8) >= 128),
        (r == 0) == ((r as u8) == 0),
{
    assert((r < 0) == ((r as u8) >= 128)) by (bit_vector);
    assert((r == 0) == ((r as u8) == 0)) by (bit_vector);
}

proof fn lemma_u8_as_i8(v: u8)
    ensures
        (v as i8) as u8 == v,
        (v as i8) as int == signed(v),
{
    assert((v as i8) as u8 == v) by (bit_vector);
    assert(v < 128 ==> (v as i8) as i16 == v as i16) by (bit_vector);
    assert(v >= 128 ==> (v as i8) as i16 == (v as i16) - 256) by (bit_vector);
}

/// Updates the Negative and Zero flags from an operation result.
///
/// N is set when `result` is negative (bit 7 set), Z when it is zero.
pub fn update_status_nz(result: i8, status_register: &mut StatusReg)
    ensures
        final(status_register)@ == nz_status(old(status_register)@, result as u8),
{
    proof {
        lemma_i8_sign(result);
    }
    if result < 0 {
        status_register.set_flags(StatusRegFlags::NEGATIVE);
        status_register.clear_flags(StatusRegFlags::ZERO);
    } else {
        status_register.clear_flags(StatusRegFlags::NEGATIVE);
        status_register.update_flags(StatusRegFlags::ZERO, result == 0);
    }
}

/// Updates the Carry flag after an addition: set if `carry` is true.
pub fn update_status_carry_add(carry: bool, status_register: &mut StatusReg)
    ensures
        final(status_register)@ == with_flags(old(status_register)@, StatusRegFlags::CARRY, carry),
{
    status_register.update_flags(StatusRegFlags::CARRY, carry);
}

/// Updates the Carry flag after a subtraction: the 6502 sets it when no
/// borrow occurred (`carry` false) and clears it on a borrow.
pub fn update_status_carry_sub(carry: bool, status_register: &mut StatusReg)
    ensures
        final(status_register)@ == with_flags(old(status_register)@, StatusRegFlags::CARRY, !carry),
{
    status_register.update_flags(StatusRegFlags::CARRY, !carry);
}

/// Updates the Overflow flag: set if `overflow` is true.
pub fn update_status_v(overflow: bool, status_register: &mut StatusReg)
    ensures
        final(status_register)@ == with_flags(
            old(status_register)@,
            StatusRegFlags::OVERFLOW,
            overflow,
        ),
{
    status_register.update_flags(StatusRegFlags::OVERFLOW, overflow);
}

/// Addition with carry (ADC): `A + M + C` into the accumulator, updating N,
/// Z, C and V.
pub fn add(accumulator: &mut Reg8, operand: &Reg8, status_register: &mut StatusReg)
    ensures
        final(accumulator)@ == adc_value(old(accumulator)@, operand@, old(status_register)@),
        final(status_register)@ == adc_status(
            old(accumulator)@,
            operand@,
            old(status_register)@,
        ),
{
    let a = accumulator.to_u8();
    let m = operand.to_u8();
    let c: u8 = if status_register.carry() {
        1
    } else {
        0
    };
    let sum: u16 = a as u16 + m as u16 + c as u16;
    let result: u8 = (sum % 256) as u8;
    let carry = sum > 255;
    proof {
        lemma_u8_as_i8(a);
        lemma_u8_as_i8(m);
    }
    let ssum: i16 = a as i8 as i16 + m as i8 as i16 + c as i16;
    let overflow = ssum < -128 || ssum > 127;

    update_status_v(overflow, status_register);
    update_status_carry_add(carry, status_register);
    proof {
        lemma_u8_as_i8(result);
    }
    update_status_nz(result as i8, status_register);

    accumulator.set_u8(result);
}

/// Comparison (CMP, CPX, CPY): computes `register - M` and only updates the
/// flags: Z if equal, C if `register >= M`, N from the difference.
pub fn cmp(accumulator: &Reg8, operand: &Reg8, status_register: &mut StatusReg)
    ensures
        final(status_register)@ == cmp_status(accumulator@, operand@, old(status_register)@),
{
    let a = accumulator.to_u8();
    let m = operand.to_u8();
    let result: u8 = a.wrapping_sub(m);
    let borrow = a < m;

    update_status_carry_sub(borrow, status_register);
    update_status_nz_byte(result, status_register);
}

/// N and Z from a result byte.
pub(crate) fn update_status_nz_byte(result: u8, status_register: &mut StatusReg)
    ensures
        final(status_register)@ == nz_status(old(status_register)@, result),
{
    proof {
        lemma_u8_as_i8(result);
    }
    update_status_nz(result as i8, status_register);
}

/// Subtraction with borrow (SBC): `A - M - (1 - C)` into the accumulator,
/// updating N, Z, C (set when no borrow occurred) and V.
pub fn sub(accumulator: &mut Reg8, operand: &Reg8, status_register: &mut StatusReg)
    ensures
        final(accumulator)@ == sbc_value(old(accumulator)@, operand@, old(status_register)@),
        final(status_register)@ == sbc_status(
            old(accumulator)@,
            operand@,
            old(status_register)@,
        ),
{
    let a = accumulator.to_u8();
    let m = operand.to_u8();
    let b: u8 = if status_register.carry() {
        0
    } else {
        1
    };
    let diff: i16 = a as i16 - m as i16 - b as i16;
    let result: u8 = ((diff + 256) % 256) as u8;
    let borrow = diff < 0;
    proof {
        lemma_u8_as_i8(a);
        lemma_u8_as_i8(m);
    }
    let sdiff: i16 = a as i8 as i16 - m as i8 as i16 - b as i16;
    let overflow = sdiff < -128 || sdiff > 127;

    update_status_v(overflow, status_register);
    update_status_carry_sub(borrow, status_register);
    proof {
        lemma_u8_as_i8(result);
    }
    update_status_nz(result as i8, status_register);

    accumulator.set_u8(result);
}

/// Increment (INC, INX, INY): adds one with wrap-around, updating N and Z.
pub fn inc(src_dst: &mut Reg8, status_register: &mut StatusReg)
    ensures
        final(src_dst)@ == (old(src_dst)@ + 1) % 256,
        final(status_register)@ == nz_status(
            old(status_register)@,
            ((old(src_dst)@ + 1) % 256) as u8,
        ),
{
    let result = src_dst.to_u8().wrapping_add(1);
    proof {
        lemma_u8_as_i8(result);
    }
    update_status_nz(result as i8, status_register);

    src_dst.set_u8(result);
}

/// Decrement (DEC, DEX, DEY): subtracts one with wrap-around, updating N and Z.
pub fn dec(src_dst: &mut Reg8, status_register: &mut StatusReg)
    ensures
        final(src_dst)@ == (old(src_dst)@ + 255) % 256,
        final(status_register)@ == nz_status(
            old(status_register)@,
            ((old(src_dst)@ + 255) % 256) as u8,
        ),
{
    let result = src_dst.to_u8().wrapping_sub(1);
    proof {
        lemma_u8_as_i8(result);
    }
    update_status_nz(result as i8, status_register);

    src_dst.set_u8(result);
}

/// Shift left (ASL): bit 0 becomes 0, the old bit 7 goes to C; N and Z from the result.
pub fn shift_left(src_dst: &mut Reg8, status_register: &mut StatusReg)
    ensures
        final(src_dst)@ == asl_value(old(src_dst)@),
        final(status_register)@ == shift_status(
            old(status_register)@,
            asl_value(old(src_dst)@),
            old(src_dst)@ >= 128,
        ),
{
    let v = src_dst.to_u8();
    let msb = v & 0x80;
    assert((v & 0x80 != 0) == (v >= 128)) by (bit_vector);
    src_dst.shift_left();

    proof {
        lemma_u8_as_i8(src_dst@);
    }
    update_status_nz(src_dst.to_i8(), status_register);
    status_register.update_flags(StatusRegFlags::CARRY, msb != 0);
}

/// Shift right (LSR): bit 7 becomes 0, the old bit 0 goes to C; N and Z from the result.
pub fn shift_right(src_dst: &mut Reg8, status_register: &mut StatusReg)
    ensures
        final(src_dst)@ == lsr_value(old(src_dst)@),
        final(status_register)@ == shift_status(
            old(status_register)@,
            lsr_value(old(src_dst)@),
            old(src_dst)@ % 2 == 1,
        ),
{
    let v = src_dst.to_u8();
    let lsb = v & 0x01;
    assert((v & 0x01 != 0) == (v % 2 == 1)) by (bit_vector);
    src_dst.shift_right();

    proof {
        lemma_u8_as_i8(src_dst@);
    }
    update_status_nz(src_dst.to_i8(), status_register);
    status_register.update_flags(StatusRegFlags::CARRY, lsb != 0);
}

/// Rotate left through carry (ROL): the old C enters bit 0, the old bit 7 goes to C.
pub fn rotate_left(src_dst: &mut Reg8, status_register: &mut StatusReg)
    ensures
        final(src_dst)@ == rol_value(old(src_dst)@, old(status_register)@),
        final(status_register)@ == shift_status(
            old(status_register)@,
            rol_value(old(src_dst)@, old(status_register)@),
            old(src_dst)@ >= 128,
        ),
{
    let old_carry_bit_set = status_register.carry();

    let v = src_dst.to_u8();
    let msb = v & 0x80;
    assert((v & 0x80 != 0) == (v >= 128)) by (bit_vector);
    src_dst.shift_left();

    if old_carry_bit_set {
        src_dst.inc();
    }
    proof {
        lemma_u8_as_i8(src_dst@);
    }
    update_status_nz(src_dst.to_i8(), status_register);
    status_register.update_flags(StatusRegFlags::CARRY, msb != 0);
}

/// Rotate right through carry (ROR): the old C enters bit 7, the old bit 0 goes to C.
pub fn rotate_right(src_dst: &mut Reg8, status_register: &mut StatusReg)
    ensures
        final(src_dst)@ == ror_value(old(src_dst)@, old(status_register)@),
        final(status_register)@ == shift_status(
            old(status_register)@,
            ror_value(old(src_dst)@, old(status_register)@),
            old(src_dst)@ % 2 == 1,
        ),
{
    let old_carry_bit_set = status_register.carry();

    let v = src_dst.to_u8();
    let lsb = v & 0x01;
    assert((v & 0x01 != 0) == (v % 2 == 1)) by (bit_vector);
    src_dst.shift_right();

    if old_carry_bit_set {
        let h = src_dst.to_u8();
        assert(h < 128 ==> (h | 0x80) == h + 128) by (bit_vector);
        let result = h | 0x80;
        src_dst.set_u8(result);
    }
    proof {
        lemma_u8_as_i8(src_dst@);
    }
    update_status_nz(src_dst.to_i8(), status_register);
    status_register.update_flags(StatusRegFlags::CARRY, lsb != 0);
}

/// Logical AND (AND): `A & M` into the accumulator; N and Z from the result.
pub fn and(accumulator: &mut Reg8, operand: &Reg8, status_register: &mut StatusReg)
    ensures
        final(accumulator)@ == old(accumulator)@ & operand@,
        final(status_register)@ == nz_status(
            old(status_register)@,
            old(accumulator)@ & operand@,
        ),
{
    let result = accumulator.to_u8() & operand.to_u8();
    proof {
        lemma_u8_as_i8(result);
    }
    update_status_nz(result as i8, status_register);

    accumulator.set_u8(result);
}

/// Logical OR (ORA): `A | M` into the accumulator; N and Z from the result.
pub fn or(accumulator: &mut Reg8, operand: &Reg8, status_register: &mut StatusReg)
    ensures
        final(accumulator)@ == old(accumulator)@ | operand@,
        final(status_register)@ == nz_status(
            old(status_register)@,
            old(accumulator)@ | operand@,
        ),
{
    let result = accumulator.to_u8() | operand.to_u8();
    proof {
        lemma_u8_as_i8(result);
    }
    update_status_nz(result as i8, status_register);

    accumulator.set_u8(result);
}

/// Exclusive OR (EOR): `A ^ M` into the accumulator; N and Z from the result.
pub fn xor(accumulator: &mut Reg8, operand: &Reg8, status_register: &mut StatusReg)
    ensures
        final(accumulator)@ == old(accumulator)@ ^ operand@,
        final(status_register)@ == nz_status(
            old(status_register)@,
            old(accumulator)@ ^ operand@,
        ),
{
    let result = accumulator.to_u8() ^ operand.to_u8();
    proof {
        lemma_u8_as_i8(result);
    }
    update_status_nz(result as i8, status_register);

    accumulator.set_u8(result);
}

/// Bit test (BIT): Z is set when `A & M` is zero, bit 7 of M is copied to N
/// and bit 6 of M to V; the accumulator is unchanged.
pub fn bit_compare(accumulator: Reg8, operand: Reg8, status_register: &mut StatusReg)
    ensures
        final(status_register)@ == bit_status(accumulator@, operand@, old(status_register)@),
{
    let a = accumulator.to_u8();
    let m = operand.to_u8();
    let and = a & m;
    status_register.update_flags(StatusRegFlags::ZERO, and == 0);
    assert((m & 0x80 != 0) == (m >= 128)) by (bit_vector);
    status_register.update_flags(StatusRegFlags::NEGATIVE, m & 0x80 != 0);
    status_register.update_flags(StatusRegFlags::OVERFLOW, m & 0x40 != 0);
}

/// Bit test with an immediate operand: only Z is updated, from `A & M`.
pub fn bit_compare_imm(accumulator: Reg8, operand: Reg8, status_register: &mut StatusReg)
    ensures
        final(status_register)@ == with_flags(
            old(status_register)@,
            StatusRegFlags::ZERO,
            accumulator@ & operand@ == 0,
        ),
{
    let and = accumulator.to_u8() & operand.to_u8();
    status_register.update_flags(StatusRegFlags::ZERO, and == 0);
}

} // verus!

verus! {

/// Setting or clearing one flag and then reading it gives the value written;
/// the other flags read as before.
proof fn lemma_flag_written(s: u8, f: u8, v: bool, g: u8)
    requires
        f == StatusRegFlags::CARRY || f == StatusRegFlags::ZERO || f == StatusRegFlags::OVERFLOW
            || f == StatusRegFlags::NEGATIVE,
        g == StatusRegFlags::CARRY || g == StatusRegFlags::ZERO || g == StatusRegFlags::OVERFLOW
            || g == StatusRegFlags::NEGATIVE,
    ensures
        flags_set(with_flags(s, f, v), f) == v,
        f != g ==> flags_set(with_flags(s, f, v), g) == flags_set(s, g),
{
    assert({
        &&& ((s | f) & f == f)
        &&& ((s & !f) & f != f)
        &&& (f != g ==> (((s | f) & g == g) == (s & g == g)))
        &&& (f != g ==> (((s & !f) & g == g) == (s & g == g)))
    }) by (bit_vector)
        requires
            f == 1 || f == 2 || f == 0x40 || f == 0x80,
            g == 1 || g == 2 || g == 0x40 || g == 0x80,
    ;
}

/// SBC is ADC of the one's complement of the operand: same result and same
/// flags.
pub proof fn lemma_sbc_is_adc_of_complement(a: u8, m: u8, s: u8)
    ensures
        sbc_value(a, m, s) == adc_value(a, (255 - m) as u8, s),
        sbc_status(a, m, s) == adc_status(a, (255 - m) as u8, s),
{
    let n = (255 - m) as u8;
    assert(signed(n) == -signed(m) - 1);
    assert(a - m - (1 - carry_in(s)) >= 0 <==> a + n + carry_in(s) > 255);
}

/// ROR undoes ROL: rotating a byte left then right through the carry gives
/// back the byte and the carry flag.
pub proof fn lemma_rotate_left_then_right(v: u8, s: u8)
    ensures
        ({
            let r = rol_value(v, s);
            let s1 = shift_status(s, r, v >= 128);
            &&& ror_value(r, s1) == v
            &&& flags_set(shift_status(s1, v, r % 2 == 1), StatusRegFlags::CARRY) == flags_set(
                s,
                StatusRegFlags::CARRY,
            )
        }),
{
    let r = rol_value(v, s);
    let s1 = shift_status(s, r, v >= 128);
    lemma_flag_written(nz_status(s, r), StatusRegFlags::CARRY, v >= 128, StatusRegFlags::CARRY);
    lemma_flag_written(nz_status(s1, v), StatusRegFlags::CARRY, r % 2 == 1, StatusRegFlags::CARRY);
}

/// ROL undoes ROR: rotating a byte right then left through the carry gives
/// back the byte and the carry flag.
pub proof fn lemma_rotate_right_then_left(v: u8, s: u8)
    ensures
        ({
            let r = ror_value(v, s);
            let s1 = shift_status(s, r, v % 2 == 1);
            &&& rol_value(r, s1) == v
            &&& flags_set(shift_status(s1, v, r >= 128), StatusRegFlags::CARRY) == flags_set(
                s,
                StatusRegFlags::CARRY,
            )
        }),
{
    let r = ror_value(v, s);
    let s1 = shift_status(s, r, v % 2 == 1);
    lemma_flag_written(nz_status(s, r), StatusRegFlags::CARRY, v % 2 == 1, StatusRegFlags::CARRY);
    lemma_flag_written(nz_status(s1, v), StatusRegFlags::CARRY, r >= 128, StatusRegFlags::CARRY);
}

/// A compare sets Z exactly when the register equals the operand, C exactly
/// when it is not below it, and N from bit 7 of their difference.
pub proof fn lemma_compare_flags(a: u8, m: u8, s: u8)
    ensures
        flags_set(cmp_status(a, m, s), StatusRegFlags::ZERO) == (a == m),
        flags_set(cmp_status(a, m, s), StatusRegFlags::CARRY) == (a >= m),
        flags_set(cmp_status(a, m, s), StatusRegFlags::NEGATIVE) == (wrapping_diff(a, m) >= 128),
{
    let c = with_flags(s, StatusRegFlags::CARRY, a >= m);
    let d = wrapping_diff(a, m);
    let n = with_flags(c, StatusRegFlags::NEGATIVE, d >= 128);
    lemma_flag_written(n, StatusRegFlags::ZERO, d == 0, StatusRegFlags::ZERO);
    lemma_flag_written(n, StatusRegFlags::ZERO, d == 0, StatusRegFlags::CARRY);
    lemma_flag_written(n, StatusRegFlags::ZERO, d == 0, StatusRegFlags::NEGATIVE);
    lemma_flag_written(c, StatusRegFlags::NEGATIVE, d >= 128, StatusRegFlags::CARRY);
    lemma_flag_written(c, StatusRegFlags::NEGATIVE, d >= 128, StatusRegFlags::NEGATIVE);
    lemma_flag_written(s, StatusRegFlags::CARRY, a >= m, StatusRegFlags::CARRY);
}

/// ADC sets C exactly when the unsigned sum exceeds 255 and V exactly when
/// the signed sum leaves -128..127.
pub proof fn lemma_add_flags(a: u8, m: u8, s: u8)
    ensures
        flags_set(adc_status(a, m, s), StatusRegFlags::CARRY) == (a + m + carry_in(s) > 255),
        flags_set(adc_status(a, m, s), StatusRegFlags::OVERFLOW) == signed_overflow(
            signed(a) + signed(m) + carry_in(s),
        ),
        flags_set(adc_status(a, m, s), StatusRegFlags::ZERO) == (adc_value(a, m, s) == 0),
{
    let v = with_flags(s, StatusRegFlags::OVERFLOW, signed_overflow(signed(a) + signed(m) + carry_in(s)));
    let c = with_flags(v, StatusRegFlags::CARRY, a + m + carry_in(s) > 255);
    let r = adc_value(a, m, s);
    let n = with_flags(c, StatusRegFlags::NEGATIVE, r >= 128);
    lemma_flag_written(n, StatusRegFlags::ZERO, r == 0, StatusRegFlags::ZERO);
    lemma_flag_written(n, StatusRegFlags::ZERO, r == 0, StatusRegFlags::CARRY);
    lemma_flag_written(n, StatusRegFlags::ZERO, r == 0, StatusRegFlags::OVERFLOW);
    lemma_flag_written(c, StatusRegFlags::NEGATIVE, r >= 128, StatusRegFlags::CARRY);
    lemma_flag_written(c, StatusRegFlags::NEGATIVE, r >= 128, StatusRegFlags::OVERFLOW);
    lemma_flag_written(v, StatusRegFlags::CARRY, a + m + carry_in(s) > 255, StatusRegFlags::CARRY);
    lemma_flag_written(v, StatusRegFlags::CARRY, a + m + carry_in(s) > 255, StatusRegFlags::OVERFLOW);
    lemma_flag_written(s, StatusRegFlags::OVERFLOW, signed_overflow(signed(a) + signed(m) + carry_in(s)), StatusRegFlags::OVERFLOW);
}

/// Arithmetic is binary: the decimal flag changes neither the result of ADC
/// and SBC nor the carry, overflow and zero flags they set.
pub proof fn lemma_decimal_flag_ignored(a: u8, m: u8, s: u8)
    ensures
        ({
            let sd = with_flags(s, StatusRegFlags::DECIMAL, true);
            let sb = with_flags(s, StatusRegFlags::DECIMAL, false);
            &&& adc_value(a, m, sd) == adc_value(a, m, sb)
            &&& sbc_value(a, m, sd) == sbc_value(a, m, sb)
            &&& flags_set(adc_status(a, m, sd), StatusRegFlags::CARRY) == flags_set(
                adc_status(a, m, sb),
                StatusRegFlags::CARRY,
            )
            &&& flags_set(adc_status(a, m, sd), StatusRegFlags::OVERFLOW) == flags_set(
                adc_status(a, m, sb),
                StatusRegFlags::OVERFLOW,
            )
            &&& flags_set(adc_status(a, m, sd), StatusRegFlags::ZERO) == flags_set(
                adc_status(a, m, sb),
                StatusRegFlags::ZERO,
            )
        }),
{
    let sd = with_flags(s, StatusRegFlags::DECIMAL, true);
    let sb = with_flags(s, StatusRegFlags::DECIMAL, false);
    assert(((s | 8) & 1 == 1) == (s & 1 == 1) && ((s & !8u8) & 1 == 1) == (s & 1 == 1))
        by (bit_vector);
    assert(carry_in(sd) == carry_in(sb));
    lemma_add_flags(a, m, sd);
    lemma_add_flags(a, m, sb);
}

/// BIT: the Z flag is set exactly when A & M is zero, N is bit 7 of M and V
/// is bit 6 of M; the other flags (C, I, D, B and the unused bit) are kept.
/// The accumulator itself is not an output (`bit_compare` takes it by value).
pub proof fn lemma_bit_flags(a: u8, m: u8, s: u8)
    ensures
        (bit_status(a, m, s) & 0x02 != 0) == (a & m == 0),
        (bit_status(a, m, s) & 0x80 != 0) == (m & 0x80 != 0),
        (bit_status(a, m, s) & 0x40 != 0) == (m & 0x40 != 0),
        bit_status(a, m, s) & 0x3D == s & 0x3D,
{
    let t = bit_status(a, m, s);
    let z = a & m == 0;
    let n = m >= 128;
    let v = m & 0x40 != 0;
    let s1 = if z { s | 0x02 } else { s & !0x02u8 };
    let s2 = if n { s1 | 0x80 } else { s1 & !0x80u8 };
    let s3 = if v { s2 | 0x40 } else { s2 & !0x40u8 };
    assert(t == s3);
    assert((s3 & 0x02 != 0) == z && (s3 & 0x80 != 0) == n && (s3 & 0x40 != 0) == v
        && s3 & 0x3D == s & 0x3D) by (bit_vector)
        requires
            s1 == if z { s | 0x02 } else { s & !0x02u8 },
            s2 == if n { s1 | 0x80 } else { s1 & !0x80u8 },
            s3 == if v { s2 | 0x40 } else { s2 & !0x40u8 },
    ;
    assert((m >= 128) == (m & 0x80 != 0)) by (bit_vector);
}

} // verus!
