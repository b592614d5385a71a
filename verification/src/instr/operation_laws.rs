//! What the read-modify-write and accumulator operations compute, stated
//! over the bits of the status byte: N is bit 7 of the result, Z tells a zero
//! result, C is the bit shifted out, and the other flags are kept.
use crate::alu::{
    carry_in, cmp_status, nz_status, shift_status, signed, signed_overflow, wrapping_diff,
};
use crate::instr::cycle::{implicit_next, modify_next, op_next};
use crate::instr::{ImplicitOperation, MemoryModifyOperation, RegisterMemoryOperation};
use crate::registers::{with_flags, RegisterState, StatusRegFlags};
use vstd::prelude::*;

verus! {

/// The status `s1` after an operation with result `result` on status `s0`:
/// N is bit 7 of the result, Z is set exactly for a zero result, and every
/// flag but N and Z is kept.
pub open spec fn nz_flags_from(s1: u8, s0: u8, result: u8) -> bool {
    &&& (s1 & 0x80 != 0) == (result >= 128)
    &&& (s1 & 0x02 != 0) == (result == 0)
    &&& s1 & 0x7D == s0 & 0x7D
}

/// The status `s1` after a shift or rotate with result `result` on status
/// `s0`: N and Z from the result, C is the bit shifted out (`carry`), and the
/// other flags are kept.
pub open spec fn shift_flags_from(s1: u8, s0: u8, result: u8, carry: bool) -> bool {
    &&& (s1 & 0x80 != 0) == (result >= 128)
    &&& (s1 & 0x02 != 0) == (result == 0)
    &&& (s1 & 0x01 != 0) == carry
    &&& s1 & 0x7C == s0 & 0x7C
}

/// N and Z from a result, the other flags kept.
pub proof fn lemma_nz_status_bits(s: u8, r: u8)
    ensures
        nz_flags_from(nz_status(s, r), s, r),
{
    let n = r >= 128;
    let z = r == 0;
    let s1 = if n { s | 0x80 } else { s & !0x80u8 };
    let s2 = if z { s1 | 0x02 } else { s1 & !0x02u8 };
    assert(nz_status(s, r) == s2);
    assert((s2 & 0x80 != 0) == n && (s2 & 0x02 != 0) == z && s2 & 0x7D == s & 0x7D) by (bit_vector)
        requires
            s1 == if n { s | 0x80 } else { s & !0x80u8 },
            s2 == if z { s1 | 0x02 } else { s1 & !0x02u8 },
    ;
}

/// N and Z from a result, C from the bit shifted out, the other flags kept.
pub proof fn lemma_shift_status_bits(s: u8, r: u8, c: bool)
    ensures
        shift_flags_from(shift_status(s, r, c), s, r, c),
{
    lemma_nz_status_bits(s, r);
    let s2 = nz_status(s, r);
    let s3 = if c { s2 | 0x01 } else { s2 & !0x01u8 };
    assert(shift_status(s, r, c) == s3);
    assert((s3 & 0x80 != 0) == (s2 & 0x80 != 0) && (s3 & 0x02 != 0) == (s2 & 0x02 != 0) && (s3
        & 0x01 != 0) == c && s3 & 0x7C == s & 0x7C) by (bit_vector)
        requires
            s3 == if c { s2 | 0x01 } else { s2 & !0x01u8 },
            s2 & 0x7D == s & 0x7D,
    ;
}

/// The read-modify-write operations on a byte `v` with status `s`: INC adds
/// one and DEC subtracts one (wrapping), setting only N and Z; ASL doubles
/// (C gets bit 7), LSR halves (C gets bit 0), ROL doubles and brings the old
/// carry into bit 0 (C gets bit 7), ROR halves and brings the old carry into
/// bit 7 (C gets bit 0); all four set N and Z from the result and keep the
/// other flags. No other register changes.
pub proof fn lemma_modify_results(op: MemoryModifyOperation, r: RegisterState)
    ensures
        ({
            let v = r.tmp;
            let s = r.status;
            let c = (s & 0x01) as int;
            let r1 = modify_next(op, r);
            &&& r1.a == r.a && r1.x == r.x && r1.y == r.y && r1.pc == r.pc && r1.sp == r.sp
                && r1.addr == r.addr
            &&& match op {
                MemoryModifyOperation::IncrementMemory => r1.tmp == (v + 1) % 256 && nz_flags_from(
                    r1.status,
                    s,
                    r1.tmp,
                ),
                MemoryModifyOperation::DecrementMemory => r1.tmp == (v + 255) % 256
                    && nz_flags_from(r1.status, s, r1.tmp),
                MemoryModifyOperation::ShiftLeftMemory => r1.tmp == (v * 2) % 256
                    && shift_flags_from(r1.status, s, r1.tmp, v >= 128),
                MemoryModifyOperation::ShiftRightMemory => r1.tmp == v / 2 && shift_flags_from(
                    r1.status,
                    s,
                    r1.tmp,
                    v % 2 == 1,
                ),
                MemoryModifyOperation::RotateLeftMemory => r1.tmp == (v * 2 + c) % 256
                    && shift_flags_from(r1.status, s, r1.tmp, v >= 128),
                MemoryModifyOperation::RotateRightMemory => r1.tmp == v / 2 + 128 * c
                    && shift_flags_from(r1.status, s, r1.tmp, v % 2 == 1),
            }
        }),
{
    let v = r.tmp;
    let s = r.status;
    lemma_carry_bit(s);
    match op {
        MemoryModifyOperation::IncrementMemory => lemma_nz_status_bits(s, ((v + 1) % 256) as u8),
        MemoryModifyOperation::DecrementMemory => lemma_nz_status_bits(s, ((v + 255) % 256) as u8),
        MemoryModifyOperation::ShiftLeftMemory => lemma_shift_status_bits(
            s,
            modify_next(op, r).tmp,
            v >= 128,
        ),
        MemoryModifyOperation::ShiftRightMemory => lemma_shift_status_bits(
            s,
            modify_next(op, r).tmp,
            v % 2 == 1,
        ),
        MemoryModifyOperation::RotateLeftMemory => lemma_shift_status_bits(
            s,
            modify_next(op, r).tmp,
            v >= 128,
        ),
        MemoryModifyOperation::RotateRightMemory => lemma_shift_status_bits(
            s,
            modify_next(op, r).tmp,
            v % 2 == 1,
        ),
    }
}

/// The carry flag read as a number is bit 0 of the status.
proof fn lemma_carry_bit(s: u8)
    ensures
        crate::alu::carry_in(s) == (s & 0x01) as int,
{
    assert((s & 0x01 == 0x01) == (s & 0x01 != 0) && (s & 0x01 == 0 || s & 0x01 == 1))
        by (bit_vector);
}

/// The accumulator shifts and rotates, and the index increments and
/// decrements, compute as their memory forms do: ASL/LSR/ROL/ROR A on the
/// accumulator, INX/INY/DEX/DEY on X and Y, with the flags of
/// `lemma_modify_results`; no other register changes.
pub proof fn lemma_register_modify_results(op: ImplicitOperation, r: RegisterState)
    ensures
        ({
            let s = r.status;
            let c = (s & 0x01) as int;
            let r1 = implicit_next(op, r);
            match op {
                ImplicitOperation::ShiftLeftA => r1.a == (r.a * 2) % 256 && shift_flags_from(
                    r1.status,
                    s,
                    r1.a,
                    r.a >= 128,
                ) && r1.x == r.x && r1.y == r.y,
                ImplicitOperation::ShiftRightA => r1.a == r.a / 2 && shift_flags_from(
                    r1.status,
                    s,
                    r1.a,
                    r.a % 2 == 1,
                ) && r1.x == r.x && r1.y == r.y,
                ImplicitOperation::RotateLeftA => r1.a == (r.a * 2 + c) % 256 && shift_flags_from(
                    r1.status,
                    s,
                    r1.a,
                    r.a >= 128,
                ) && r1.x == r.x && r1.y == r.y,
                ImplicitOperation::RotateRightA => r1.a == r.a / 2 + 128 * c && shift_flags_from(
                    r1.status,
                    s,
                    r1.a,
                    r.a % 2 == 1,
                ) && r1.x == r.x && r1.y == r.y,
                ImplicitOperation::IncrementX => r1.x == (r.x + 1) % 256 && nz_flags_from(
                    r1.status,
                    s,
                    r1.x,
                ) && r1.a == r.a && r1.y == r.y,
                ImplicitOperation::IncrementY => r1.y == (r.y + 1) % 256 && nz_flags_from(
                    r1.status,
                    s,
                    r1.y,
                ) && r1.a == r.a && r1.x == r.x,
                ImplicitOperation::DecrementX => r1.x == (r.x + 255) % 256 && nz_flags_from(
                    r1.status,
                    s,
                    r1.x,
                ) && r1.a == r.a && r1.y == r.y,
                ImplicitOperation::DecrementY => r1.y == (r.y + 255) % 256 && nz_flags_from(
                    r1.status,
                    s,
                    r1.y,
                ) && r1.a == r.a && r1.x == r.x,
                _ => true,
            }
        }),
{
    let s = r.status;
    lemma_carry_bit(s);
    let r1 = implicit_next(op, r);
    match op {
        ImplicitOperation::ShiftLeftA => lemma_shift_status_bits(s, r1.a, r.a >= 128),
        ImplicitOperation::ShiftRightA => lemma_shift_status_bits(s, r1.a, r.a % 2 == 1),
        ImplicitOperation::RotateLeftA => lemma_shift_status_bits(s, r1.a, r.a >= 128),
        ImplicitOperation::RotateRightA => lemma_shift_status_bits(s, r1.a, r.a % 2 == 1),
        ImplicitOperation::IncrementX => lemma_nz_status_bits(s, r1.x),
        ImplicitOperation::IncrementY => lemma_nz_status_bits(s, r1.y),
        ImplicitOperation::DecrementX => lemma_nz_status_bits(s, r1.x),
        ImplicitOperation::DecrementY => lemma_nz_status_bits(s, r1.y),
        _ => {},
    }
}

/// The status after an add or subtract: V and C as given, N and Z from the
/// result, the other flags (I, D, B and the unused bit) kept.
pub proof fn lemma_arith_status_bits(s: u8, v: bool, c: bool, r: u8)
    ensures
        ({
            let t = nz_status(with_flags(with_flags(s, StatusRegFlags::OVERFLOW, v), StatusRegFlags::CARRY, c), r);
            &&& (t & 0x40 != 0) == v
            &&& (t & 0x01 != 0) == c
            &&& (t & 0x80 != 0) == (r >= 128)
            &&& (t & 0x02 != 0) == (r == 0)
            &&& t & 0x3C == s & 0x3C
        }),
{
    let s1 = if v { s | 0x40 } else { s & !0x40u8 };
    let s2 = if c { s1 | 0x01 } else { s1 & !0x01u8 };
    lemma_nz_status_bits(s2, r);
    let t = nz_status(s2, r);
    assert((s2 & 0x40 != 0) == v && (s2 & 0x01 != 0) == c && s2 & 0x3C == s & 0x3C) by (bit_vector)
        requires
            s1 == if v { s | 0x40 } else { s & !0x40u8 },
            s2 == if c { s1 | 0x01 } else { s1 & !0x01u8 },
    ;
    assert(t & 0x7D == s2 & 0x7D ==> (t & 0x40 != 0) == (s2 & 0x40 != 0) && (t & 0x01 != 0) == (
    s2 & 0x01 != 0) && t & 0x3C == s2 & 0x3C) by (bit_vector);
}

/// The register-memory operations on an operand `m`: AND, ORA and EOR
/// combine it bitwise with A; loads copy it; all of them set N and Z from the
/// result and keep the other flags. ADC adds it and the carry to A, with C
/// set exactly when the unsigned sum exceeds 255 and V exactly when the
/// signed sum leaves -128..127; SBC subtracts it and the borrow (1 - C), with
/// C set exactly when no borrow occurs and V exactly when the signed
/// difference leaves -128..127; both set N and Z from the result and keep I
/// and D. CMP, CPX and CPY set C exactly when the register is not below the
/// operand, Z exactly when they are equal and N from bit 7 of their
/// difference, changing no register.
pub proof fn lemma_register_memory_results(op: RegisterMemoryOperation, r: RegisterState, m: u8)
    ensures
        ({
            let s = r.status;
            let c = (s & 0x01) as int;
            let r1 = op_next(op, r, m);
            match op {
                RegisterMemoryOperation::And => r1.a == r.a & m && nz_flags_from(r1.status, s, r1.a),
                RegisterMemoryOperation::Or => r1.a == r.a | m && nz_flags_from(r1.status, s, r1.a),
                RegisterMemoryOperation::Xor => r1.a == r.a ^ m && nz_flags_from(r1.status, s, r1.a),
                RegisterMemoryOperation::LoadA => r1.a == m && nz_flags_from(r1.status, s, m),
                RegisterMemoryOperation::LoadX => r1.x == m && nz_flags_from(r1.status, s, m),
                RegisterMemoryOperation::LoadY => r1.y == m && nz_flags_from(r1.status, s, m),
                RegisterMemoryOperation::Add => {
                    &&& r1.a == (r.a + m + c) % 256
                    &&& (r1.status & 0x01 != 0) == (r.a + m + c > 255)
                    &&& (r1.status & 0x40 != 0) == !(-128 <= signed(r.a) + signed(m) + c <= 127)
                    &&& (r1.status & 0x80 != 0) == (r1.a >= 128)
                    &&& (r1.status & 0x02 != 0) == (r1.a == 0)
                    &&& r1.status & 0x3C == s & 0x3C
                },
                RegisterMemoryOperation::Sub => {
                    &&& r1.a == (r.a - m - (1 - c) + 256) % 256
                    &&& (r1.status & 0x01 != 0) == (r.a - m - (1 - c) >= 0)
                    &&& (r1.status & 0x40 != 0) == !(-128 <= signed(r.a) - signed(m) - (1 - c)
                        <= 127)
                    &&& (r1.status & 0x80 != 0) == (r1.a >= 128)
                    &&& (r1.status & 0x02 != 0) == (r1.a == 0)
                    &&& r1.status & 0x3C == s & 0x3C
                },
                RegisterMemoryOperation::Cmp => r1.a == r.a && compare_flags_from(r1.status, s, r.a, m),
                RegisterMemoryOperation::Cpx => r1.x == r.x && compare_flags_from(r1.status, s, r.x, m),
                RegisterMemoryOperation::Cpy => r1.y == r.y && compare_flags_from(r1.status, s, r.y, m),
                _ => true,
            }
        }),
{
    let s = r.status;
    lemma_carry_bit(s);
    let r1 = op_next(op, r, m);
    match op {
        RegisterMemoryOperation::And => lemma_nz_status_bits(s, r1.a),
        RegisterMemoryOperation::Or => lemma_nz_status_bits(s, r1.a),
        RegisterMemoryOperation::Xor => lemma_nz_status_bits(s, r1.a),
        RegisterMemoryOperation::LoadA => lemma_nz_status_bits(s, m),
        RegisterMemoryOperation::LoadX => lemma_nz_status_bits(s, m),
        RegisterMemoryOperation::LoadY => lemma_nz_status_bits(s, m),
        RegisterMemoryOperation::Add => lemma_arith_status_bits(
            s,
            signed_overflow(signed(r.a) + signed(m) + carry_in(s)),
            r.a + m + carry_in(s) > 255,
            r1.a,
        ),
        RegisterMemoryOperation::Sub => lemma_arith_status_bits(
            s,
            signed_overflow(signed(r.a) - signed(m) - (1 - carry_in(s))),
            r.a - m - (1 - carry_in(s)) >= 0,
            r1.a,
        ),
        RegisterMemoryOperation::Cmp => lemma_compare_status_bits(s, r.a, m),
        RegisterMemoryOperation::Cpx => lemma_compare_status_bits(s, r.x, m),
        RegisterMemoryOperation::Cpy => lemma_compare_status_bits(s, r.y, m),
        _ => {},
    }
}

/// The status `s1` after comparing register value `v` with operand `m` on
/// status `s0`: C set exactly when `v >= m`, Z exactly when they are equal, N
/// from bit 7 of `v - m` (wrapping), the other flags kept.
pub open spec fn compare_flags_from(s1: u8, s0: u8, v: u8, m: u8) -> bool {
    &&& (s1 & 0x01 != 0) == (v >= m)
    &&& (s1 & 0x02 != 0) == (v == m)
    &&& (s1 & 0x80 != 0) == ((v - m + 256) % 256 >= 128)
    &&& s1 & 0x7C == s0 & 0x7C
}

/// The compare flags, bit by bit.
proof fn lemma_compare_status_bits(s: u8, v: u8, m: u8)
    ensures
        compare_flags_from(cmp_status(v, m, s), s, v, m),
{
    let s1 = if v >= m { s | 0x01 } else { s & !0x01u8 };
    lemma_nz_status_bits(s1, wrapping_diff(v, m));
    let t = nz_status(s1, wrapping_diff(v, m));
    assert((s1 & 0x01 != 0) == (v >= m) && s1 & 0x7C == s & 0x7C) by (bit_vector)
        requires
            s1 == if v >= m { s | 0x01 } else { s & !0x01u8 },
    ;
    assert(t & 0x7D == s1 & 0x7D ==> (t & 0x01 != 0) == (s1 & 0x01 != 0) && t & 0x7C == s1 & 0x7C)
        by (bit_vector);
}

/// The flag instructions change exactly one flag of the status (CLC/SEC bit
/// 0, CLI/SEI bit 2, CLD/SED bit 3, CLV and its setting form bit 6) and no
/// register; the
/// transfers copy the source register into the destination, setting N and Z
/// from the copied value (TXS sets no flag), and change no other register;
/// NOP changes nothing.
pub proof fn lemma_implied_results(op: ImplicitOperation, r: RegisterState)
    ensures
        ({
            let s = r.status;
            let r1 = implicit_next(op, r);
            match op {
                ImplicitOperation::Nop => r1 == r,
                ImplicitOperation::ClearCarry => one_flag_written(r1, r, 0x01, false),
                ImplicitOperation::SetCarry => one_flag_written(r1, r, 0x01, true),
                ImplicitOperation::ClearInterruptDisable => one_flag_written(r1, r, 0x04, false),
                ImplicitOperation::SetInterruptDisable => one_flag_written(r1, r, 0x04, true),
                ImplicitOperation::ClearDecimal => one_flag_written(r1, r, 0x08, false),
                ImplicitOperation::SetDecimal => one_flag_written(r1, r, 0x08, true),
                ImplicitOperation::ClearOverflow => one_flag_written(r1, r, 0x40, false),
                ImplicitOperation::SetOverflow => one_flag_written(r1, r, 0x40, true),
                ImplicitOperation::TransferAccumulatorToX => r1.x == r.a && r1.a == r.a && r1.y
                    == r.y && r1.sp == r.sp && nz_flags_from(r1.status, s, r.a),
                ImplicitOperation::TransferAccumulatorToY => r1.y == r.a && r1.a == r.a && r1.x
                    == r.x && r1.sp == r.sp && nz_flags_from(r1.status, s, r.a),
                ImplicitOperation::TransferXToAccumulator => r1.a == r.x && r1.x == r.x && r1.y
                    == r.y && r1.sp == r.sp && nz_flags_from(r1.status, s, r.x),
                ImplicitOperation::TransferYToAccumulator => r1.a == r.y && r1.x == r.x && r1.y
                    == r.y && r1.sp == r.sp && nz_flags_from(r1.status, s, r.y),
                ImplicitOperation::TransferStackPtrToX => r1.x == r.sp && r1.a == r.a && r1.y
                    == r.y && r1.sp == r.sp && nz_flags_from(r1.status, s, r.sp),
                ImplicitOperation::TransferXToStackPtr => r1.sp == r.x && r1.a == r.a && r1.x
                    == r.x && r1.y == r.y && r1.status == s,
                _ => true,
            }
        }),
{
    let s = r.status;
    let r1 = implicit_next(op, r);
    match op {
        ImplicitOperation::ClearCarry => lemma_flag_bits(s, 0x01, false),
        ImplicitOperation::SetCarry => lemma_flag_bits(s, 0x01, true),
        ImplicitOperation::ClearInterruptDisable => lemma_flag_bits(s, 0x04, false),
        ImplicitOperation::SetInterruptDisable => lemma_flag_bits(s, 0x04, true),
        ImplicitOperation::ClearDecimal => lemma_flag_bits(s, 0x08, false),
        ImplicitOperation::SetDecimal => lemma_flag_bits(s, 0x08, true),
        ImplicitOperation::ClearOverflow => lemma_flag_bits(s, 0x40, false),
        ImplicitOperation::SetOverflow => lemma_flag_bits(s, 0x40, true),
        ImplicitOperation::TransferAccumulatorToX => lemma_nz_status_bits(s, r.a),
        ImplicitOperation::TransferAccumulatorToY => lemma_nz_status_bits(s, r.a),
        ImplicitOperation::TransferXToAccumulator => lemma_nz_status_bits(s, r.x),
        ImplicitOperation::TransferYToAccumulator => lemma_nz_status_bits(s, r.y),
        ImplicitOperation::TransferStackPtrToX => lemma_nz_status_bits(s, r.sp),
        _ => {},
    }
}

/// Only the flag `bit` of the status changed, to `value`, and no register.
pub open spec fn one_flag_written(r1: RegisterState, r: RegisterState, bit: u8, value: bool) -> bool {
    &&& (r1.status & bit != 0) == value
    &&& r1.status & !bit == r.status & !bit
    &&& r1.a == r.a && r1.x == r.x && r1.y == r.y && r1.sp == r.sp && r1.pc == r.pc
}

/// Writing one flag of the status, bit by bit.
proof fn lemma_flag_bits(s: u8, bit: u8, value: bool)
    requires
        bit == 0x01 || bit == 0x04 || bit == 0x08 || bit == 0x40,
    ensures
        (with_flags(s, bit, value) & bit != 0) == value,
        with_flags(s, bit, value) & !bit == s & !bit,
{
    let t = with_flags(s, bit, value);
    assert(t == if value { s | bit } else { s & !bit });
    assert(((t & bit) != 0) == value && t & !bit == s & !bit) by (bit_vector)
        requires
            t == if value { s | bit } else { s & !bit },
            bit == 0x01 || bit == 0x04 || bit == 0x08 || bit == 0x40,
    ;
}

} // verus!
