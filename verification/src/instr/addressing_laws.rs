//! Where indexed instructions read and write, on a plain RAM: the effective
//! address is the full 16-bit sum of the base address and the index
//! register, whatever cycles the sequence spends fixing the page.
use crate::instr::cycle::{
    branch_taken, cycle_next, fixed, indexed, inc16, modify_next, op_next, page_crossed,
    run_steps, ClockEndStatus,
};
use crate::instr::{BranchOperation, Instruction, MemoryModifyOperation, RegisterMemoryOperation};
use crate::memory::BasicRam;
use crate::registers::{
    group_word_bytes, hi_byte, index_value, lo_byte, make_word, IndexRegister, RegisterState,
};
use vstd::prelude::*;

verus! {

broadcast use group_word_bytes;

/// The register that a store operation writes to memory.
pub open spec fn stored_register(op: RegisterMemoryOperation, r: RegisterState) -> u8 {
    match op {
        RegisterMemoryOperation::StoreX => r.x,
        RegisterMemoryOperation::StoreY => r.y,
        _ => r.a,
    }
}

/// The operations that write a register to memory.
pub open spec fn is_store(op: RegisterMemoryOperation) -> bool {
    op is StoreA || op is StoreX || op is StoreY
}

/// `base + index` as a 16-bit address (wrapping at 65536).
pub open spec fn effective_address(base: u16, index: u8) -> u16 {
    ((base + index) % 65536) as u16
}

/// Adding the index to the low byte of the address and then fixing the page
/// when that carried gives the full 16-bit sum; the page is crossed exactly
/// when the low byte and the index add up to more than 255. Nothing else
/// changes.
#[verifier::spinoff_prover]
pub proof fn lemma_index_then_fix(r: RegisterState, idx: IndexRegister)
    ensures
        page_crossed(indexed(r, idx), index_value(r, idx)) <==> lo_byte(r.addr) + index_value(
            r,
            idx,
        ) > 255,
        fixed(indexed(r, idx), index_value(r, idx)) == (RegisterState {
            addr: effective_address(r.addr, index_value(r, idx)),
            ..r
        }),
        lo_byte(r.addr) + index_value(r, idx) <= 255 ==> indexed(r, idx) == (RegisterState {
            addr: effective_address(r.addr, index_value(r, idx)),
            ..r
        }),
{
    let v = index_value(r, idx);
    let lo = lo_byte(r.addr);
    let hi = hi_byte(r.addr);
    let ri = indexed(r, idx);
    assert(r.addr == hi * 256 + lo);
    assert(ri.addr == make_word(hi, ((lo + v) % 256) as u8));
    assert(lo_byte(ri.addr) == ((lo + v) % 256) as u8);
    assert(hi_byte(ri.addr) == hi);
    assert(v > ((lo + v) % 256) as u8 <==> lo + v > 255);
    if lo + v > 255 {
        let f = fixed(ri, v);
        assert(f.addr == make_word(((hi + 1) % 256) as u8, ((lo + v) % 256) as u8));
        assert(f.addr == (r.addr + v) % 65536) by (nonlinear_arith)
            requires
                r.addr == hi * 256 + lo,
                f.addr == ((((hi + 1) % 256) * 256 + (lo + v - 256)) as u16),
                lo + v > 255,
                lo < 256,
                v < 256,
                hi < 256,
        ;
        assert(f =~= RegisterState { addr: effective_address(r.addr, v), ..r });
    } else {
        assert(ri.addr == (r.addr + v) % 65536);
        assert(ri =~= RegisterState { addr: effective_address(r.addr, v), ..r });
    }
}

/// An indexed absolute store (STA/STX/STY abs,X and abs,Y) writes the stored
/// register at the operand address plus the index register, as a full
/// 16-bit sum (the carry goes into the high byte), and writes nothing else.
/// The operand address is the little-endian word after the opcode.
#[verifier::spinoff_prover]
#[verifier::rlimit(40)]
pub proof fn lemma_absolute_indexed_store(
    op: RegisterMemoryOperation,
    idx: IndexRegister,
    r: RegisterState,
    m: BasicRam,
)
    requires
        is_store(op),
    ensures
        ({
            let (r1, m1) = run_steps(Instruction::AbsoluteIdxWrite(op, idx), 4, r, m);
            let base = make_word(m@[inc16(r.pc) as int], m@[r.pc as int]);
            let target = effective_address(base, index_value(r, idx)) as int;
            &&& m1@[target] == stored_register(op, r)
            &&& forall|a: int| 0 <= a < 65536 && a != target ==> m1@[a] == m@[a]
            &&& r1.pc == inc16(inc16(r.pc))
            &&& r1.a == r.a && r1.x == r.x && r1.y == r.y && r1.status == r.status
        }),
{
    reveal(run_steps);
    reveal_with_fuel(run_steps, 5);
    let i = Instruction::AbsoluteIdxWrite(op, idx);
    let r2 = run_steps(i, 2, r, m).0;
    assert(r2.addr == make_word(m@[inc16(r.pc) as int], m@[r.pc as int]));
    assert(run_steps(i, 2, r, m).1 == m);
    lemma_index_then_fix(r2, idx);
}

/// An indexed absolute read-modify-write (INC/DEC/ASL/LSR/ROL/ROR abs,X)
/// reads its operand at the operand address plus the index register, as a
/// full 16-bit sum, and leaves there the modified value; no other byte
/// changes. The modified value and the status are those of the operation on
/// the byte read.
#[verifier::spinoff_prover]
#[verifier::rlimit(40)]
pub proof fn lemma_absolute_indexed_modify(
    op: MemoryModifyOperation,
    idx: IndexRegister,
    r: RegisterState,
    m: BasicRam,
)
    ensures
        ({
            let (r1, m1) = run_steps(Instruction::AbsoluteIdxReadModifyWrite(op, idx), 6, r, m);
            let base = make_word(m@[inc16(r.pc) as int], m@[r.pc as int]);
            let target = effective_address(base, index_value(r, idx)) as int;
            let result = modify_next(op, RegisterState { tmp: m@[target], ..r });
            &&& m1@[target] == result.tmp
            &&& forall|a: int| 0 <= a < 65536 && a != target ==> m1@[a] == m@[a]
            &&& r1.status == result.status
            &&& r1.pc == inc16(inc16(r.pc))
            &&& r1.a == r.a && r1.x == r.x && r1.y == r.y
        }),
{
    reveal(run_steps);
    reveal_with_fuel(run_steps, 7);
    let i = Instruction::AbsoluteIdxReadModifyWrite(op, idx);
    let r2 = run_steps(i, 2, r, m).0;
    assert(r2.addr == make_word(m@[inc16(r.pc) as int], m@[r.pc as int]));
    assert(run_steps(i, 2, r, m).1 == m);
    lemma_index_then_fix(r2, idx);
    let target = effective_address(r2.addr, index_value(r, idx));
    let r3 = run_steps(i, 3, r, m).0;
    assert(r3 == RegisterState { addr: target, ..r2 });
    let r4 = run_steps(i, 4, r, m).0;
    assert(r4 == RegisterState { tmp: m@[target as int], ..r3 });
    assert(modify_next(op, r4).tmp == modify_next(op, RegisterState { tmp: m@[target as int], ..r }).tmp);
    assert(modify_next(op, r4).status == modify_next(op, RegisterState { tmp: m@[target as int], ..r }).status);
}

/// The pointer that an indirect-indexed instruction reads from the zero page:
/// the little-endian word at the zero-page operand (its second byte taken
/// from the next zero-page address, wrapping within the page).
pub open spec fn zero_page_pointer(m: BasicRam, zp: u8) -> u16 {
    make_word(m@[((zp + 1) % 256) as int], m@[zp as int])
}

/// An indirect-indexed store (STA (zp),Y) writes the stored register at the
/// pointer read from the zero page plus the index register, as a full 16-bit
/// sum (the carry goes into the high byte), and writes nothing else.
#[verifier::spinoff_prover]
#[verifier::rlimit(40)]
pub proof fn lemma_indirect_indexed_store(
    op: RegisterMemoryOperation,
    idx: IndexRegister,
    r: RegisterState,
    m: BasicRam,
)
    requires
        is_store(op),
    ensures
        ({
            let (r1, m1) = run_steps(Instruction::ZeroPageIndirectIdxWrite(op, idx), 5, r, m);
            let target = effective_address(
                zero_page_pointer(m, m@[r.pc as int]),
                index_value(r, idx),
            ) as int;
            &&& m1@[target] == stored_register(op, r)
            &&& forall|a: int| 0 <= a < 65536 && a != target ==> m1@[a] == m@[a]
            &&& r1.pc == inc16(r.pc)
            &&& r1.a == r.a && r1.x == r.x && r1.y == r.y && r1.status == r.status
        }),
{
    reveal(run_steps);
    reveal_with_fuel(run_steps, 6);
    let i = Instruction::ZeroPageIndirectIdxWrite(op, idx);
    let zp = m@[r.pc as int];
    let r1 = run_steps(i, 1, r, m).0;
    assert(r1.addr == make_word(0, zp));
    assert(make_word(0, zp) == zp);
    let p = RegisterState { addr: zero_page_pointer(m, zp), ..run_steps(i, 2, r, m).0 };
    assert(run_steps(i, 3, r, m).0 == indexed(p, idx));
    lemma_index_then_fix(p, idx);
}

/// An indirect-indexed read (LDA/ORA/ADC/CMP... (zp),Y) takes its operand
/// from the pointer read from the zero page plus the index register, as a
/// full 16-bit sum, whether or not the addition crosses a page: after its
/// last step the registers are those of the operation on that byte. Only the
/// number of steps depends on the crossing (one more when it crosses), and
/// memory is unchanged.
#[verifier::spinoff_prover]
#[verifier::rlimit(40)]
pub proof fn lemma_indirect_indexed_read(
    op: RegisterMemoryOperation,
    idx: IndexRegister,
    r: RegisterState,
    m: BasicRam,
)
    requires
        !is_store(op),
        !(op is BitImmediate),
    ensures
        ({
            let i = Instruction::ZeroPageIndirectIdxRead(op, idx);
            let zp = m@[r.pc as int];
            let ptr = zero_page_pointer(m, zp);
            let target = effective_address(ptr, index_value(r, idx));
            let crossed = lo_byte(ptr) + index_value(r, idx) > 255;
            let n: nat = if crossed { 5 } else { 4 };
            let (rn, mn) = run_steps(i, n, r, m);
            &&& rn == op_next(
                op,
                RegisterState { addr: target, pc: inc16(r.pc), tmp: m@[zp as int], ..r },
                m@[target as int],
            )
            &&& mn == m
            &&& forall|d: u8| !(#[trigger] cycle_next(i, (n - 1) as u8, run_steps(i, (n - 1) as nat, r, m).0, d).1 is Continue)
            &&& crossed ==> forall|d: u8| (#[trigger] cycle_next(i, 3, run_steps(i, 3, r, m).0, d).1 is Continue)
        }),
{
    reveal(run_steps);
    reveal_with_fuel(run_steps, 6);
    let i = Instruction::ZeroPageIndirectIdxRead(op, idx);
    let zp = m@[r.pc as int];
    assert(make_word(0, zp) == zp);
    let r2 = run_steps(i, 2, r, m).0;
    assert(r2.tmp == m@[zp as int]);
    let p = RegisterState { addr: zero_page_pointer(m, zp), ..r2 };
    assert(run_steps(i, 3, r, m).0 == indexed(p, idx));
    assert(run_steps(i, 3, r, m).1 == m);
    lemma_index_then_fix(p, idx);
}

/// An indexed absolute read (LDA/ORA/ADC/CMP... abs,X and abs,Y) takes its
/// operand from the operand address plus the index register, as a full
/// 16-bit sum, whether or not the addition crosses a page; only the number of
/// steps depends on the crossing, and memory is unchanged.
#[verifier::spinoff_prover]
#[verifier::rlimit(40)]
pub proof fn lemma_absolute_indexed_read(
    op: RegisterMemoryOperation,
    idx: IndexRegister,
    r: RegisterState,
    m: BasicRam,
)
    requires
        !is_store(op),
        !(op is BitImmediate),
    ensures
        ({
            let i = Instruction::AbsoluteIdxRead(op, idx);
            let base = make_word(m@[inc16(r.pc) as int], m@[r.pc as int]);
            let target = effective_address(base, index_value(r, idx));
            let crossed = lo_byte(base) + index_value(r, idx) > 255;
            let n: nat = if crossed { 4 } else { 3 };
            let (rn, mn) = run_steps(i, n, r, m);
            &&& rn == op_next(
                op,
                RegisterState { addr: target, pc: inc16(inc16(r.pc)), ..r },
                m@[target as int],
            )
            &&& mn == m
            &&& forall|d: u8| !(#[trigger] cycle_next(i, (n - 1) as u8, run_steps(i, (n - 1) as nat, r, m).0, d).1 is Continue)
        }),
{
    reveal(run_steps);
    reveal_with_fuel(run_steps, 5);
    let i = Instruction::AbsoluteIdxRead(op, idx);
    let r2 = run_steps(i, 2, r, m).0;
    assert(r2.addr == make_word(m@[inc16(r.pc) as int], m@[r.pc as int]));
    assert(run_steps(i, 2, r, m).1 == m);
    lemma_index_then_fix(r2, idx);
}

/// An indirect-indexed read-modify-write reads its operand at the pointer
/// read from the zero page plus the index register, as a full 16-bit sum, and
/// leaves there the modified value; no other byte changes.
#[verifier::spinoff_prover]
#[verifier::rlimit(40)]
pub proof fn lemma_indirect_indexed_modify(
    op: MemoryModifyOperation,
    idx: IndexRegister,
    r: RegisterState,
    m: BasicRam,
)
    ensures
        ({
            let (r1, m1) = run_steps(
                Instruction::ZeroPageIndirectIdxReadModifyWrite(op, idx),
                7,
                r,
                m,
            );
            let target = effective_address(
                zero_page_pointer(m, m@[r.pc as int]),
                index_value(r, idx),
            ) as int;
            let result = modify_next(op, RegisterState { tmp: m@[target], ..r });
            &&& m1@[target] == result.tmp
            &&& forall|a: int| 0 <= a < 65536 && a != target ==> m1@[a] == m@[a]
            &&& r1.status == result.status
            &&& r1.pc == inc16(r.pc)
            &&& r1.a == r.a && r1.x == r.x && r1.y == r.y
        }),
{
    reveal(run_steps);
    reveal_with_fuel(run_steps, 8);
    let i = Instruction::ZeroPageIndirectIdxReadModifyWrite(op, idx);
    let zp = m@[r.pc as int];
    assert(make_word(0, zp) == zp);
    let p = RegisterState { addr: zero_page_pointer(m, zp), ..run_steps(i, 2, r, m).0 };
    assert(run_steps(i, 3, r, m).0 == indexed(p, idx));
    assert(run_steps(i, 3, r, m).1 == m);
    lemma_index_then_fix(p, idx);
    let target = effective_address(p.addr, index_value(r, idx));
    let r5 = run_steps(i, 5, r, m).0;
    assert(run_steps(i, 4, r, m).1 == m);
    assert(r5.tmp == m@[target as int]);
    assert(r5.status == r.status);
    assert(modify_next(op, r5).tmp == modify_next(op, RegisterState { tmp: m@[target as int], ..r }).tmp);
    assert(modify_next(op, r5).status == modify_next(op, RegisterState { tmp: m@[target as int], ..r }).status);
}

/// A zero-page indexed access (zp,X and zp,Y) stays in the zero page: its
/// address is the zero-page operand plus the index register modulo 256. A
/// store writes the stored register there and nothing else; any other
/// operation takes its operand from there and leaves memory unchanged.
#[verifier::spinoff_prover]
#[verifier::rlimit(40)]
pub proof fn lemma_zero_page_indexed_access(
    op: RegisterMemoryOperation,
    idx: IndexRegister,
    r: RegisterState,
    m: BasicRam,
)
    requires
        !(op is BitImmediate),
    ensures
        ({
            let (r1, m1) = run_steps(Instruction::ZeroPageIdx(op, idx), 3, r, m);
            let target = (m@[r.pc as int] + index_value(r, idx)) % 256;
            &&& is_store(op) ==> m1@[target] == stored_register(op, r) && r1.a == r.a && r1.x
                == r.x && r1.y == r.y && r1.status == r.status
            &&& is_store(op) ==> forall|a: int| 0 <= a < 65536 && a != target ==> m1@[a] == m@[a]
            &&& !is_store(op) ==> m1 == m && r1 == op_next(
                op,
                RegisterState { addr: target as u16, pc: inc16(r.pc), ..r },
                m@[target],
            )
            &&& r1.pc == inc16(r.pc)
        }),
{
    reveal(run_steps);
    reveal_with_fuel(run_steps, 4);
    let i = Instruction::ZeroPageIdx(op, idx);
    let zp = m@[r.pc as int];
    let r1 = run_steps(i, 1, r, m).0;
    assert(r1.addr == make_word(0, zp));
    assert(lo_byte(r1.addr) == zp && hi_byte(r1.addr) == 0);
    let r2 = run_steps(i, 2, r, m).0;
    assert(r2.addr == make_word(0, ((zp + index_value(r, idx)) % 256) as u8));
}

/// A zero-page indexed read-modify-write stays in the zero page: it reads
/// and writes back at the zero-page operand plus the index register modulo
/// 256, and changes no other byte.
#[verifier::spinoff_prover]
#[verifier::rlimit(40)]
pub proof fn lemma_zero_page_indexed_modify(
    op: MemoryModifyOperation,
    idx: IndexRegister,
    r: RegisterState,
    m: BasicRam,
)
    ensures
        ({
            let (r1, m1) = run_steps(Instruction::ZeroPageIdxReadModifyWrite(op, idx), 5, r, m);
            let target = (m@[r.pc as int] + index_value(r, idx)) % 256;
            let result = modify_next(op, RegisterState { tmp: m@[target], ..r });
            &&& m1@[target] == result.tmp
            &&& forall|a: int| 0 <= a < 65536 && a != target ==> m1@[a] == m@[a]
            &&& r1.status == result.status
            &&& r1.pc == inc16(r.pc)
            &&& r1.a == r.a && r1.x == r.x && r1.y == r.y
        }),
{
    reveal(run_steps);
    reveal_with_fuel(run_steps, 6);
    let i = Instruction::ZeroPageIdxReadModifyWrite(op, idx);
    let zp = m@[r.pc as int];
    let target = (zp + index_value(r, idx)) % 256;
    let r1 = run_steps(i, 1, r, m).0;
    assert(r1.addr == make_word(0, zp));
    assert(lo_byte(r1.addr) == zp && hi_byte(r1.addr) == 0);
    let r2 = run_steps(i, 2, r, m).0;
    assert(r2.addr == make_word(0, target as u8));
    assert(r2.addr == target);
    let r3 = run_steps(i, 3, r, m).0;
    assert(r3.tmp == m@[target]);
    assert(modify_next(op, r3).tmp == modify_next(op, RegisterState { tmp: m@[target], ..r }).tmp);
    assert(modify_next(op, r3).status == modify_next(op, RegisterState { tmp: m@[target], ..r }).status);
}

/// An indexed-indirect access ((zp,X)) reads its pointer in the zero page at
/// the operand plus the index register modulo 256 (the high byte from the
/// next zero-page address, wrapping within the page) and accesses the
/// pointed address itself. A store writes the stored register there and
/// nothing else; any other operation takes its operand from there and leaves
/// memory unchanged.
#[verifier::spinoff_prover]
#[verifier::rlimit(40)]
pub proof fn lemma_indexed_indirect_access(
    op: RegisterMemoryOperation,
    idx: IndexRegister,
    r: RegisterState,
    m: BasicRam,
)
    requires
        !(op is BitImmediate),
    ensures
        ({
            let (r1, m1) = run_steps(Instruction::ZeroPageIdxIndirect(op, idx), 5, r, m);
            let zp = ((m@[r.pc as int] + index_value(r, idx)) % 256) as u8;
            let target = zero_page_pointer(m, zp) as int;
            &&& is_store(op) ==> m1@[target] == stored_register(op, r) && r1.a == r.a && r1.x
                == r.x && r1.y == r.y && r1.status == r.status
            &&& is_store(op) ==> forall|a: int| 0 <= a < 65536 && a != target ==> m1@[a] == m@[a]
            &&& !is_store(op) ==> m1 == m && r1 == op_next(
                op,
                RegisterState { addr: target as u16, pc: inc16(r.pc), tmp: m@[zp as int], ..r },
                m@[target],
            )
            &&& r1.pc == inc16(r.pc)
        }),
{
    reveal(run_steps);
    reveal_with_fuel(run_steps, 6);
    let i = Instruction::ZeroPageIdxIndirect(op, idx);
    let zp0 = m@[r.pc as int];
    let zp = ((zp0 + index_value(r, idx)) % 256) as u8;
    let r1 = run_steps(i, 1, r, m).0;
    assert(r1.addr == make_word(0, zp0));
    assert(lo_byte(r1.addr) == zp0 && hi_byte(r1.addr) == 0);
    let r2 = run_steps(i, 2, r, m).0;
    assert(r2.addr == make_word(0, zp));
    assert(r2.addr == zp);
    assert(crate::instr::cycle::next_in_page(r2.addr) == (zp + 1) % 256);
}

/// An absolute access reads or writes at the little-endian word after the
/// opcode. A store writes the stored register there and nothing else; any
/// other operation takes its operand from there and leaves memory unchanged.
#[verifier::spinoff_prover]
#[verifier::rlimit(40)]
pub proof fn lemma_absolute_access(op: RegisterMemoryOperation, r: RegisterState, m: BasicRam)
    requires
        !(op is BitImmediate),
    ensures
        ({
            let (r1, m1) = run_steps(Instruction::Absolute(op), 3, r, m);
            let target = make_word(m@[inc16(r.pc) as int], m@[r.pc as int]) as int;
            &&& is_store(op) ==> m1@[target] == stored_register(op, r) && r1.a == r.a && r1.x
                == r.x && r1.y == r.y && r1.status == r.status
            &&& is_store(op) ==> forall|a: int| 0 <= a < 65536 && a != target ==> m1@[a] == m@[a]
            &&& !is_store(op) ==> m1 == m && r1 == op_next(
                op,
                RegisterState { addr: target as u16, pc: inc16(inc16(r.pc)), ..r },
                m@[target],
            )
            &&& r1.pc == inc16(inc16(r.pc))
        }),
{
    reveal(run_steps);
    reveal_with_fuel(run_steps, 4);
    let r2 = run_steps(Instruction::Absolute(op), 2, r, m).0;
    assert(r2.addr == make_word(m@[inc16(r.pc) as int], m@[r.pc as int]));
}

/// A zero-page access reads or writes at the zero-page operand. A store
/// writes the stored register there and nothing else; any other operation
/// takes its operand from there and leaves memory unchanged.
#[verifier::spinoff_prover]
#[verifier::rlimit(40)]
pub proof fn lemma_zero_page_access(op: RegisterMemoryOperation, r: RegisterState, m: BasicRam)
    requires
        !(op is BitImmediate),
    ensures
        ({
            let (r1, m1) = run_steps(Instruction::ZeroPage(op), 2, r, m);
            let target = m@[r.pc as int] as int;
            &&& is_store(op) ==> m1@[target] == stored_register(op, r) && r1.a == r.a && r1.x
                == r.x && r1.y == r.y && r1.status == r.status
            &&& is_store(op) ==> forall|a: int| 0 <= a < 65536 && a != target ==> m1@[a] == m@[a]
            &&& !is_store(op) ==> m1 == m && r1 == op_next(
                op,
                RegisterState { addr: target as u16, pc: inc16(r.pc), ..r },
                m@[target],
            )
            &&& r1.pc == inc16(r.pc)
        }),
{
    reveal(run_steps);
    reveal_with_fuel(run_steps, 3);
    assert(make_word(0, m@[r.pc as int]) == m@[r.pc as int]);
}

/// A zero-page or absolute read-modify-write reads its operand at the
/// zero-page operand, or at the little-endian word after the opcode, and
/// leaves there the modified value; no other byte changes.
#[verifier::spinoff_prover]
#[verifier::rlimit(40)]
pub proof fn lemma_direct_modify(op: MemoryModifyOperation, r: RegisterState, m: BasicRam)
    ensures
        ({
            let (r1, m1) = run_steps(Instruction::ZeroPageReadModifyWrite(op), 4, r, m);
            let target = m@[r.pc as int] as int;
            let result = modify_next(op, RegisterState { tmp: m@[target], ..r });
            &&& m1@[target] == result.tmp
            &&& forall|a: int| 0 <= a < 65536 && a != target ==> m1@[a] == m@[a]
            &&& r1.status == result.status
            &&& r1.pc == inc16(r.pc)
        }),
        ({
            let (r1, m1) = run_steps(Instruction::AbsoluteReadModifyWrite(op), 5, r, m);
            let target = make_word(m@[inc16(r.pc) as int], m@[r.pc as int]) as int;
            let result = modify_next(op, RegisterState { tmp: m@[target], ..r });
            &&& m1@[target] == result.tmp
            &&& forall|a: int| 0 <= a < 65536 && a != target ==> m1@[a] == m@[a]
            &&& r1.status == result.status
            &&& r1.pc == inc16(inc16(r.pc))
        }),
{
    reveal(run_steps);
    reveal_with_fuel(run_steps, 6);
    let zp = m@[r.pc as int];
    assert(make_word(0, zp) == zp);
    let z = Instruction::ZeroPageReadModifyWrite(op);
    let z2 = run_steps(z, 2, r, m).0;
    assert(z2.tmp == m@[zp as int]);
    assert(modify_next(op, z2).tmp == modify_next(op, RegisterState { tmp: m@[zp as int], ..r }).tmp);
    assert(modify_next(op, z2).status == modify_next(op, RegisterState { tmp: m@[zp as int], ..r }).status);
    let a = Instruction::AbsoluteReadModifyWrite(op);
    let t = make_word(m@[inc16(r.pc) as int], m@[r.pc as int]);
    let a3 = run_steps(a, 3, r, m).0;
    assert(run_steps(a, 2, r, m).0.addr == t);
    assert(a3.tmp == m@[t as int]);
    assert(modify_next(op, a3).tmp == modify_next(op, RegisterState { tmp: m@[t as int], ..r }).tmp);
    assert(modify_next(op, a3).status == modify_next(op, RegisterState { tmp: m@[t as int], ..r }).status);
}

/// A conditional branch takes the relative offset after its opcode: when
/// taken, execution continues at the address after the branch (two bytes
/// past its opcode) plus the offset read as a signed byte, wrapping at
/// 65536, and a third cycle is spent exactly when that target lies in
/// another page than the address after the branch; when not taken, the next
/// opcode is fetched in the second cycle from the address after the branch.
#[verifier::spinoff_prover]
#[verifier::rlimit(40)]
pub proof fn lemma_branch(op: BranchOperation, r: RegisterState, m: BasicRam)
    ensures
        ({
            let i = Instruction::Relative(op);
            let off = m@[r.pc as int];
            let next = inc16(r.pc);
            let target = ((next + (if off < 128 { off as int } else { off - 256 }) + 65536) % 65536) as u16;
            let r1 = run_steps(i, 1, r, m).0;
            let r2 = run_steps(i, 2, r, m).0;
            &&& branch_taken(op, r.status) ==> r2.pc == target && (cycle_next(
                i,
                1,
                r1,
                m@[next as int],
            ).1 is Continue <==> hi_byte(target) != hi_byte(next))
            &&& !branch_taken(op, r.status) ==> r2.pc == inc16(next) && r2.ir == m@[next as int]
                && cycle_next(i, 1, r1, m@[next as int]).1
                == (ClockEndStatus::EndInstructionNextFetched { opcode_addr: next })
            &&& r2.a == r.a && r2.x == r.x && r2.y == r.y && r2.status == r.status
            &&& run_steps(i, 2, r, m).1 == m
        }),
{
    reveal(run_steps);
    reveal_with_fuel(run_steps, 3);
}

/// Which flag each branch tests: BPL/BMI bit 7 (N), BVC/BVS bit 6 (V),
/// BNE/BEQ bit 1 (Z) and BCC/BCS bit 0 (C) of the status, each pair taken on
/// opposite values.
pub proof fn lemma_branch_conditions(s: u8)
    ensures
        branch_taken(BranchOperation::BranchPlus, s) == (s & 0x80 == 0),
        branch_taken(BranchOperation::BranchMinus, s) == (s & 0x80 != 0),
        branch_taken(BranchOperation::BranchOverflowClear, s) == (s & 0x40 == 0),
        branch_taken(BranchOperation::BranchOverflowSet, s) == (s & 0x40 != 0),
        branch_taken(BranchOperation::BranchNotEqual, s) == (s & 0x02 == 0),
        branch_taken(BranchOperation::BranchEqual, s) == (s & 0x02 != 0),
        branch_taken(BranchOperation::BranchCarryClear, s) == (s & 0x01 == 0),
        branch_taken(BranchOperation::BranchCarrySet, s) == (s & 0x01 != 0),
{
    assert((s & 0x80 == 0x80) == (s & 0x80 != 0) && (s & 0x40 == 0x40) == (s & 0x40 != 0) && (s
        & 0x02 == 0x02) == (s & 0x02 != 0) && (s & 0x01 == 0x01) == (s & 0x01 != 0))
        by (bit_vector);
}

/// JMP abs continues at the little-endian word after the opcode, without
/// touching memory or any other register.
pub proof fn lemma_absolute_jump(r: RegisterState, m: BasicRam)
    ensures
        ({
            let (r1, m1) = run_steps(Instruction::AbsoluteJump, 2, r, m);
            &&& r1.pc == make_word(m@[inc16(r.pc) as int], m@[r.pc as int])
            &&& m1 == m
            &&& r1.a == r.a && r1.x == r.x && r1.y == r.y && r1.sp == r.sp && r1.status == r.status
        }),
{
    reveal(run_steps);
    reveal_with_fuel(run_steps, 3);
}

/// An indexed-indirect read-modify-write ((zp,X)) modifies the byte at the
/// pointer read in the zero page at the operand plus the index register
/// modulo 256, and changes no other byte.
#[verifier::spinoff_prover]
#[verifier::rlimit(40)]
pub proof fn lemma_indexed_indirect_modify(
    op: MemoryModifyOperation,
    idx: IndexRegister,
    r: RegisterState,
    m: BasicRam,
)
    ensures
        ({
            let (r1, m1) = run_steps(
                Instruction::ZeroPageIdxIndirectReadModifyWrite(op, idx),
                7,
                r,
                m,
            );
            let zp = ((m@[r.pc as int] + index_value(r, idx)) % 256) as u8;
            let target = zero_page_pointer(m, zp) as int;
            let result = modify_next(op, RegisterState { tmp: m@[target], ..r });
            &&& m1@[target] == result.tmp
            &&& forall|a: int| 0 <= a < 65536 && a != target ==> m1@[a] == m@[a]
            &&& r1.status == result.status
            &&& r1.pc == inc16(r.pc)
            &&& r1.a == r.a && r1.x == r.x && r1.y == r.y
        }),
{
    reveal(run_steps);
    reveal_with_fuel(run_steps, 8);
    let i = Instruction::ZeroPageIdxIndirectReadModifyWrite(op, idx);
    let zp0 = m@[r.pc as int];
    let zp = ((zp0 + index_value(r, idx)) % 256) as u8;
    let r1 = run_steps(i, 1, r, m).0;
    assert(r1.addr == make_word(0, zp0));
    assert(lo_byte(r1.addr) == zp0 && hi_byte(r1.addr) == 0);
    let r2 = run_steps(i, 2, r, m).0;
    assert(r2.addr == make_word(0, zp));
    assert(r2.addr == zp);
    assert(crate::instr::cycle::next_in_page(r2.addr) == (zp + 1) % 256);
    let t = zero_page_pointer(m, zp);
    let r4 = run_steps(i, 4, r, m).0;
    assert(r4.addr == t);
    let r5 = run_steps(i, 5, r, m).0;
    assert(r5.tmp == m@[t as int]);
    assert(r5.status == r.status);
    assert(modify_next(op, r5).tmp == modify_next(op, RegisterState { tmp: m@[t as int], ..r }).tmp);
    assert(modify_next(op, r5).status == modify_next(op, RegisterState { tmp: m@[t as int], ..r }).status);
}

} // verus!
