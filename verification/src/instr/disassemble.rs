//! Disassembly of the instruction at an address, written as one log line
//! together with the CPU state.
//!
//! The bytes at the address are read through the memory space and handed to
//! the `disasm6502` crate, which turns the first instruction among them into
//! its hexadecimal bytes and its assembler mnemonic.
use crate::cpu::{Cpu, CpuState};
use crate::log_buffer::{
    all_ascii, fitting_text, lemma_fitting_append, lemma_fitting_all, line_buffer_chars,
    line_buffer_len, line_buffer_write_char, line_buffer_write_pieces, log_buffer_as_str,
    log_buffer_chars, log_buffer_new, strs_view,
};
use crate::memory::{lemma_read_array_result, read_bytes, reads_state, MemorySpace};
use crate::registers::register_file::lemma_log_line_ascii;
use crate::registers::{hex_byte, hex_digit, log_line};
use crate::text::{dec_digits, lemma_dec_digits_ascii, push_decimal, push_hex_byte, string_push};
use arrayvec::ArrayString;
use vstd::prelude::*;
use vstd::seq_lib::lemma_flatten_concat;

verus! {

/// The hexadecimal bytes of the first instruction that `disasm6502` decodes
/// from `bytes` placed at `addr` (`Instruction::as_hex_str`).
pub uninterp spec fn disasm_hex(bytes: Seq<u8>, addr: u16) -> Seq<char>;

/// The assembler mnemonic of the first instruction that `disasm6502` decodes
/// from `bytes` placed at `addr` (`Instruction::as_str`).
pub uninterp spec fn disasm_mnemonic(bytes: Seq<u8>, addr: u16) -> Seq<char>;

/// `disasm6502::from_addr_array` on the six bytes placed at `addr`, and the
/// hexadecimal text (`as_hex_str`) and mnemonic (`as_str`) of the first
/// instruction it returns.
///
/// The crate's source decodes every opcode, so for six bytes the call returns
/// `Ok` with at least one instruction. The hexadecimal text is the opcode in
/// two upper-case digits followed by six characters for the operand; the
/// mnemonic is three letters, a space and an operand of at most seven
/// characters. All of them are ASCII.
#[verifier::external_body]
fn disasm_first(bytes: &[u8; 6], addr: u16) -> (r: (String, String))
    ensures
        r.0@ == disasm_hex(bytes@, addr),
        r.1@ == disasm_mnemonic(bytes@, addr),
        r.0@.len() == 8,
        r.0@.take(2) == hex_byte(bytes@[0]),
        4 <= r.1@.len() <= 11,
        all_ascii(r.0@),
        all_ascii(r.1@),
{
    let instructions = disasm6502::from_addr_array(bytes, addr).expect("every opcode decodes");
    let first = &instructions[0];
    (first.as_hex_str(), first.as_str())
}

/// The disassembly of the first instruction: its bytes, a space and its
/// mnemonic.
pub open spec fn disasm_text(bytes: Seq<u8>, addr: u16) -> Seq<char> {
    disasm_hex(bytes, addr) + seq![' '] + disasm_mnemonic(bytes, addr)
}

/// Four upper-case hexadecimal digits of a word.
pub open spec fn hex_word(v: u16) -> Seq<char> {
    hex_byte((v / 256) as u8) + hex_byte((v % 256) as u8)
}

/// The instruction part of a disassembly line: the address, a space, the
/// instruction's bytes, a space and its mnemonic.
pub open spec fn instr_line_text(addr: u16, hex: Seq<char>, mnemonic: Seq<char>) -> Seq<char> {
    hex_word(addr) + seq![' '] + hex + seq![' '] + mnemonic
}

/// The instruction part of the disassembly line of `bytes` placed at `addr`.
pub open spec fn instr_text(bytes: Seq<u8>, addr: u16) -> Seq<char> {
    instr_line_text(addr, disasm_hex(bytes, addr), disasm_mnemonic(bytes, addr))
}

/// The number of spaces that pad the instruction part to 25 characters.
pub open spec fn pad_len(text: Seq<char>) -> nat {
    if text.len() < 25 {
        (25 - text.len()) as nat
    } else {
        0
    }
}

/// The pieces that a disassembly line is written in: the instruction part,
/// one space at a time up to column 25, the register line, " CYC:" and the
/// decimal cycle count.
pub open spec fn line_pieces(addr: u16, hex: Seq<char>, mnemonic: Seq<char>, c: CpuState) -> Seq<
    Seq<char>,
> {
    let text = instr_line_text(addr, hex, mnemonic);
    seq![text] + Seq::new(pad_len(text), |i: int| seq![' ']) + seq![
        log_line(c.regs),
        seq![' ', 'C', 'Y', 'C', ':'],
        dec_digits(c.cycles as nat),
    ]
}

/// The pieces of the disassembly line of `bytes` placed at `addr`.
pub open spec fn disasm_pieces(bytes: Seq<u8>, addr: u16, c: CpuState) -> Seq<Seq<char>> {
    line_pieces(addr, disasm_hex(bytes, addr), disasm_mnemonic(bytes, addr), c)
}

/// The whole disassembly line: the instruction part padded with spaces to
/// 25 characters, the register line, " CYC:" and the decimal cycle count.
pub open spec fn disasm_line(bytes: Seq<u8>, addr: u16, c: CpuState) -> Seq<char> {
    disasm_pieces(bytes, addr, c).flatten()
}

/// Disassembles the instruction at `addr` and appends it to `dst` as a log
/// line with the CPU state: the address in four hexadecimal digits, the
/// instruction's bytes and mnemonic, padded with spaces to 25 characters,
/// then the register line, " CYC:" and the cycle count.
///
/// The six bytes at `addr` are read through `memory` (six reads, one after the
/// other). The line is written in pieces; it succeeds when the whole line fits
/// in `dst`, and otherwise stops at the first piece that does not fit.
pub fn disassemble<M: MemorySpace>(
    addr: u16,
    memory: &mut M,
    cpu: &Cpu,
    dst: &mut ArrayString<128>,
) -> (r: core::fmt::Result)
    requires
        addr + 6 <= 65536,
    ensures
        *final(memory) == reads_state(*old(memory), addr, 6),
        line_buffer_len(*old(dst)) <= 128,
        r is Ok <==> line_buffer_len(*old(dst)) + disasm_line(
            read_bytes(*old(memory), addr, 6),
            addr,
            cpu@,
        ).len() <= 128,
        r is Ok ==> line_buffer_chars(*final(dst)) == line_buffer_chars(*old(dst)) + disasm_line(
            read_bytes(*old(memory), addr, 6),
            addr,
            cpu@,
        ),
        line_buffer_chars(*final(dst)) == line_buffer_chars(*old(dst)) + fitting_text(
            128 - line_buffer_len(*old(dst)),
            disasm_pieces(read_bytes(*old(memory), addr, 6), addr, cpu@),
        ),
{
    let mut assembly = [0u8; 6];
    memory.read_array(addr, &mut assembly);
    let ghost bytes = assembly@;
    proof {
        lemma_read_array_result(*old(memory), addr, bytes, *memory);
    }
    let (hex, mnemonic) = disasm_first(&assembly, addr);
    write_disassembly_line(addr, hex.as_str(), mnemonic.as_str(), cpu, dst)
}

/// Appends to `dst` the disassembly line of an instruction at `addr` whose
/// bytes and mnemonic, as `disasm6502` writes them, are `hex` and `mnemonic`:
/// the address in four hexadecimal digits, `hex` and `mnemonic`, padded with
/// spaces to 25 characters, then the register line, " CYC:" and the cycle
/// count. The line is written in the pieces of `line_pieces`; it succeeds when
/// the whole line fits in `dst`, and otherwise stops at the first piece that
/// does not fit.
pub fn write_disassembly_line(
    addr: u16,
    hex: &str,
    mnemonic: &str,
    cpu: &Cpu,
    dst: &mut ArrayString<128>,
) -> (r: core::fmt::Result)
    requires
        all_ascii(hex@),
        all_ascii(mnemonic@),
    ensures
        line_buffer_len(*old(dst)) <= 128,
        r is Ok <==> line_buffer_len(*old(dst)) + line_pieces(addr, hex@, mnemonic@, cpu@).flatten().len()
            <= 128,
        r is Ok ==> line_buffer_chars(*final(dst)) == line_buffer_chars(*old(dst)) + line_pieces(
            addr,
            hex@,
            mnemonic@,
            cpu@,
        ).flatten(),
        line_buffer_chars(*final(dst)) == line_buffer_chars(*old(dst)) + fitting_text(
            128 - line_buffer_len(*old(dst)),
            line_pieces(addr, hex@, mnemonic@, cpu@),
        ),
{
    // The instruction part.
    let mut instr = String::new();
    push_hex_byte(&mut instr, (addr / 256) as u8);
    push_hex_byte(&mut instr, (addr % 256) as u8);
    string_push(&mut instr, ' ');
    instr.append(hex);
    string_push(&mut instr, ' ');
    instr.append(mnemonic);
    assert(instr@ =~= instr_line_text(addr, hex@, mnemonic@));

    // The register line.
    let mut regs = log_buffer_new();
    let written = cpu.regs_as_log_line(&mut regs);
    assert(written is Ok);
    assert(log_buffer_chars(regs) =~= log_line(cpu@.regs));

    // The cycle count.
    let mut cycles = String::new();
    push_decimal(&mut cycles, cpu.cycle_count_since_reset());
    assert(cycles@ =~= dec_digits(cpu@.cycles as nat));

    proof {
        lemma_log_line_ascii(cpu@.regs);
        lemma_dec_digits_ascii(cpu@.cycles as nat);
        lemma_hex_word_ascii(addr);
        reveal_strlit(" CYC:");
    }
    let cyc = " CYC:";
    assert(cyc@ =~= seq![' ', 'C', 'Y', 'C', ':']);

    let ghost room: int = 128 - line_buffer_len(*dst);
    let ghost old_chars = line_buffer_chars(*dst);
    let ghost text = instr_line_text(addr, hex@, mnemonic@);
    let ghost pieces = line_pieces(addr, hex@, mnemonic@, cpu@);
    let ghost head = seq![text];
    let pad: usize = if instr.as_str().unicode_len() < 25 {
        25 - instr.as_str().unicode_len()
    } else {
        0
    };
    assert(pad == pad_len(text));
    let ghost spaces = Seq::new(pad as nat, |i: int| seq![' ']);
    let ghost tail = seq![log_line(cpu@.regs), seq![' ', 'C', 'Y', 'C', ':'], dec_digits(cpu@.cycles as nat)];
    assert(pieces =~= head + spaces + tail);
    proof {
        head.lemma_flatten_one_element();
        lemma_flatten_concat(head + spaces, tail);
        lemma_flatten_concat(head, spaces);
    }

    // The instruction part, then spaces up to column 25.
    let instr_str = instr.as_str();
    let first = [instr_str];
    assert(strs_view(first@) =~= head);
    let w = line_buffer_write_pieces(dst, &first);
    if w.is_err() {
        proof {
            lemma_fitting_append(room, head, spaces + tail);
            assert(head + (spaces + tail) =~= pieces);
            lemma_flatten_concat(head, spaces + tail);
        }
        return w;
    }
    proof {
        lemma_fitting_all(room, head);
        assert(head + spaces.take(0) =~= head);
    }
    let mut k: usize = 0;
    let ghost mut done = head;
    while k < pad
        invariant
            pieces == line_pieces(addr, hex@, mnemonic@, cpu@),
            pieces == head + spaces + tail,
            pad == spaces.len(),
            spaces == Seq::new(pad as nat, |i: int| seq![' ']),
            k <= pad,
            done == head + spaces.take(k as int),
            done.flatten().len() <= room,
            room == 128 - line_buffer_len(*old(dst)),
            line_buffer_len(*old(dst)) <= 128,
            line_buffer_chars(*dst) == line_buffer_chars(*old(dst)) + done.flatten(),
            line_buffer_len(*dst) == line_buffer_len(*old(dst)) + done.flatten().len(),
        decreases pad - k,
    {
        let w = line_buffer_write_char(dst, ' ');
        if w.is_err() {
            proof {
                let rest = spaces.skip(k as int) + tail;
                assert(done + rest =~= head + spaces + tail);
                lemma_fitting_append(room, done, rest);
                assert(rest[0] == seq![' ']);
                assert(fitting_text(room - done.flatten().len(), rest) =~= Seq::<char>::empty());
                lemma_flatten_concat(done, rest);
                rest.lemma_flatten_and_flatten_alt_are_equivalent();
                rest.lemma_flatten_length_ge_single_element_length(0);
                assert(fitting_text(room, done) == done.flatten()) by {
                    lemma_fitting_all(room, done);
                }
            }
            return w;
        }
        proof {
            assert(spaces.take(k + 1) =~= spaces.take(k as int).push(seq![' ']));
            assert(head + spaces.take(k + 1) =~= done.push(seq![' ']));
            done.lemma_flatten_push(seq![' ']);
            done = done.push(seq![' ']);
        }
        k += 1;
    }
    assert(spaces.take(pad as int) =~= spaces);

    // The register line, " CYC:" and the cycle count.
    let regs_str = log_buffer_as_str(&regs);
    let cycles_str = cycles.as_str();
    let rest = [regs_str, cyc, cycles_str];
    assert(strs_view(rest@) =~= tail);
    let w = line_buffer_write_pieces(dst, &rest);
    proof {
        lemma_fitting_append(room, done, tail);
        assert(done + tail =~= pieces);
        lemma_flatten_concat(done, tail);
        lemma_fitting_all(room, done);
        lemma_fitting_all(room, pieces);
    }
    w
}

/// Four hexadecimal digits are ASCII.
proof fn lemma_hex_word_ascii(v: u16)
    ensures
        all_ascii(hex_word(v)),
{
    assert forall|b: u8| b < 16 implies (#[trigger] hex_digit(b) as u32) < 128 by {}
}

} // verus!
