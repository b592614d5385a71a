use super::{Reg16, Reg8, StatusReg};
use crate::log_buffer::{
    all_ascii, fitting_text, lemma_fitting_all, log_buffer_chars, log_buffer_len,
    log_buffer_write_pieces, strs_view,
};
use arrayvec::ArrayString;
use crate::registers::reg16::{push_reg16_debug_text, reg16_debug_text};
use crate::registers::reg8::{push_reg8_debug_text, reg8_debug_text};
use crate::registers::status_register::{push_status_debug_text, status_debug_text};
use crate::text::{push_chars, push_hex_byte};
use vstd::prelude::*;
use vstd::seq_lib::lemma_flatten_concat;

verus! {

/// One of the two index registers.
#[derive(Copy, Clone, PartialEq, Eq, Structural, Debug)]
pub enum IndexRegister {
    /// The X index register.
    X,
    /// The Y index register.
    Y,
}

impl Default for IndexRegister {
    fn default() -> (r: Self)
        ensures
            r == IndexRegister::X,
    {
        IndexRegister::X
    }
}

/// The contents of all registers, as plain values.
pub struct RegisterState {
    /// Accumulator (A).
    pub a: u8,
    /// X index register.
    pub x: u8,
    /// Y index register.
    pub y: u8,
    /// Stack pointer (low byte of the stack address in page 1).
    pub sp: u8,
    /// Program counter.
    pub pc: u16,
    /// Status register flags.
    pub status: u8,
    /// Instruction register (opcode of the current instruction).
    pub ir: u8,
    /// Internal temporary register.
    pub tmp: u8,
    /// Internal address register.
    pub addr: u16,
}

/// The value of an index register in a register state.
pub open spec fn index_value(r: RegisterState, idx: IndexRegister) -> u8 {
    match idx {
        IndexRegister::X => r.x,
        IndexRegister::Y => r.y,
    }
}

/// The complete set of registers of the 6502 CPU.
///
/// Besides the programmer-visible registers (A, X, Y, SP, PC and the status
/// register), it holds the internal registers used while an instruction runs
/// over several cycles: the instruction register, a temporary register and the
/// address register.
#[derive(Clone, Copy, PartialEq, Eq, Structural, Debug)]
pub struct RegisterFile {
    /// Accumulator register (A).
    pub a: Reg8,
    /// X index register.
    pub x: Reg8,
    /// Y index register.
    pub y: Reg8,
    /// Stack pointer (SP): the next free location of the stack in page 1.
    pub sp: Reg8,
    /// Program counter (PC).
    pub pc: Reg16,
    /// Processor status register.
    pub status: StatusReg,
    /// Instruction register (IR): the opcode of the current instruction.
    pub ir: Reg8,
    /// Temporary register used while an instruction executes.
    pub tmp: Reg8,
    /// Address register used while an instruction executes.
    pub addr: Reg16,
}

impl View for RegisterFile {
    type V = RegisterState;

    open spec fn view(&self) -> RegisterState {
        RegisterState {
            a: self.a@,
            x: self.x@,
            y: self.y@,
            sp: self.sp@,
            pc: self.pc@,
            status: self.status@,
            ir: self.ir@,
            tmp: self.tmp@,
            addr: self.addr@,
        }
    }
}

impl Default for RegisterFile {
    fn default() -> (r: Self)
        ensures
            r@ == (RegisterState {
                a: 0,
                x: 0,
                y: 0,
                sp: 0,
                pc: 0,
                status: 0,
                ir: 0,
                tmp: 0,
                addr: 0,
            }),
    {
        RegisterFile {
            a: Reg8::default(),
            x: Reg8::default(),
            y: Reg8::default(),
            sp: Reg8::default(),
            pc: Reg16::default(),
            status: StatusReg::default(),
            ir: Reg8::default(),
            tmp: Reg8::default(),
            addr: Reg16::default(),
        }
    }
}

/// Hexadecimal digit (upper case) of a value below 16.
pub open spec fn hex_digit(v: u8) -> char {
    if v < 10 {
        (('0' as u8) + v) as char
    } else {
        (('A' as u8) + (v - 10)) as char
    }
}

/// Two upper-case hexadecimal digits of a byte.
pub open spec fn hex_byte(v: u8) -> Seq<char> {
    seq![hex_digit(v / 16), hex_digit(v % 16)]
}

/// The register log line: `\t\tA:XX X:XX Y:XX P:XX SP:XX`.
pub open spec fn log_line(r: RegisterState) -> Seq<char> {
    seq!['\t', '\t', 'A', ':'] + hex_byte(r.a) + seq![' ', 'X', ':'] + hex_byte(r.x) + seq![
        ' ',
        'Y',
        ':',
    ] + hex_byte(r.y) + seq![' ', 'P', ':'] + hex_byte(r.status) + seq![' ', 'S', 'P', ':']
        + hex_byte(r.sp)
}

impl RegisterFile {
    /// Resets the registers: A, X, Y, PC, SP and IR become 0, the status
    /// register takes its reset value and the address register becomes
    /// 0x00FF; the temporary register is left as it is.
    pub fn reset(&mut self)
        ensures
            final(self)@ == (RegisterState {
                a: 0,
                x: 0,
                y: 0,
                sp: 0,
                pc: 0,
                status: 0x24,
                ir: 0,
                tmp: old(self)@.tmp,
                addr: 0x00FF,
            }),
    {
        self.a.reset();
        self.x.reset();
        self.y.reset();
        self.pc.reset();
        self.sp.reset();
        self.ir.reset();
        self.status.reset();

        self.addr.set_u16(0x00FF);
    }

    /// The value of the X or Y index register.
    pub fn index_register_u8(&self, index_reg: IndexRegister) -> (r: u8)
        ensures
            r == index_value(self@, index_reg),
    {
        match index_reg {
            IndexRegister::X => self.x.to_u8(),
            IndexRegister::Y => self.y.to_u8(),
        }
    }

    /// Appends the log line of the main registers (`log_line`, 27 ASCII
    /// characters: `\t\tA:XX X:XX Y:XX P:XX SP:XX`) to `dst`, as `write!` does with the format
    /// `"\t\tA:{:02X} X:{:02X} Y:{:02X} P:{:02X} SP:{:02X}"`: in the pieces
    /// of `log_pieces`, each written whole or not at all. When a piece does not
    /// fit, writing stops there and an error is returned.
    pub fn as_log_line(&self, dst: &mut ArrayString<32>) -> (r: core::fmt::Result)
        ensures
            log_buffer_len(*old(dst)) <= 32,
            r is Ok <==> log_buffer_len(*old(dst)) + 27 <= 32,
            r is Ok ==> log_buffer_chars(*final(dst)) == log_buffer_chars(*old(dst)) + log_line(self@),
            log_buffer_chars(*final(dst)) == log_buffer_chars(*old(dst)) + fitting_text(
                32 - log_buffer_len(*old(dst)),
                log_pieces(self@),
            ),
    {
        let ha = hex_string(self.a.to_u8());
        let hx = hex_string(self.x.to_u8());
        let hy = hex_string(self.y.to_u8());
        let hp = hex_string(self.status.to_u8());
        let hs = hex_string(self.sp.to_u8());
        proof {
            reveal_strlit("\t\tA:");
            reveal_strlit(" X:");
            reveal_strlit(" Y:");
            reveal_strlit(" P:");
            reveal_strlit(" SP:");
            assert("\t\tA:"@ =~= seq!['\t', '\t', 'A', ':']);
            assert(" X:"@ =~= seq![' ', 'X', ':']);
            assert(" Y:"@ =~= seq![' ', 'Y', ':']);
            assert(" P:"@ =~= seq![' ', 'P', ':']);
            assert(" SP:"@ =~= seq![' ', 'S', 'P', ':']);
        }
        let mut pieces: Vec<&str> = Vec::new();
        push_piece(&mut pieces, "\t\tA:");
        push_hex_pieces(&mut pieces, &ha, self.a.to_u8());
        push_piece(&mut pieces, " X:");
        push_hex_pieces(&mut pieces, &hx, self.x.to_u8());
        push_piece(&mut pieces, " Y:");
        push_hex_pieces(&mut pieces, &hy, self.y.to_u8());
        push_piece(&mut pieces, " P:");
        push_hex_pieces(&mut pieces, &hp, self.status.to_u8());
        push_piece(&mut pieces, " SP:");
        push_hex_pieces(&mut pieces, &hs, self.sp.to_u8());
        proof {
            lemma_log_pieces(self@);
            lemma_log_line_ascii(self@);
            assert(strs_view(pieces@) =~= log_pieces(self@));
            assert forall|i: int| 0 <= i < pieces@.len() implies all_ascii(#[trigger] pieces@[i]@) by {
                assert(pieces@[i]@ == strs_view(pieces@)[i]);
                lemma_log_piece_ascii(self@, i);
            }
        }
        let r = log_buffer_write_pieces(dst, pieces.as_slice());
        proof {
            if r is Ok {
                lemma_fitting_all(32 - log_buffer_len(*old(dst)), log_pieces(self@));
            }
        }
        r
    }
}

/// Two upper-case hexadecimal digits of `v` as a string.
fn hex_string(v: u8) -> (s: String)
    ensures
        s@ == hex_byte(v),
{
    let mut s = String::new();
    push_hex_byte(&mut s, v);
    s
}

/// Appends one piece.
fn push_piece<'a>(pieces: &mut Vec<&'a str>, piece: &'a str)
    ensures
        strs_view(final(pieces)@) == strs_view(old(pieces)@) + seq![piece@],
{
    pieces.push(piece);
    assert(strs_view(pieces@) =~= strs_view(old(pieces)@) + seq![piece@]);
}

/// Hexadecimal digits are ASCII.
proof fn lemma_hex_digit_ascii(b: u8)
    requires
        b < 16,
    ensures
        (hex_digit(b) as u32) < 128,
        '\0' <= hex_digit(b) <= '\u{7f}',
{
}

/// Appends the pieces that `{:02X}` writes `v` in (see `hex_pieces`), cut
/// from `h`, its two hexadecimal digits.
fn push_hex_pieces<'a>(pieces: &mut Vec<&'a str>, h: &'a String, v: u8)
    requires
        h@ == hex_byte(v),
    ensures
        strs_view(final(pieces)@) == strs_view(old(pieces)@) + hex_pieces(v),
{
    proof {
        reveal_strlit("0");
        lemma_hex_digit_ascii(v / 16);
        lemma_hex_digit_ascii(v % 16);
        assert(vstd::utf8::is_ascii_chars(h@));
    }
    if v < 16 {
        let digit = h.as_str().substring_ascii(1, 2);
        assert(digit@ =~= seq![hex_digit(v)]);
        assert("0"@ =~= seq!['0']);
        push_piece(pieces, "0");
        push_piece(pieces, digit);
    } else {
        push_piece(pieces, h.as_str());
    }
    assert(strs_view(pieces@) =~= strs_view(old(pieces)@) + hex_pieces(v));
}

/// Every piece of the log line is ASCII.
proof fn lemma_log_piece_ascii(r: RegisterState, i: int)
    requires
        0 <= i < log_pieces(r).len(),
    ensures
        all_ascii(log_pieces(r)[i]),
{
    assert forall|b: u8| b < 16 implies (#[trigger] hex_digit(b) as u32) < 128 by {
        lemma_hex_digit_ascii(b);
    }
}

/// The pieces that `{:02X}` writes a byte in: two digits at once, or, below
/// 16, the padding zero and then the digit.
pub open spec fn hex_pieces(v: u8) -> Seq<Seq<char>> {
    if v < 16 {
        seq![seq!['0'], seq![hex_digit(v)]]
    } else {
        seq![hex_byte(v)]
    }
}

/// The pieces that the register log line is written in: the literal text
/// between the values, and the pieces of each value.
pub open spec fn log_pieces(r: RegisterState) -> Seq<Seq<char>> {
    seq![seq!['\t', '\t', 'A', ':']] + hex_pieces(r.a) + seq![seq![' ', 'X', ':']] + hex_pieces(r.x)
        + seq![seq![' ', 'Y', ':']] + hex_pieces(r.y) + seq![seq![' ', 'P', ':']] + hex_pieces(
        r.status,
    ) + seq![seq![' ', 'S', 'P', ':']] + hex_pieces(r.sp)
}

/// The pieces of a byte make up its two digits.
proof fn lemma_hex_pieces(v: u8)
    ensures
        hex_pieces(v).flatten() == hex_byte(v),
{
    if v < 16 {
        let p = hex_pieces(v);
        let z = seq![seq!['0']];
        let d = seq![seq![hex_digit(v)]];
        assert(p =~= z + d);
        lemma_flatten_concat(z, d);
        z.lemma_flatten_one_element();
        d.lemma_flatten_one_element();
        assert(hex_digit(v / 16) == '0');
        assert(p.flatten() =~= hex_byte(v));
    } else {
        hex_pieces(v).lemma_flatten_one_element();
    }
}

/// The pieces of the log line make up the log line.
proof fn lemma_log_pieces(r: RegisterState)
    ensures
        log_pieces(r).flatten() == log_line(r),
{
    let l1 = seq![seq!['\t', '\t', 'A', ':']];
    let l2 = seq![seq![' ', 'X', ':']];
    let l3 = seq![seq![' ', 'Y', ':']];
    let l4 = seq![seq![' ', 'P', ':']];
    let l5 = seq![seq![' ', 'S', 'P', ':']];
    l1.lemma_flatten_one_element();
    l2.lemma_flatten_one_element();
    l3.lemma_flatten_one_element();
    l4.lemma_flatten_one_element();
    l5.lemma_flatten_one_element();
    lemma_hex_pieces(r.a);
    lemma_hex_pieces(r.x);
    lemma_hex_pieces(r.y);
    lemma_hex_pieces(r.status);
    lemma_hex_pieces(r.sp);
    let s1 = l1 + hex_pieces(r.a);
    let s2 = s1 + l2;
    let s3 = s2 + hex_pieces(r.x);
    let s4 = s3 + l3;
    let s5 = s4 + hex_pieces(r.y);
    let s6 = s5 + l4;
    let s7 = s6 + hex_pieces(r.status);
    let s8 = s7 + l5;
    let s9 = s8 + hex_pieces(r.sp);
    lemma_flatten_concat(l1, hex_pieces(r.a));
    lemma_flatten_concat(s1, l2);
    lemma_flatten_concat(s2, hex_pieces(r.x));
    lemma_flatten_concat(s3, l3);
    lemma_flatten_concat(s4, hex_pieces(r.y));
    lemma_flatten_concat(s5, l4);
    lemma_flatten_concat(s6, hex_pieces(r.status));
    lemma_flatten_concat(s7, l5);
    lemma_flatten_concat(s8, hex_pieces(r.sp));
    assert(s9 == log_pieces(r));
    assert(s9.flatten() =~= log_line(r));
}

/// The log line holds 27 ASCII characters.
pub(crate) proof fn lemma_log_line_ascii(r: RegisterState)
    ensures
        log_line(r).len() == 27,
        forall|j: int| 0 <= j < 27 ==> (#[trigger] log_line(r)[j] as u32) < 128,
{
    assert forall|v: u8| v < 16 implies (#[trigger] hex_digit(v) as u32) < 128 by {
    }
}

/// The debug rendering of the register file: a title line, then A, X and Y,
/// then SP and PC, then the status register, each in its own debug rendering.
pub open spec fn register_file_debug_text(
    a: u8,
    x: u8,
    y: u8,
    sp: u8,
    pc: u16,
    status: u8,
) -> Seq<char> {
    seq!['\n'] + "Register File"@ + seq!['\n', '\t', 'A', ':', ' '] + reg8_debug_text(a) + seq![
        '\t',
        'X',
        ':',
        ' ',
    ] + reg8_debug_text(x) + seq!['\t', 'Y', ':', ' '] + reg8_debug_text(y) + seq![
        '\n',
        '\t',
        'S',
        'P',
        ':',
        ' ',
    ] + reg8_debug_text(sp) + seq!['\t', 'P', 'C', ':', ' '] + reg16_debug_text(pc) + seq![
        '\n',
        '\t',
    ] + "Status: "@ + status_debug_text(status) + seq!['\n']
}

impl RegisterFile {
    /// The debug rendering of the register file (see
    /// `register_file_debug_text`).
    pub fn debug_text(&self) -> (r: String)
        ensures
            r@ == register_file_debug_text(
                self.a@,
                self.x@,
                self.y@,
                self.sp@,
                self.pc@,
                self.status@,
            ),
    {
        let mut s = String::new();
        push_chars(&mut s, &['\n', 'R', 'e', 'g', 'i', 's', 't', 'e', 'r', ' ', 'F', 'i', 'l', 'e', '\n']);
        push_chars(&mut s, &['\t', 'A', ':', ' ']);
        push_reg8_debug_text(&mut s, self.a.to_u8());
        push_chars(&mut s, &['\t', 'X', ':', ' ']);
        push_reg8_debug_text(&mut s, self.x.to_u8());
        push_chars(&mut s, &['\t', 'Y', ':', ' ']);
        push_reg8_debug_text(&mut s, self.y.to_u8());
        push_chars(&mut s, &['\n', '\t', 'S', 'P', ':', ' ']);
        push_reg8_debug_text(&mut s, self.sp.to_u8());
        push_chars(&mut s, &['\t', 'P', 'C', ':', ' ']);
        push_reg16_debug_text(&mut s, self.pc.to_u16());
        push_chars(&mut s, &['\n', '\t', 'S', 't', 'a', 't', 'u', 's', ':', ' ']);
        push_status_debug_text(&mut s, &self.status);
        push_chars(&mut s, &['\n']);
        proof {
            reveal_strlit("Register File");
            reveal_strlit("Status: ");
        }
        assert(s@ =~= register_file_debug_text(
            self.a@,
            self.x@,
            self.y@,
            self.sp@,
            self.pc@,
            self.status@,
        ));
        s
    }
}

} // verus!
