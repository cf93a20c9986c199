//! The instruction set: the instructions that the processor knows, and how
//! the bytes at the program counter name one of them.

use vstd::prelude::*;
use crate::alu::pair;

verus! {

/// An 8-bit register.
#[derive(Clone, Copy, Debug, PartialEq, Eq)]
pub enum Reg8 {
    B,
    C,
    D,
    E,
    H,
    L,
    A,
}

/// Where an 8-bit operand comes from.
#[derive(Clone, Copy, Debug, PartialEq, Eq)]
pub enum Operand {
    /// A register.
    Reg(Reg8),
    /// The byte that follows the opcode.
    Imm(u8),
    /// The memory cell that HL points to.
    AtHl,
    /// The memory cell at IX plus a signed displacement.
    AtIx(u8),
    /// The memory cell at IY plus a signed displacement.
    AtIy(u8),
}

/// A 16-bit register or register pair.
#[derive(Clone, Copy, Debug, PartialEq, Eq)]
pub enum Pair {
    Bc,
    De,
    Hl,
    Sp,
    Ix,
    Iy,
}

/// The condition of a relative jump.
#[derive(Clone, Copy, Debug, PartialEq, Eq)]
pub enum Cond {
    Always,
    Zero,
    NotZero,
}

/// One instruction, with its operands.
#[derive(Clone, Copy, Debug, PartialEq, Eq)]
pub enum Instr {
    Nop,
    Halt,
    /// Exchanges A and F with their alternates.
    ExAf,
    /// Exchanges BC, DE and HL with their alternates.
    Exx,
    /// Exchanges DE and HL.
    ExDeHl,
    /// Jumps by a signed displacement if the condition holds.
    Jr(Cond, u8),
    /// Jumps to an address.
    Jp(u16),
    /// Loads a byte into the accumulator.
    LdA(u8),
    /// Compares the accumulator with a byte.
    Cp(u8),
    /// Adds the operand to the accumulator.
    Add(Operand),
    /// Adds the operand and the carry flag to the accumulator.
    Adc(Operand),
    /// Ands the operand into the accumulator.
    And(Operand),
    /// Adds the second pair to the first.
    Add16(Pair, Pair),
    /// Adds the pair and the carry flag to HL.
    Adc16(Pair),
    /// Tests a bit of the memory cell that HL points to.
    Bit(u8),
    /// Writes the accumulator to a port.
    Out(u8),
    /// Reads a port into the accumulator.
    In(u8),
}

/// An instruction as it stands in memory: what it is, and how many bytes
/// it takes.
#[derive(Clone, Copy, Debug, PartialEq, Eq)]
pub struct Decoded {
    pub instr: Instr,
    pub len: u16,
}

/// The operand that the low three bits of an opcode select.
pub open spec fn operand_selected(sel: u8) -> Operand {
    if sel == 0 {
        Operand::Reg(Reg8::B)
    } else if sel == 1 {
        Operand::Reg(Reg8::C)
    } else if sel == 2 {
        Operand::Reg(Reg8::D)
    } else if sel == 3 {
        Operand::Reg(Reg8::E)
    } else if sel == 4 {
        Operand::Reg(Reg8::H)
    } else if sel == 5 {
        Operand::Reg(Reg8::L)
    } else if sel == 6 {
        Operand::AtHl
    } else {
        Operand::Reg(Reg8::A)
    }
}

/// The pair that bits 4 and 5 of an opcode select, where `this` is the pair
/// that the instruction adds to.
pub open spec fn pair_selected(sel: u8, this: Pair) -> Pair {
    if sel == 0 {
        Pair::Bc
    } else if sel == 1 {
        Pair::De
    } else if sel == 2 {
        this
    } else {
        Pair::Sp
    }
}

/// An instruction of `len` bytes.
pub open spec fn known(instr: Instr, len: u16) -> Option<Decoded> {
    Some(Decoded { instr, len })
}

/// An opcode without prefix, followed by the bytes `n` and `m`.
pub open spec fn decoded_plain(op: u8, n: u8, m: u8) -> Option<Decoded> {
    if op == 0x00 {
        known(Instr::Nop, 1)
    } else if op == 0x08 {
        known(Instr::ExAf, 1)
    } else if op < 0x40 && op % 16 == 9 {
        known(Instr::Add16(Pair::Hl, pair_selected(op / 16, Pair::Hl)), 1)
    } else if op == 0x18 {
        known(Instr::Jr(Cond::Always, n), 2)
    } else if op == 0x20 {
        known(Instr::Jr(Cond::NotZero, n), 2)
    } else if op == 0x28 {
        known(Instr::Jr(Cond::Zero, n), 2)
    } else if op == 0x3E {
        known(Instr::LdA(n), 2)
    } else if op == 0x76 {
        known(Instr::Halt, 1)
    } else if 0x80 <= op <= 0x87 {
        known(Instr::Add(operand_selected(op % 8)), 1)
    } else if 0x88 <= op <= 0x8F {
        known(Instr::Adc(operand_selected(op % 8)), 1)
    } else if 0xA0 <= op <= 0xA7 {
        known(Instr::And(operand_selected(op % 8)), 1)
    } else if op == 0xC3 {
        known(Instr::Jp(pair(m, n)), 3)
    } else if op == 0xC6 {
        known(Instr::Add(Operand::Imm(n)), 2)
    } else if op == 0xCE {
        known(Instr::Adc(Operand::Imm(n)), 2)
    } else if op == 0xD3 {
        known(Instr::Out(n), 2)
    } else if op == 0xD9 {
        known(Instr::Exx, 1)
    } else if op == 0xDB {
        known(Instr::In(n), 2)
    } else if op == 0xE6 {
        known(Instr::And(Operand::Imm(n)), 2)
    } else if op == 0xEB {
        known(Instr::ExDeHl, 1)
    } else if op == 0xFE {
        known(Instr::Cp(n), 2)
    } else {
        None
    }
}

/// The byte `c` after the prefix 0xCB: the bit tests on the cell at HL.
pub open spec fn decoded_bits(c: u8) -> Option<Decoded> {
    if 0x40 <= c <= 0x7F && c % 8 == 6 {
        known(Instr::Bit(((c - 0x40) / 8) as u8), 2)
    } else {
        None
    }
}

/// The byte `c` after the prefix 0xED: the additions with carry to HL.
pub open spec fn decoded_extended(c: u8) -> Option<Decoded> {
    if 0x40 <= c <= 0x7F && c % 16 == 10 {
        known(Instr::Adc16(pair_selected(((c - 0x40) / 16) as u8, Pair::Hl)), 2)
    } else {
        None
    }
}

/// The byte `c` after the prefix 0xDD or 0xFD, followed by the displacement
/// `d`: the instructions on the index register `this`.
pub open spec fn decoded_indexed(c: u8, d: u8, this: Pair) -> Option<Decoded> {
    let cell = if this == Pair::Ix {
        Operand::AtIx(d)
    } else {
        Operand::AtIy(d)
    };
    if c < 0x40 && c % 16 == 9 {
        known(Instr::Add16(this, pair_selected(c / 16, this)), 2)
    } else if c == 0x86 {
        known(Instr::Add(cell), 3)
    } else if c == 0x8E {
        known(Instr::Adc(cell), 3)
    } else if c == 0xA6 {
        known(Instr::And(cell), 3)
    } else {
        None
    }
}

/// The instruction that the three bytes at the program counter stand for,
/// or none where they are not in the instruction set.
#[verifier::opaque]
pub open spec fn decoded(b0: u8, b1: u8, b2: u8) -> Option<Decoded> {
    if b0 == 0xCB {
        decoded_bits(b1)
    } else if b0 == 0xDD {
        decoded_indexed(b1, b2, Pair::Ix)
    } else if b0 == 0xED {
        decoded_extended(b1)
    } else if b0 == 0xFD {
        decoded_indexed(b1, b2, Pair::Iy)
    } else {
        decoded_plain(b0, b1, b2)
    }
}

fn select_operand(sel: u8) -> (o: Operand)
    ensures
        o == operand_selected(sel),
{
    match sel {
        0 => Operand::Reg(Reg8::B),
        1 => Operand::Reg(Reg8::C),
        2 => Operand::Reg(Reg8::D),
        3 => Operand::Reg(Reg8::E),
        4 => Operand::Reg(Reg8::H),
        5 => Operand::Reg(Reg8::L),
        6 => Operand::AtHl,
        _ => Operand::Reg(Reg8::A),
    }
}

fn select_pair(sel: u8, this: Pair) -> (p: Pair)
    ensures
        p == pair_selected(sel, this),
{
    match sel {
        0 => Pair::Bc,
        1 => Pair::De,
        2 => this,
        _ => Pair::Sp,
    }
}

fn decode_plain(op: u8, n: u8, m: u8) -> (d: Option<Decoded>)
    ensures
        d == decoded_plain(op, n, m),
{
    let instr = match op {
        0x00 => Instr::Nop,
        0x08 => Instr::ExAf,
        0x09 | 0x19 | 0x29 | 0x39 => Instr::Add16(Pair::Hl, select_pair(op / 16, Pair::Hl)),
        0x18 => Instr::Jr(Cond::Always, n),
        0x20 => Instr::Jr(Cond::NotZero, n),
        0x28 => Instr::Jr(Cond::Zero, n),
        0x3E => Instr::LdA(n),
        0x76 => Instr::Halt,
        0x80..=0x87 => Instr::Add(select_operand(op % 8)),
        0x88..=0x8F => Instr::Adc(select_operand(op % 8)),
        0xA0..=0xA7 => Instr::And(select_operand(op % 8)),
        0xC3 => Instr::Jp(crate::alu::get16(m, n)),
        0xC6 => Instr::Add(Operand::Imm(n)),
        0xCE => Instr::Adc(Operand::Imm(n)),
        0xD3 => Instr::Out(n),
        0xD9 => Instr::Exx,
        0xDB => Instr::In(n),
        0xE6 => Instr::And(Operand::Imm(n)),
        0xEB => Instr::ExDeHl,
        0xFE => Instr::Cp(n),
        _ => {
            return None;
        },
    };
    let len: u16 = match op {
        0xC3 => 3,
        0x18 | 0x20 | 0x28 | 0x3E | 0xC6 | 0xCE | 0xD3 | 0xDB | 0xE6 | 0xFE => 2,
        _ => 1,
    };
    Some(Decoded { instr, len })
}

fn decode_bits(c: u8) -> (d: Option<Decoded>)
    ensures
        d == decoded_bits(c),
{
    match c {
        0x46 => Some(Decoded { instr: Instr::Bit(0), len: 2 }),
        0x4E => Some(Decoded { instr: Instr::Bit(1), len: 2 }),
        0x56 => Some(Decoded { instr: Instr::Bit(2), len: 2 }),
        0x5E => Some(Decoded { instr: Instr::Bit(3), len: 2 }),
        0x66 => Some(Decoded { instr: Instr::Bit(4), len: 2 }),
        0x6E => Some(Decoded { instr: Instr::Bit(5), len: 2 }),
        0x76 => Some(Decoded { instr: Instr::Bit(6), len: 2 }),
        0x7E => Some(Decoded { instr: Instr::Bit(7), len: 2 }),
        _ => None,
    }
}

fn decode_extended(c: u8) -> (d: Option<Decoded>)
    ensures
        d == decoded_extended(c),
{
    match c {
        0x4A => Some(Decoded { instr: Instr::Adc16(Pair::Bc), len: 2 }),
        0x5A => Some(Decoded { instr: Instr::Adc16(Pair::De), len: 2 }),
        0x6A => Some(Decoded { instr: Instr::Adc16(Pair::Hl), len: 2 }),
        0x7A => Some(Decoded { instr: Instr::Adc16(Pair::Sp), len: 2 }),
        _ => None,
    }
}

fn decode_indexed(c: u8, d: u8, this: Pair) -> (out: Option<Decoded>)
    ensures
        out == decoded_indexed(c, d, this),
{
    let cell = match this {
        Pair::Ix => Operand::AtIx(d),
        _ => Operand::AtIy(d),
    };
    match c {
        0x09 => Some(Decoded { instr: Instr::Add16(this, Pair::Bc), len: 2 }),
        0x19 => Some(Decoded { instr: Instr::Add16(this, Pair::De), len: 2 }),
        0x29 => Some(Decoded { instr: Instr::Add16(this, this), len: 2 }),
        0x39 => Some(Decoded { instr: Instr::Add16(this, Pair::Sp), len: 2 }),
        0x86 => Some(Decoded { instr: Instr::Add(cell), len: 3 }),
        0x8E => Some(Decoded { instr: Instr::Adc(cell), len: 3 }),
        0xA6 => Some(Decoded { instr: Instr::And(cell), len: 3 }),
        _ => None,
    }
}

/// Decodes the three bytes at the program counter. Bytes behind the end of
/// the instruction do not matter.
pub fn decode(b0: u8, b1: u8, b2: u8) -> (d: Option<Decoded>)
    ensures
        d == decoded(b0, b1, b2),
{
    proof {
        reveal(decoded);
    }
    match b0 {
        0xCB => decode_bits(b1),
        0xDD => decode_indexed(b1, b2, Pair::Ix),
        0xED => decode_extended(b1),
        0xFD => decode_indexed(b1, b2, Pair::Iy),
        _ => decode_plain(b0, b1, b2),
    }
}

} // verus!
