//! The flag register: where each flag sits in the byte, and a view of the
//! byte as eight named bits.

use vstd::prelude::*;

verus! {

pub const CARRY_FLAG: u8 = 0x01;

pub const NEG_FLAG: u8 = 0x02;

/// Parity and overflow share one bit: logical operations leave the parity of
/// their result in it, arithmetic ones the signed overflow.
pub const PARITY_FLAG: u8 = 0x04;

pub const OVERFLOW_FLAG: u8 = 0x04;

pub const HALF_FLAG: u8 = 0x10;

pub const ZERO_FLAG: u8 = 0x40;

pub const SIGN_FLAG: u8 = 0x80;

/// Bits 3 and 5 carry no flag. Every operation hands them on unchanged.
pub const UNUSED_FLAGS: u8 = 0x28;

/// The flag register as eight named bits, most significant first.
pub struct Flags {
    pub sign: bool,
    pub zero: bool,
    pub bit5: bool,
    pub half: bool,
    pub bit3: bool,
    /// Parity after a logical operation, signed overflow after an arithmetic one.
    pub parity: bool,
    pub negative: bool,
    pub carry: bool,
}

/// The bits of a flag byte.
pub open spec fn unpack(f: u8) -> Flags {
    Flags {
        sign: f / 128 % 2 == 1,
        zero: f / 64 % 2 == 1,
        bit5: f / 32 % 2 == 1,
        half: f / 16 % 2 == 1,
        bit3: f / 8 % 2 == 1,
        parity: f / 4 % 2 == 1,
        negative: f / 2 % 2 == 1,
        carry: f % 2 == 1,
    }
}

impl Flags {
    /// The flag byte that holds these bits.
    pub open spec fn byte(self) -> u8 {
        (weigh(self.sign, 128) + weigh(self.zero, 64) + weigh(self.bit5, 32) + weigh(self.half, 16)
            + weigh(self.bit3, 8) + weigh(self.parity, 4) + weigh(self.negative, 2) + weigh(
            self.carry,
            1,
        )) as u8
    }
}

/// What a bit adds to its byte: its weight if it is set.
pub open spec fn weigh(bit: bool, weight: int) -> int {
    if bit {
        weight
    } else {
        0
    }
}

/// Packing eight bits into a byte and unpacking the byte gives the bits back.
pub proof fn unpack_of_byte(flags: Flags)
    ensures
        unpack(flags.byte()) == flags,
{
    let s: u8 = if flags.sign { 1 } else { 0 };
    let z: u8 = if flags.zero { 1 } else { 0 };
    let y: u8 = if flags.bit5 { 1 } else { 0 };
    let h: u8 = if flags.half { 1 } else { 0 };
    let x: u8 = if flags.bit3 { 1 } else { 0 };
    let p: u8 = if flags.parity { 1 } else { 0 };
    let n: u8 = if flags.negative { 1 } else { 0 };
    let c: u8 = if flags.carry { 1 } else { 0 };
    let f: u8 = flags.byte();
    assert(f == s * 128 + z * 64 + y * 32 + h * 16 + x * 8 + p * 4 + n * 2 + c);
    assert(f / 128 % 2 == s && f / 64 % 2 == z && f / 32 % 2 == y && f / 16 % 2 == h && f / 8 % 2
        == x && f / 4 % 2 == p && f / 2 % 2 == n && f % 2 == c) by (bit_vector)
        requires
            s <= 1,
            z <= 1,
            y <= 1,
            h <= 1,
            x <= 1,
            p <= 1,
            n <= 1,
            c <= 1,
            f == s * 128 + z * 64 + y * 32 + h * 16 + x * 8 + p * 4 + n * 2 + c,
    ;
}

/// Unpacking a byte and packing its bits gives the byte back.
pub proof fn byte_of_unpack(f: u8)
    ensures
        unpack(f).byte() == f,
{
    assert(f == (f / 128 % 2) * 128 + (f / 64 % 2) * 64 + (f / 32 % 2) * 32 + (f / 16 % 2) * 16 + (f
        / 8 % 2) * 8 + (f / 4 % 2) * 4 + (f / 2 % 2) * 2 + f % 2) by (bit_vector);
}

/// Whether the carry flag is set in `f`.
pub fn carry_of(f: u8) -> (c: bool)
    ensures
        c == unpack(f).carry,
{
    assert((f & 0x01 != 0) == (f % 2 == 1)) by (bit_vector);
    f & CARRY_FLAG != 0
}

/// Whether the zero flag is set in `f`.
pub fn zero_of(f: u8) -> (z: bool)
    ensures
        z == unpack(f).zero,
{
    assert((f & 0x40 != 0) == (f / 64 % 2 == 1)) by (bit_vector);
    f & ZERO_FLAG != 0
}

/// Whether the sign flag is set in `f`.
pub fn sign_of(f: u8) -> (s: bool)
    ensures
        s == unpack(f).sign,
{
    assert((f & 0x80 != 0) == (f / 128 % 2 == 1)) by (bit_vector);
    f & SIGN_FLAG != 0
}

/// Whether the parity and overflow flag is set in `f`.
pub fn parity_of(f: u8) -> (p: bool)
    ensures
        p == unpack(f).parity,
{
    assert((f & 0x04 != 0) == (f / 4 % 2 == 1)) by (bit_vector);
    f & PARITY_FLAG != 0
}

/// Builds a flag byte from the six flags, taking bits 3 and 5 from `before`.
pub fn pack(
    before: u8,
    sign: bool,
    zero: bool,
    half: bool,
    parity: bool,
    negative: bool,
    carry: bool,
) -> (f: u8)
    ensures
        f == (Flags { sign, zero, half, parity, negative, carry, ..unpack(before) }).byte(),
{
    let s: u8 = if sign { SIGN_FLAG } else { 0 };
    let z: u8 = if zero { ZERO_FLAG } else { 0 };
    let h: u8 = if half { HALF_FLAG } else { 0 };
    let p: u8 = if parity { PARITY_FLAG } else { 0 };
    let n: u8 = if negative { NEG_FLAG } else { 0 };
    let c: u8 = if carry { CARRY_FLAG } else { 0 };
    let f: u8 = (before & UNUSED_FLAGS) | s | z | h | p | n | c;
    assert(f / 128 % 2 == s / 128 && f / 64 % 2 == z / 64 && f / 32 % 2 == before / 32 % 2 && f
        / 16 % 2 == h / 16 && f / 8 % 2 == before / 8 % 2 && f / 4 % 2 == p / 4 && f / 2 % 2 == n
        / 2 && f % 2 == c) by (bit_vector)
        requires
            f == (before & 0x28) | s | z | h | p | n | c,
            s == 0 || s == 0x80,
            z == 0 || z == 0x40,
            h == 0 || h == 0x10,
            p == 0 || p == 0x04,
            n == 0 || n == 0x02,
            c == 0 || c == 0x01,
    ;
    proof {
        byte_of_unpack(f);
    }
    f
}

} // verus!
