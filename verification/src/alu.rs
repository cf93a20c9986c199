//! The arithmetic and logic unit: what each operation computes and which
//! flags it leaves, stated over the integers and computed on bytes.

use vstd::prelude::*;
use crate::flags::{carry_of, pack, parity_of, sign_of, unpack, zero_of, Flags};

verus! {

/// A byte read as a two's complement number.
pub open spec fn signed8(v: u8) -> int {
    if v < 128 {
        v as int
    } else {
        v - 256
    }
}

/// A word read as a two's complement number.
pub open spec fn signed16(v: u16) -> int {
    if v < 32768 {
        v as int
    } else {
        v - 65536
    }
}

/// The carry that enters an addition: one if the flag is set.
pub open spec fn carry_in(c: bool) -> int {
    if c {
        1
    } else {
        0
    }
}

/// Whether an even number of the eight bits of `v` are set.
pub open spec fn even_parity(v: u8) -> bool {
    (v % 2 + v / 2 % 2 + v / 4 % 2 + v / 8 % 2 + v / 16 % 2 + v / 32 % 2 + v / 64 % 2 + v / 128) % 2
        == 0
}

/// The register pair made of a high and a low byte.
pub open spec fn pair(hi: u8, lo: u8) -> u16 {
    (hi * 256 + lo) as u16
}

/// `base` moved by the signed displacement `d`, modulo 65536.
pub open spec fn displaced(base: u16, d: u8) -> u16 {
    ((base + signed8(d)) % 65536) as u16
}

/// The accumulator after adding `r` and the carry `c` to `a`.
pub open spec fn add8_value(a: u8, r: u8, c: bool) -> u8 {
    ((a + r + carry_in(c)) % 256) as u8
}

/// The flags after adding `r` and the carry `c` to `a`. Sign, zero and carry
/// are those of the full sum, half-carry is the carry out of bit 3, and the
/// overflow bit says that the signed sum does not fit a byte.
pub open spec fn add8_flags(a: u8, r: u8, c: bool, before: Flags) -> Flags {
    let sum = a + r + carry_in(c);
    let signed_sum = signed8(a) + signed8(r) + carry_in(c);
    Flags {
        sign: sum % 256 >= 128,
        zero: sum % 256 == 0,
        half: a % 16 + r % 16 + carry_in(c) >= 16,
        parity: signed_sum < -128 || signed_sum > 127,
        negative: false,
        carry: sum >= 256,
        ..before
    }
}

/// The flags after comparing `a` with `n`, that is after computing `a - n`
/// and dropping the difference.
pub open spec fn compare8_flags(a: u8, n: u8, before: Flags) -> Flags {
    let signed_diff = signed8(a) - signed8(n);
    Flags {
        sign: (a - n) % 256 >= 128,
        zero: a == n,
        half: a % 16 < n % 16,
        parity: signed_diff < -128 || signed_diff > 127,
        negative: true,
        carry: a < n,
        ..before
    }
}

/// The flags after the bitwise and of two bytes has given `value`.
pub open spec fn and8_flags(value: u8, before: Flags) -> Flags {
    Flags {
        sign: value >= 128,
        zero: value == 0,
        half: true,
        parity: even_parity(value),
        negative: false,
        carry: false,
        ..before
    }
}

/// The word after adding `y` and the carry `c` to `x`.
pub open spec fn add16_value(x: u16, y: u16, c: bool) -> u16 {
    ((x + y + carry_in(c)) % 65536) as u16
}

/// The flags after a 16-bit addition without carry: only half-carry (out of
/// bit 11), the subtract flag and carry change.
pub open spec fn add16_flags(x: u16, y: u16, before: Flags) -> Flags {
    Flags { half: x % 4096 + y % 4096 >= 4096, negative: false, carry: x + y >= 65536, ..before }
}

/// The flags after a 16-bit addition with carry.
pub open spec fn adc16_flags(x: u16, y: u16, c: bool, before: Flags) -> Flags {
    let sum = x + y + carry_in(c);
    let signed_sum = signed16(x) + signed16(y) + carry_in(c);
    Flags {
        sign: sum % 65536 >= 32768,
        zero: sum % 65536 == 0,
        half: x % 4096 + y % 4096 + carry_in(c) >= 4096,
        parity: signed_sum < -32768 || signed_sum > 32767,
        negative: false,
        carry: sum >= 65536,
        ..before
    }
}

/// Whether bit `b` of `v` is set. Of `b` only the low three bits count, as
/// in the opcode's bit field.
pub open spec fn bit_is_set(v: u8, b: u8) -> bool {
    (v >> (b % 8)) & 1 == 1
}

/// The flags after testing bit `b` of `v`: zero says that the bit is clear,
/// carry stays, sign and parity are reset.
pub open spec fn bit_flags(v: u8, b: u8, before: Flags) -> Flags {
    Flags {
        sign: false,
        zero: !bit_is_set(v, b),
        half: true,
        parity: false,
        negative: false,
        ..before
    }
}

/// Joins a high and a low byte into a register pair.
pub fn get16(hi: u8, lo: u8) -> (v: u16)
    ensures
        v == pair(hi, lo),
{
    let v: u16 = ((hi as u16) << 8) | (lo as u16);
    assert(((hi as u16) << 8) | (lo as u16) == (hi as u16) * 256 + (lo as u16)) by (bit_vector);
    v
}

/// Splits a register pair into its high and its low byte.
pub fn split16(v: u16) -> (out: (u8, u8))
    ensures
        pair(out.0, out.1) == v,
        out.0 == v / 256,
        out.1 == v % 256,
{
    assert((v >> 8) == v / 256 && (v & 0xFF) == v % 256) by (bit_vector);
    ((v >> 8) as u8, (v & 0xFF) as u8)
}

/// Moves `base` by a displacement byte, which is sign-extended before the
/// wrapping addition.
pub fn displace(base: u16, d: u8) -> (v: u16)
    ensures
        v == displaced(base, d),
{
    if d < 128 {
        base.wrapping_add(d as u16)
    } else {
        base.wrapping_sub(256 - d as u16)
    }
}

/// Even parity of a byte.
pub fn parity(v: u8) -> (p: bool)
    ensures
        p == even_parity(v),
{
    let x: u8 = v ^ (v >> 4);
    let y: u8 = x ^ (x >> 2);
    let z: u8 = y ^ (y >> 1);
    assert((z & 1 == 0) == ((v % 2 + v / 2 % 2 + v / 4 % 2 + v / 8 % 2 + v / 16 % 2 + v / 32 % 2 + v
        / 64 % 2 + v / 128) % 2 == 0)) by (bit_vector)
        requires
            x == v ^ (v >> 4),
            y == x ^ (x >> 2),
            z == y ^ (y >> 1),
    ;
    z & 1 == 0
}

/// What the bits of the operands and of an 8-bit sum tell: the exclusive or
/// of all three has in each bit the carry that entered it, the sum's sign
/// differs from that of both operands exactly on overflow, and bit 8 of the
/// full sum is the carry.
spec fn sum8_bits(a: u8, r: u8, cin: u8, sum: u16, res: u8) -> bool {
    &&& ((a ^ r ^ res) & 0x10 != 0) == ((a & 15) + (r & 15) + cin >= 16)
    &&& a & 15 == a % 16
    &&& r & 15 == r % 16
    &&& ((a ^ res) & (r ^ res) & 0x80 != 0) == ((a < 128) == (r < 128) && (a < 128) != (res < 128))
    &&& (res & 0x80 != 0) == (res >= 128)
    &&& sum & 0xFF == sum % 256
    &&& (sum & 0x100 != 0) == (sum >= 256)
}

proof fn sum8_bits_hold(a: u8, r: u8, cin: u8, sum: u16, res: u8)
    requires
        cin <= 1,
        sum == a as u16 + r as u16 + cin as u16,
        res as u16 == sum & 0xFF,
    ensures
        sum8_bits(a, r, cin, sum, res),
{
    assert(sum8_bits(a, r, cin, sum, res)) by (bit_vector)
        requires
            cin <= 1,
            sum == a as u16 + r as u16 + cin as u16,
            res as u16 == sum & 0xFF,
    ;
}

/// What the bits of the operands and of an 8-bit difference tell: the
/// exclusive or of all three has in each bit the borrow that entered it, and
/// the operands differ in sign, as do minuend and difference, exactly on
/// overflow.
spec fn difference8_bits(a: u8, n: u8, res: u8) -> bool {
    &&& ((a ^ n ^ res) & 0x10 != 0) == ((a & 15) < (n & 15))
    &&& a & 15 == a % 16
    &&& n & 15 == n % 16
    &&& ((a ^ n) & (a ^ res) & 0x80 != 0) == ((a < 128) != (n < 128) && (a < 128) != (res < 128))
    &&& (res & 0x80 != 0) == (res >= 128)
}

proof fn difference8_bits_hold(a: u8, n: u8, res: u8)
    requires
        res == (if a < n { a - n + 256 } else { a - n }),
    ensures
        difference8_bits(a, n, res),
{
    assert(difference8_bits(a, n, res)) by (bit_vector)
        requires
            res == (if a < n { a - n + 256 } else { a - n }),
    ;
}

/// What the bits of the operands and of a 16-bit sum tell, as for a byte.
spec fn sum16_bits(x: u16, y: u16, cin: u16, sum: u32, res: u16) -> bool {
    &&& ((x ^ y ^ res) & 0x1000 != 0) == ((x & 4095) + (y & 4095) + cin >= 4096)
    &&& x & 4095 == x % 4096
    &&& y & 4095 == y % 4096
    &&& ((x ^ res) & (y ^ res) & 0x8000 != 0) == ((x < 32768) == (y < 32768) && (x < 32768) != (res
        < 32768))
    &&& (res & 0x8000 != 0) == (res >= 32768)
    &&& sum & 0xFFFF == sum % 65536
    &&& (sum & 0x10000 != 0) == (sum >= 65536)
}

proof fn sum16_bits_hold(x: u16, y: u16, cin: u16, sum: u32, res: u16)
    requires
        cin <= 1,
        sum == x as u32 + y as u32 + cin as u32,
        res as u32 == sum & 0xFFFF,
    ensures
        sum16_bits(x, y, cin, sum, res),
{
    assert(sum16_bits(x, y, cin, sum, res)) by (bit_vector)
        requires
            cin <= 1,
            sum == x as u32 + y as u32 + cin as u32,
            res as u32 == sum & 0xFFFF,
    ;
}

/// Adds `r` and the carry `c` to `a`: the sum modulo 256 and the new flags.
pub fn add8(a: u8, r: u8, c: bool, f: u8) -> (out: (u8, u8))
    ensures
        out.0 == add8_value(a, r, c),
        out.1 == add8_flags(a, r, c, unpack(f)).byte(),
{
    let cin: u8 = if c { 1 } else { 0 };
    let sum: u16 = a as u16 + r as u16 + cin as u16;
    assert(sum & 0xFF < 256) by (bit_vector);
    let res: u8 = (sum & 0xFF) as u8;
    let half = (a ^ r ^ res) & 0x10 != 0;
    let over = (a ^ res) & (r ^ res) & 0x80 != 0;
    proof {
        sum8_bits_hold(a, r, cin, sum, res);
    }
    (res, pack(f, res & 0x80 != 0, res == 0, half, over, false, sum & 0x100 != 0))
}

/// Compares `a` with `n`: the flags of `a - n`.
pub fn compare8(a: u8, n: u8, f: u8) -> (g: u8)
    ensures
        g == compare8_flags(a, n, unpack(f)).byte(),
{
    let res: u8 = a.wrapping_sub(n);
    let half = (a ^ n ^ res) & 0x10 != 0;
    let over = (a ^ n) & (a ^ res) & 0x80 != 0;
    proof {
        difference8_bits_hold(a, n, res);
    }
    pack(f, res & 0x80 != 0, a == n, half, over, true, a < n)
}

/// The bitwise and of `a` and `r`, and the new flags.
pub fn and8(a: u8, r: u8, f: u8) -> (out: (u8, u8))
    ensures
        out.0 == a & r,
        out.1 == and8_flags(out.0, unpack(f)).byte(),
{
    let res: u8 = a & r;
    assert((res & 0x80 != 0) == (res >= 128)) by (bit_vector);
    (res, pack(f, res & 0x80 != 0, res == 0, true, parity(res), false, false))
}

/// Adds `y` to `x` without carry: the sum modulo 65536 and the new flags.
pub fn add16(x: u16, y: u16, f: u8) -> (out: (u16, u8))
    ensures
        out.0 == add16_value(x, y, false),
        out.1 == add16_flags(x, y, unpack(f)).byte(),
{
    let sum: u32 = x as u32 + y as u32;
    assert(sum & 0xFFFF < 65536) by (bit_vector);
    let res: u16 = (sum & 0xFFFF) as u16;
    let half = (x ^ y ^ res) & 0x1000 != 0;
    proof {
        sum16_bits_hold(x, y, 0, sum, res);
    }
    (res, pack(f, sign_of(f), zero_of(f), half, parity_of(f), false, sum & 0x10000 != 0))
}

/// Adds `y` and the carry `c` to `x`: the sum modulo 65536 and the new flags.
pub fn adc16(x: u16, y: u16, c: bool, f: u8) -> (out: (u16, u8))
    ensures
        out.0 == add16_value(x, y, c),
        out.1 == adc16_flags(x, y, c, unpack(f)).byte(),
{
    let cin: u16 = if c { 1 } else { 0 };
    let sum: u32 = x as u32 + y as u32 + cin as u32;
    assert(sum & 0xFFFF < 65536) by (bit_vector);
    let res: u16 = (sum & 0xFFFF) as u16;
    let half = (x ^ y ^ res) & 0x1000 != 0;
    let over = (x ^ res) & (y ^ res) & 0x8000 != 0;
    proof {
        sum16_bits_hold(x, y, cin, sum, res);
    }
    (res, pack(f, res & 0x8000 != 0, res == 0, half, over, false, sum & 0x10000 != 0))
}

/// Tests bit `b` of `v`.
pub fn test_bit(v: u8, b: u8, f: u8) -> (g: u8)
    ensures
        g == bit_flags(v, b, unpack(f)).byte(),
{
    let n: u8 = b & 7;
    assert(b & 7 == b % 8) by (bit_vector);
    let set = (v >> n) & 1 == 1;
    pack(f, false, !set, true, false, false, carry_of(f))
}

} // verus!
