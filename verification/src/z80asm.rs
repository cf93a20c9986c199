//! A small assembler: each call appends one instruction to a buffer of
//! whole sectors. The buffer never grows: there must be room for what is
//! appended.

use vstd::prelude::*;
use crate::alu::pair;
use crate::instr::{decoded, known, Cond, Instr};

verus! {

pub struct Z80Buf {
    buf: Vec<u8>,
    pos: usize,
    len: usize,
}

impl Z80Buf {
    /// The buffer is as long as it was made, and the position is within it.
    #[verifier::type_invariant]
    spec fn inv(self) -> bool {
        self.buf@.len() == self.len && self.pos <= self.len
    }

    /// The bytes of the buffer: what was assembled, then zeroes.
    pub closed spec fn bytes(self) -> Seq<u8> {
        self.buf@
    }

    /// Where the next instruction goes.
    pub closed spec fn position(self) -> nat {
        self.pos as nat
    }

    /// The bytes of a buffer with `code` in place of what was at `at`.
    pub open spec fn patched(bytes: Seq<u8>, at: nat, code: Seq<u8>) -> Seq<u8> {
        Seq::new(
            bytes.len(),
            |i: int|
                if at <= i < at + code.len() {
                    code[i - at]
                } else {
                    bytes[i]
                },
        )
    }

    /// Whether this buffer is `before` with `code` assembled at its position.
    pub open spec fn appended(self, before: Z80Buf, code: Seq<u8>) -> bool {
        &&& self.position() == before.position() + code.len()
        &&& self.bytes() == Z80Buf::patched(before.bytes(), before.position(), code)
    }

    /// An empty buffer of `numsec` sectors of 128 bytes, all zero.
    pub fn new(numsec: usize) -> (z: Z80Buf)
        requires
            numsec * 128 <= usize::MAX,
        ensures
            z.position() == 0,
            z.bytes() == Seq::new((numsec * 128) as nat, |i: int| 0u8),
    {
        let mut buf: Vec<u8> = Vec::new();
        let len: usize = numsec * 128;
        buf.resize(len, 0);
        assert(buf@ =~= Seq::new((numsec * 128) as nat, |i: int| 0u8));
        Z80Buf { buf, pos: 0, len }
    }

    /// The bytes of the buffer.
    pub fn get_buf(&self) -> (bytes: &[u8])
        ensures
            bytes@ == self.bytes(),
    {
        self.buf.as_slice()
    }

    /// The number of bytes that can still be assembled.
    pub fn remaining(&self) -> (n: usize)
        ensures
            n == self.bytes().len() - self.position(),
    {
        proof {
            use_type_invariant(self);
        }
        self.len - self.pos
    }

    /// Appends the instruction that loads `n` into the accumulator.
    pub fn lda(&mut self, n: u8)
        requires
            old(self).position() + 2 <= old(self).bytes().len(),
        ensures
            final(self).appended(*old(self), seq![0x3Eu8, n]),
    {
        self.put(0x3E);
        self.put(n);
        assert(final(self).bytes() =~= Z80Buf::patched(
            old(self).bytes(),
            old(self).position(),
            seq![0x3Eu8, n],
        ));
    }

    /// Appends the instruction that writes the accumulator to the port `n`.
    pub fn outa(&mut self, n: u8)
        requires
            old(self).position() + 2 <= old(self).bytes().len(),
        ensures
            final(self).appended(*old(self), seq![0xD3u8, n]),
    {
        self.put(0xD3);
        self.put(n);
        assert(final(self).bytes() =~= Z80Buf::patched(
            old(self).bytes(),
            old(self).position(),
            seq![0xD3u8, n],
        ));
    }

    /// Appends the instruction that reads the port `n` into the accumulator.
    pub fn ina(&mut self, n: u8)
        requires
            old(self).position() + 2 <= old(self).bytes().len(),
        ensures
            final(self).appended(*old(self), seq![0xDBu8, n]),
    {
        self.put(0xDB);
        self.put(n);
        assert(final(self).bytes() =~= Z80Buf::patched(
            old(self).bytes(),
            old(self).position(),
            seq![0xDBu8, n],
        ));
    }

    /// Appends the instruction that compares the accumulator with `n`.
    pub fn cpa(&mut self, n: u8)
        requires
            old(self).position() + 2 <= old(self).bytes().len(),
        ensures
            final(self).appended(*old(self), seq![0xFEu8, n]),
    {
        self.put(0xFE);
        self.put(n);
        assert(final(self).bytes() =~= Z80Buf::patched(
            old(self).bytes(),
            old(self).position(),
            seq![0xFEu8, n],
        ));
    }

    /// Appends the instruction that jumps by the signed displacement `d` if
    /// the zero flag is set.
    pub fn jrz(&mut self, d: u8)
        requires
            old(self).position() + 2 <= old(self).bytes().len(),
        ensures
            final(self).appended(*old(self), seq![0x28u8, d]),
    {
        self.put(0x28);
        self.put(d);
        assert(final(self).bytes() =~= Z80Buf::patched(
            old(self).bytes(),
            old(self).position(),
            seq![0x28u8, d],
        ));
    }

    /// Appends the instruction that jumps to the address `n`.
    pub fn jp(&mut self, n: u16)
        requires
            old(self).position() + 3 <= old(self).bytes().len(),
        ensures
            final(self).appended(*old(self), seq![0xC3u8, (n % 256) as u8, (n / 256) as u8]),
    {
        self.put(0xC3);
        self.put16(n);
        assert(final(self).bytes() =~= Z80Buf::patched(
            old(self).bytes(),
            old(self).position(),
            seq![0xC3u8, (n % 256) as u8, (n / 256) as u8],
        ));
    }

    /// Appends the instruction that halts the processor.
    pub fn hlt(&mut self)
        requires
            old(self).position() + 1 <= old(self).bytes().len(),
        ensures
            final(self).appended(*old(self), seq![0x76u8]),
    {
        self.put(0x76);
        assert(final(self).bytes() =~= Z80Buf::patched(
            old(self).bytes(),
            old(self).position(),
            seq![0x76u8],
        ));
    }

    /// Appends a byte.
    fn put(&mut self, n: u8)
        requires
            old(self).position() < old(self).bytes().len(),
        ensures
            final(self).position() == old(self).position() + 1,
            final(self).bytes() == old(self).bytes().update(old(self).position() as int, n),
    {
        proof {
            use_type_invariant(&*self);
        }
        let pos = self.pos;
        self.buf[pos] = n;
        self.pos = pos + 1;
    }

    /// Appends a word, low byte first.
    fn put16(&mut self, n: u16)
        requires
            old(self).position() + 2 <= old(self).bytes().len(),
        ensures
            final(self).position() == old(self).position() + 2,
            final(self).bytes() == old(self).bytes().update(
                old(self).position() as int,
                (n % 256) as u8,
            ).update(old(self).position() + 1 as int, (n / 256) as u8),
    {
        let (hi, lo) = crate::alu::split16(n);
        self.put(lo);
        self.put(hi);
    }
}

/// What the assembler emits is what the processor decodes: the bytes of
/// each instruction, whatever follows them, stand for that instruction with
/// the same operand.
pub proof fn assembled_is_decoded(n: u8, nn: u16, x: u8, y: u8)
    ensures
        decoded(0x3E, n, x) == known(Instr::LdA(n), 2),
        decoded(0xD3, n, x) == known(Instr::Out(n), 2),
        decoded(0xDB, n, x) == known(Instr::In(n), 2),
        decoded(0xFE, n, x) == known(Instr::Cp(n), 2),
        decoded(0x28, n, x) == known(Instr::Jr(Cond::Zero, n), 2),
        decoded(0xC3, (nn % 256) as u8, (nn / 256) as u8) == known(Instr::Jp(nn), 3),
        decoded(0x76, x, y) == known(Instr::Halt, 1),
{
    reveal(decoded);
    assert(pair((nn / 256) as u8, (nn % 256) as u8) == nn);
}

} // verus!
