//! The processor: a register file, 64KB of memory and an interpreter that
//! runs until something needs the attention of its driver.

use vstd::prelude::*;
use crate::alu::{
    adc16, add16, add16_flags, add16_value, add8, add8_flags, add8_value, adc16_flags, and8,
    and8_flags, bit_flags, compare8, compare8_flags, displace, displaced, get16, pair, signed8,
    split16, test_bit,
};
use crate::flags::{carry_of, unpack, unpack_of_byte, zero_of, Flags};
use crate::instr::{decode, decoded, Cond, Decoded, Instr, Operand, Pair, Reg8};
use crate::memory::{advance, forward, installed, store};

verus! {

/// Why the interpreter handed control back to its driver.
#[derive(Clone, Copy, Debug, PartialEq, Eq)]
pub enum StopReason {
    /// A halt instruction was executed.
    Halt,
    /// The instruction budget ran out.
    TimesliceExpired,
    /// An input instruction was executed: the driver reads `port` and puts
    /// the byte into the accumulator before it resumes.
    PortIn { port: u8 },
    /// An output instruction was executed: the driver writes `value` to `port`.
    PortOut { port: u8, value: u8 },
    /// The bytes at the program counter are no instruction of this processor.
    Illegal,
}

#[derive(Debug)]
pub struct Z80 {
    /// 64KB of memory.
    pub mem: [u8; 65536],
    /// Why the last run stopped.
    pub stop_reason: StopReason,
    /// The port named by the last input or output instruction.
    pub port_addr: u8,
    pub pc: u16,
    pub sp: u16,
    pub ix: u16,
    pub iy: u16,
    pub a: u8,
    pub f: u8,
    pub b: u8,
    pub c: u8,
    pub d: u8,
    pub e: u8,
    pub h: u8,
    pub l: u8,
    /// The alternate register set.
    pub a_alt: u8,
    pub f_alt: u8,
    pub b_alt: u8,
    pub c_alt: u8,
    pub d_alt: u8,
    pub e_alt: u8,
    pub h_alt: u8,
    pub l_alt: u8,
}

impl Clone for Z80 {
    /// A second processor in the same state.
    fn clone(&self) -> (copy: Z80)
        ensures
            copy == *self,
    {
        Z80 {
            mem: self.mem,
            stop_reason: self.stop_reason,
            port_addr: self.port_addr,
            pc: self.pc,
            sp: self.sp,
            ix: self.ix,
            iy: self.iy,
            a: self.a,
            f: self.f,
            b: self.b,
            c: self.c,
            d: self.d,
            e: self.e,
            h: self.h,
            l: self.l,
            a_alt: self.a_alt,
            f_alt: self.f_alt,
            b_alt: self.b_alt,
            c_alt: self.c_alt,
            d_alt: self.d_alt,
            e_alt: self.e_alt,
            h_alt: self.h_alt,
            l_alt: self.l_alt,
        }
    }
}

impl Z80 {
    /// All registers are zero but the program counter, which is `pc`.
    pub open spec fn registers_cleared(self, pc: u16) -> bool {
        &&& self.stop_reason == StopReason::TimesliceExpired
        &&& self.port_addr == 0
        &&& self.pc == pc
        &&& self.sp == 0
        &&& self.ix == 0
        &&& self.iy == 0
        &&& self.a == 0
        &&& self.f == 0
        &&& self.b == 0
        &&& self.c == 0
        &&& self.d == 0
        &&& self.e == 0
        &&& self.h == 0
        &&& self.l == 0
        &&& self.a_alt == 0
        &&& self.f_alt == 0
        &&& self.b_alt == 0
        &&& self.c_alt == 0
        &&& self.d_alt == 0
        &&& self.e_alt == 0
        &&& self.h_alt == 0
        &&& self.l_alt == 0
    }

    /// Zeroes every register, the program counter too. Memory stays.
    pub fn reset(&mut self)
        ensures
            final(self).registers_cleared(0),
            final(self).mem == old(self).mem,
    {
        self.stop_reason = StopReason::TimesliceExpired;
        self.port_addr = 0;
        self.pc = 0;
        self.sp = 0;
        self.ix = 0;
        self.iy = 0;
        self.a = 0;
        self.f = 0;
        self.b = 0;
        self.c = 0;
        self.d = 0;
        self.e = 0;
        self.h = 0;
        self.l = 0;
        self.a_alt = 0;
        self.f_alt = 0;
        self.b_alt = 0;
        self.c_alt = 0;
        self.d_alt = 0;
        self.e_alt = 0;
        self.h_alt = 0;
        self.l_alt = 0;
    }

    /// Copies `bytes` into memory from `addr` on, wrapping at the end of the
    /// address space. The registers stay.
    pub fn install(&mut self, bytes: &[u8], addr: u16)
        ensures
            final(self).mem@ == installed(old(self).mem@, bytes@, addr),
            *final(self) == (Z80 { mem: final(self).mem, ..*old(self) }),
    {
        store(&mut self.mem, bytes, addr);
    }

    /// The flag register as named bits.
    pub open spec fn flags(self) -> Flags {
        unpack(self.f)
    }

    /// The byte in a register.
    pub open spec fn reg(self, r: Reg8) -> u8 {
        match r {
            Reg8::B => self.b,
            Reg8::C => self.c,
            Reg8::D => self.d,
            Reg8::E => self.e,
            Reg8::H => self.h,
            Reg8::L => self.l,
            Reg8::A => self.a,
        }
    }

    /// The word in a register pair.
    pub open spec fn pair_value(self, p: Pair) -> u16 {
        match p {
            Pair::Bc => pair(self.b, self.c),
            Pair::De => pair(self.d, self.e),
            Pair::Hl => pair(self.h, self.l),
            Pair::Sp => self.sp,
            Pair::Ix => self.ix,
            Pair::Iy => self.iy,
        }
    }

    /// The processor with the word `v` in a register pair.
    pub open spec fn with_pair(self, p: Pair, v: u16) -> Z80 {
        match p {
            Pair::Bc => Z80 { b: (v / 256) as u8, c: (v % 256) as u8, ..self },
            Pair::De => Z80 { d: (v / 256) as u8, e: (v % 256) as u8, ..self },
            Pair::Hl => Z80 { h: (v / 256) as u8, l: (v % 256) as u8, ..self },
            Pair::Sp => Z80 { sp: v, ..self },
            Pair::Ix => Z80 { ix: v, ..self },
            Pair::Iy => Z80 { iy: v, ..self },
        }
    }

    /// The byte that an operand stands for. An index register's displacement
    /// is signed, and the address wraps.
    pub open spec fn operand(self, o: Operand) -> u8 {
        match o {
            Operand::Reg(r) => self.reg(r),
            Operand::Imm(n) => n,
            Operand::AtHl => self.mem[pair(self.h, self.l) as int],
            Operand::AtIx(d) => self.mem[displaced(self.ix, d) as int],
            Operand::AtIy(d) => self.mem[displaced(self.iy, d) as int],
        }
    }

    /// Whether a jump condition holds of the flags.
    pub open spec fn holds(self, cond: Cond) -> bool {
        match cond {
            Cond::Always => true,
            Cond::Zero => self.flags().zero,
            Cond::NotZero => !self.flags().zero,
        }
    }

    /// The processor after adding `r` and, if `c`, one to the accumulator.
    pub open spec fn added(self, r: u8, c: bool) -> Z80 {
        Z80 {
            a: add8_value(self.a, r, c),
            f: add8_flags(self.a, r, c, self.flags()).byte(),
            ..self
        }
    }

    /// The processor after anding `r` into the accumulator.
    pub open spec fn anded(self, r: u8) -> Z80 {
        Z80 { a: self.a & r, f: and8_flags(self.a & r, self.flags()).byte(), ..self }
    }

    /// The processor after comparing the accumulator with `n`.
    pub open spec fn compared(self, n: u8) -> Z80 {
        Z80 { f: compare8_flags(self.a, n, self.flags()).byte(), ..self }
    }

    /// The processor after adding the pair `ss` to the pair `rr`.
    pub open spec fn added16(self, rr: Pair, ss: Pair) -> Z80 {
        let x = self.pair_value(rr);
        let y = self.pair_value(ss);
        Z80 { f: add16_flags(x, y, self.flags()).byte(), ..self }.with_pair(
            rr,
            add16_value(x, y, false),
        )
    }

    /// The processor after adding the pair `ss` and the carry flag to HL.
    pub open spec fn added16_with_carry(self, ss: Pair) -> Z80 {
        let x = self.pair_value(Pair::Hl);
        let y = self.pair_value(ss);
        let c = self.flags().carry;
        Z80 { f: adc16_flags(x, y, c, self.flags()).byte(), ..self }.with_pair(
            Pair::Hl,
            add16_value(x, y, c),
        )
    }

    /// The processor after testing bit `b` of the byte `v`.
    pub open spec fn bit_tested(self, v: u8, b: u8) -> Z80 {
        Z80 { f: bit_flags(v, b, self.flags()).byte(), ..self }
    }

    /// The effect of one instruction on a processor whose program counter is
    /// already behind it, and the reason to stop, if the instruction gives one.
    pub open spec fn executed(self, instr: Instr) -> (Z80, Option<StopReason>) {
        match instr {
            Instr::Nop => (self, None),
            Instr::Halt => (self, Some(StopReason::Halt)),
            Instr::ExAf => (
                Z80 { a: self.a_alt, f: self.f_alt, a_alt: self.a, f_alt: self.f, ..self },
                None,
            ),
            Instr::Exx => (
                Z80 {
                    b: self.b_alt,
                    c: self.c_alt,
                    d: self.d_alt,
                    e: self.e_alt,
                    h: self.h_alt,
                    l: self.l_alt,
                    b_alt: self.b,
                    c_alt: self.c,
                    d_alt: self.d,
                    e_alt: self.e,
                    h_alt: self.h,
                    l_alt: self.l,
                    ..self
                },
                None,
            ),
            Instr::ExDeHl => (Z80 { d: self.h, e: self.l, h: self.d, l: self.e, ..self }, None),
            Instr::Jr(cond, d) => (
                if self.holds(cond) {
                    Z80 { pc: displaced(self.pc, d), ..self }
                } else {
                    self
                },
                None,
            ),
            Instr::Jp(target) => (Z80 { pc: target, ..self }, None),
            Instr::LdA(n) => (Z80 { a: n, ..self }, None),
            Instr::Cp(n) => (self.compared(n), None),
            Instr::Add(o) => (self.added(self.operand(o), false), None),
            Instr::Adc(o) => (self.added(self.operand(o), self.flags().carry), None),
            Instr::And(o) => (self.anded(self.operand(o)), None),
            Instr::Add16(rr, ss) => (self.added16(rr, ss), None),
            Instr::Adc16(ss) => (self.added16_with_carry(ss), None),
            Instr::Bit(b) => (self.bit_tested(self.operand(Operand::AtHl), b), None),
            Instr::Out(port) => (
                Z80 { port_addr: port, ..self },
                Some(StopReason::PortOut { port, value: self.a }),
            ),
            Instr::In(port) => (Z80 { port_addr: port, ..self }, Some(StopReason::PortIn { port })),
        }
    }

    /// The instruction at the program counter, if the bytes there are one.
    /// The three addresses wrap at the end of memory.
    pub open spec fn decoded_here(self) -> Option<Decoded> {
        decoded(
            self.mem[self.pc as int],
            self.mem[advance(self.pc, 1) as int],
            self.mem[advance(self.pc, 2) as int],
        )
    }

    /// The processor after one instruction, and the reason to stop, if there
    /// is one. The program counter first moves behind the instruction. Bytes
    /// that are no instruction stop the processor where it is.
    #[verifier::opaque]
    pub open spec fn stepped(self) -> (Z80, Option<StopReason>) {
        match self.decoded_here() {
            Some(d) => (Z80 { pc: advance(self.pc, d.len as int), ..self }).executed(d.instr),
            None => (self, Some(StopReason::Illegal)),
        }
    }

    /// The processor after a run with an instruction budget, and why it
    /// stopped. A budget of `n` allows `n` instructions: the run ends as
    /// `TimesliceExpired` once that many have been executed and none of them
    /// has stopped the processor. A budget of zero allows none.
    pub open spec fn ran(self, budget: nat) -> (Z80, StopReason)
        decreases budget,
    {
        if budget == 0 {
            (self, StopReason::TimesliceExpired)
        } else {
            let (next, stop) = self.stepped();
            match stop {
                Some(reason) => (next, reason),
                None => next.ran((budget - 1) as nat),
            }
        }
    }

    /// Reads an operand.
    pub fn read_operand(&self, o: Operand) -> (v: u8)
        ensures
            v == self.operand(o),
    {
        match o {
            Operand::Reg(Reg8::B) => self.b,
            Operand::Reg(Reg8::C) => self.c,
            Operand::Reg(Reg8::D) => self.d,
            Operand::Reg(Reg8::E) => self.e,
            Operand::Reg(Reg8::H) => self.h,
            Operand::Reg(Reg8::L) => self.l,
            Operand::Reg(Reg8::A) => self.a,
            Operand::Imm(n) => n,
            Operand::AtHl => self.mem[get16(self.h, self.l) as usize],
            Operand::AtIx(d) => self.mem[displace(self.ix, d) as usize],
            Operand::AtIy(d) => self.mem[displace(self.iy, d) as usize],
        }
    }

    /// Reads a register pair.
    pub fn read_pair(&self, p: Pair) -> (v: u16)
        ensures
            v == self.pair_value(p),
    {
        match p {
            Pair::Bc => get16(self.b, self.c),
            Pair::De => get16(self.d, self.e),
            Pair::Hl => get16(self.h, self.l),
            Pair::Sp => self.sp,
            Pair::Ix => self.ix,
            Pair::Iy => self.iy,
        }
    }

    /// Writes a register pair.
    pub fn write_pair(&mut self, p: Pair, v: u16)
        ensures
            *final(self) == old(self).with_pair(p, v),
    {
        let (hi, lo) = split16(v);
        match p {
            Pair::Bc => {
                self.b = hi;
                self.c = lo;
            },
            Pair::De => {
                self.d = hi;
                self.e = lo;
            },
            Pair::Hl => {
                self.h = hi;
                self.l = lo;
            },
            Pair::Sp => {
                self.sp = v;
            },
            Pair::Ix => {
                self.ix = v;
            },
            Pair::Iy => {
                self.iy = v;
            },
        }
    }

    /// Adds `r` to the accumulator. The sum is taken modulo 256; the zero
    /// flag says that the accumulator is now zero, the carry flag that the
    /// full sum did not fit a byte.
    pub fn add_a_r(&mut self, r: u8)
        ensures
            *final(self) == old(self).added(r, false),
            final(self).a == (old(self).a + r) % 256,
            final(self).flags().zero <==> final(self).a == 0,
            final(self).flags().carry <==> old(self).a + r >= 256,
    {
        proof {
            unpack_of_byte(add8_flags(self.a, r, false, self.flags()));
        }
        let (a, f) = add8(self.a, r, false, self.f);
        self.a = a;
        self.f = f;
    }

    /// Adds `r` and the carry flag to the accumulator.
    pub fn adc_a_r(&mut self, r: u8)
        ensures
            *final(self) == old(self).added(r, old(self).flags().carry),
    {
        let (a, f) = add8(self.a, r, carry_of(self.f), self.f);
        self.a = a;
        self.f = f;
    }

    /// Ands `r` into the accumulator.
    pub fn and_a_r(&mut self, r: u8)
        ensures
            *final(self) == old(self).anded(r),
    {
        let (a, f) = and8(self.a, r, self.f);
        self.a = a;
        self.f = f;
    }

    /// Compares the accumulator with `n`: only the flags change, and the
    /// zero flag says that the two are equal.
    pub fn cp_a_n(&mut self, n: u8)
        ensures
            *final(self) == old(self).compared(n),
            final(self).flags().zero <==> old(self).a == n,
    {
        proof {
            unpack_of_byte(compare8_flags(self.a, n, self.flags()));
        }
        self.f = compare8(self.a, n, self.f);
    }

    /// Adds the pair `ss` to the pair `rr`.
    pub fn add_rr_ss(&mut self, rr: Pair, ss: Pair)
        ensures
            *final(self) == old(self).added16(rr, ss),
    {
        let (v, f) = add16(self.read_pair(rr), self.read_pair(ss), self.f);
        self.f = f;
        self.write_pair(rr, v);
    }

    /// Adds the pair `ss` and the carry flag to HL.
    pub fn adc_hl_ss(&mut self, ss: Pair)
        ensures
            *final(self) == old(self).added16_with_carry(ss),
    {
        let (v, f) = adc16(self.read_pair(Pair::Hl), self.read_pair(ss), carry_of(self.f), self.f);
        self.f = f;
        self.write_pair(Pair::Hl, v);
    }

    /// Tests bit `b` of the byte `v`: only the flags change.
    pub fn bit_b(&mut self, v: u8, b: u8)
        ensures
            *final(self) == old(self).bit_tested(v, b),
    {
        self.f = test_bit(v, b, self.f);
    }

    /// Executes one instruction. The program counter is already behind it.
    pub fn execute(&mut self, instr: Instr) -> (stop: Option<StopReason>)
        ensures
            (*final(self), stop) == old(self).executed(instr),
    {
        match instr {
            Instr::Nop => None,
            Instr::Halt => Some(StopReason::Halt),
            Instr::ExAf => {
                let (a, f) = (self.a, self.f);
                self.a = self.a_alt;
                self.f = self.f_alt;
                self.a_alt = a;
                self.f_alt = f;
                None
            },
            Instr::Exx => {
                let (b, c, d, e, h, l) = (self.b, self.c, self.d, self.e, self.h, self.l);
                self.b = self.b_alt;
                self.c = self.c_alt;
                self.d = self.d_alt;
                self.e = self.e_alt;
                self.h = self.h_alt;
                self.l = self.l_alt;
                self.b_alt = b;
                self.c_alt = c;
                self.d_alt = d;
                self.e_alt = e;
                self.h_alt = h;
                self.l_alt = l;
                None
            },
            Instr::ExDeHl => {
                let (d, e) = (self.d, self.e);
                self.d = self.h;
                self.e = self.l;
                self.h = d;
                self.l = e;
                None
            },
            Instr::Jr(cond, d) => {
                let taken = match cond {
                    Cond::Always => true,
                    Cond::Zero => zero_of(self.f),
                    Cond::NotZero => !zero_of(self.f),
                };
                if taken {
                    self.pc = displace(self.pc, d);
                }
                None
            },
            Instr::Jp(target) => {
                self.pc = target;
                None
            },
            Instr::LdA(n) => {
                self.a = n;
                None
            },
            Instr::Cp(n) => {
                self.cp_a_n(n);
                None
            },
            Instr::Add(o) => {
                let v = self.read_operand(o);
                self.add_a_r(v);
                None
            },
            Instr::Adc(o) => {
                let v = self.read_operand(o);
                self.adc_a_r(v);
                None
            },
            Instr::And(o) => {
                let v = self.read_operand(o);
                self.and_a_r(v);
                None
            },
            Instr::Add16(rr, ss) => {
                self.add_rr_ss(rr, ss);
                None
            },
            Instr::Adc16(ss) => {
                self.adc_hl_ss(ss);
                None
            },
            Instr::Bit(b) => {
                let v = self.read_operand(Operand::AtHl);
                self.bit_b(v, b);
                None
            },
            Instr::Out(port) => {
                self.port_addr = port;
                Some(StopReason::PortOut { port, value: self.a })
            },
            Instr::In(port) => {
                self.port_addr = port;
                Some(StopReason::PortIn { port })
            },
        }
    }

    /// Decodes and executes the instruction at the program counter.
    pub fn step(&mut self) -> (stop: Option<StopReason>)
        ensures
            (*final(self), stop) == old(self).stepped(),
    {
        proof {
            reveal(Z80::stepped);
        }
        let d = decode(
            self.mem[self.pc as usize],
            self.mem[forward(self.pc, 1) as usize],
            self.mem[forward(self.pc, 2) as usize],
        );
        match d {
            Some(d) => {
                self.pc = forward(self.pc, d.len);
                self.execute(d.instr)
            },
            None => Some(StopReason::Illegal),
        }
    }
}

/// A relative jump, conditional or not, leaves the program counter at the
/// address behind its operand plus the sign-extended displacement, modulo
/// 65536, if its condition holds of the flags, and at the address behind its
/// operand if not. Nothing else changes, and the processor does not stop.
pub proof fn relative_jump_lands(z: Z80)
    requires
        z.mem[z.pc as int] == 0x18 || z.mem[z.pc as int] == 0x20 || z.mem[z.pc as int] == 0x28,
    ensures
        ({
            let op = z.mem[z.pc as int];
            let d = z.mem[advance(z.pc, 1) as int];
            let taken = op == 0x18 || (op == 0x28 && z.flags().zero) || (op == 0x20
                && !z.flags().zero);
            let target = if taken {
                (z.pc + 2 + signed8(d)) % 65536
            } else {
                (z.pc + 2) % 65536
            };
            z.stepped() == (Z80 { pc: target as u16, ..z }, None::<StopReason>)
        }),
{
    reveal(decoded);
    reveal(Z80::stepped);
    let d = z.mem[advance(z.pc, 1) as int];
    let behind = advance(z.pc, 2);
    assert(displaced(behind, d) == (z.pc + 2 + signed8(d)) % 65536) by {
        displaced_twice(z.pc, 2, d);
    }
    assert(z.decoded_here()->0.len == 2);
}

/// Moving an address forward and then by a displacement is one move modulo
/// 65536.
proof fn displaced_twice(addr: u16, n: int, d: u8)
    requires
        0 <= n < 65536,
    ensures
        displaced(advance(addr, n), d) == (addr + n + signed8(d)) % 65536,
{
    let s = signed8(d);
    if addr + n >= 65536 {
        assert(advance(addr, n) == addr + n - 65536);
    } else {
        assert(advance(addr, n) == addr + n);
    }
    let m = advance(addr, n) as int;
    let t = addr + n + s;
    if t < 0 {
        assert(t % 65536 == t + 65536);
    } else if t < 65536 {
        assert(t % 65536 == t);
    } else if t < 131072 {
        assert(t % 65536 == t - 65536);
    } else {
        assert(t % 65536 == t - 131072);
    }
    let u = m + s;
    if u < 0 {
        assert(u % 65536 == u + 65536);
    } else if u < 65536 {
        assert(u % 65536 == u);
    } else {
        assert(u % 65536 == u - 65536);
    }
}

/// Loading the accumulator changes the accumulator and nothing else, and
/// takes two bytes.
pub proof fn load_steps(z: Z80)
    requires
        z.mem[z.pc as int] == 0x3E,
    ensures
        z.stepped() == (
            Z80 { a: z.mem[advance(z.pc, 1) as int], pc: advance(z.pc, 2), ..z },
            None::<StopReason>,
        ),
{
    reveal(decoded);
    reveal(Z80::stepped);
}

/// An output instruction stops the processor behind its two bytes, with
/// the port that its operand names and the byte in the accumulator. It
/// changes no register.
pub proof fn output_steps(z: Z80)
    requires
        z.mem[z.pc as int] == 0xD3,
    ensures
        ({
            let port = z.mem[advance(z.pc, 1) as int];
            z.stepped() == (
                Z80 { port_addr: port, pc: advance(z.pc, 2), ..z },
                Some(StopReason::PortOut { port, value: z.a }),
            )
        }),
{
    reveal(decoded);
    reveal(Z80::stepped);
}

/// An input instruction stops the processor behind its two bytes, with the
/// port that its operand names. It changes no register: the byte that the
/// port gives is for the driver to put into the accumulator.
pub proof fn input_steps(z: Z80)
    requires
        z.mem[z.pc as int] == 0xDB,
    ensures
        ({
            let port = z.mem[advance(z.pc, 1) as int];
            z.stepped() == (
                Z80 { port_addr: port, pc: advance(z.pc, 2), ..z },
                Some(StopReason::PortIn { port }),
            )
        }),
{
    reveal(decoded);
    reveal(Z80::stepped);
}

/// A halt instruction stops the processor behind its one byte and changes
/// nothing else.
pub proof fn halt_steps(z: Z80)
    requires
        z.mem[z.pc as int] == 0x76,
    ensures
        z.stepped() == (Z80 { pc: advance(z.pc, 1), ..z }, Some(StopReason::Halt)),
{
    reveal(decoded);
    reveal(Z80::stepped);
}

/// A no-op moves the program counter by one and changes nothing else.
pub proof fn nop_steps(z: Z80)
    requires
        z.mem[z.pc as int] == 0x00,
    ensures
        z.stepped() == (Z80 { pc: advance(z.pc, 1), ..z }, None::<StopReason>),
{
    reveal(decoded);
    reveal(Z80::stepped);
}

/// In memory that holds no-ops only a run uses its whole budget: it ends as
/// `TimesliceExpired` with the program counter moved by the budget, modulo
/// 65536, and nothing else changed.
pub proof fn nops_use_the_budget(z: Z80, budget: nat)
    requires
        forall|i: int| 0 <= i < 65536 ==> z.mem[i] == 0x00,
    ensures
        z.ran(budget) == (
            Z80 { pc: advance(z.pc, budget as int), ..z },
            StopReason::TimesliceExpired,
        ),
    decreases budget,
{
    if budget > 0 {
        nop_steps(z);
        let next = Z80 { pc: advance(z.pc, 1), ..z };
        nops_use_the_budget(next, (budget - 1) as nat);
        assert(advance(next.pc, budget - 1) == advance(z.pc, budget as int)) by {
            moved_twice(z.pc, budget - 1);
        }
    }
}

/// Moving an address by one and then by `n` is moving it by `n + 1`.
proof fn moved_twice(addr: u16, n: int)
    requires
        n >= 0,
    ensures
        advance(advance(addr, 1), n) == advance(addr, n + 1),
{
    let a = advance(addr, 1) as int;
    if addr == 65535 {
        assert(a == 0);
        assert((0 + n) % 65536 == (65536 + n) % 65536) by (nonlinear_arith)
            requires
                n >= 0,
        ;
    } else {
        assert(a == addr + 1);
    }
}

/// A program that loads a byte into the accumulator and writes it to a
/// port stops the processor with that port and that byte, behind the two
/// instructions, if the budget allows two instructions. Of the registers
/// only the accumulator has changed.
pub proof fn load_and_output_stops(z: Z80, budget: nat)
    requires
        budget >= 2,
        z.mem[z.pc as int] == 0x3E,
        z.mem[advance(z.pc, 2) as int] == 0xD3,
    ensures
        ({
            let value = z.mem[advance(z.pc, 1) as int];
            let port = z.mem[advance(z.pc, 3) as int];
            z.ran(budget) == (
                Z80 { a: value, port_addr: port, pc: advance(z.pc, 4), ..z },
                StopReason::PortOut { port, value },
            )
        }),
{
    let loaded = z.stepped().0;
    load_steps(z);
    output_steps(loaded);
    assert(advance(loaded.pc, 1) == advance(z.pc, 3));
    assert(advance(loaded.pc, 2) == advance(z.pc, 4));
    assert(z.ran(budget) == loaded.ran((budget - 1) as nat));
}

/// No instruction uses the budget up: only a run does.
pub proof fn step_never_expires(z: Z80)
    ensures
        z.stepped().1 != Some(StopReason::TimesliceExpired),
{
    reveal(Z80::stepped);
}

/// A run that ends because its budget ran out can be taken up again with
/// nothing lost: two runs in a row, the first of which uses its budget up,
/// do what one run with the two budgets together does.
pub proof fn timeslices_compose(z: Z80, first: nat, second: nat)
    requires
        z.ran(first).1 == StopReason::TimesliceExpired,
    ensures
        z.ran(first).0.ran(second) == z.ran(first + second),
    decreases first,
{
    if first > 0 {
        let (next, stop) = z.stepped();
        step_never_expires(z);
        assert(stop is None);
        timeslices_compose(next, (first - 1) as nat, second);
        assert(z.ran(first) == next.ran((first - 1) as nat));
        assert(z.ran(first + second) == next.ran((first + second - 1) as nat));
    }
}

/// No instruction writes to memory.
pub proof fn step_keeps_memory(z: Z80)
    ensures
        z.stepped().0.mem == z.mem,
{
    reveal(Z80::stepped);
}

/// A run, however long, leaves every byte of memory as it was.
pub proof fn run_keeps_memory(z: Z80, budget: nat)
    ensures
        z.ran(budget).0.mem == z.mem,
    decreases budget,
{
    if budget > 0 {
        step_keeps_memory(z);
        run_keeps_memory(z.stepped().0, (budget - 1) as nat);
    }
}

/// Bytes that are no instruction are final: the processor stops as
/// `Illegal` and stays as it is, so that every later run, whatever its
/// budget allows, stops there again.
pub proof fn illegal_is_final(z: Z80, budget: nat)
    requires
        z.decoded_here() is None,
        budget >= 1,
    ensures
        z.stepped() == (z, Some(StopReason::Illegal)),
        z.ran(budget) == (z, StopReason::Illegal),
{
    reveal(Z80::stepped);
}

/// A processor with zeroed memory and registers, about to run at `pc`.
pub fn make(pc: u16) -> (z80: Z80)
    ensures
        z80.registers_cleared(pc),
        forall|i: int| 0 <= i < 65536 ==> z80.mem[i] == 0,
{
    Z80 {
        mem: [0; 65536],
        stop_reason: StopReason::TimesliceExpired,
        port_addr: 0,
        pc,
        sp: 0,
        ix: 0,
        iy: 0,
        a: 0,
        f: 0,
        b: 0,
        c: 0,
        d: 0,
        e: 0,
        h: 0,
        l: 0,
        a_alt: 0,
        f_alt: 0,
        b_alt: 0,
        c_alt: 0,
        d_alt: 0,
        e_alt: 0,
        h_alt: 0,
        l_alt: 0,
    }
}

/// Runs the processor until it halts, reaches a port instruction or bytes
/// that are no instruction, or has used up `timeslice`. The reason is
/// returned and also left in `stop_reason`.
pub fn run(z80: &mut Z80, timeslice: usize) -> (reason: StopReason)
    ensures
        reason == old(z80).ran(timeslice as nat).1,
        *final(z80) == (Z80 { stop_reason: reason, ..old(z80).ran(timeslice as nat).0 }),
        final(z80).mem == old(z80).mem,
{
    proof {
        run_keeps_memory(*old(z80), timeslice as nat);
    }
    let mut left: usize = timeslice;
    let mut stop: Option<StopReason> = None;
    while stop.is_none() && left > 0
        invariant
            old(z80).ran(timeslice as nat) == match stop {
                Some(reason) => (*z80, reason),
                None => z80.ran(left as nat),
            },
        decreases
                if stop.is_none() {
                    left
                } else {
                    0
                },
    {
        left = left - 1;
        stop = z80.step();
    }
    let reason = match stop {
        Some(reason) => reason,
        None => StopReason::TimesliceExpired,
    };
    z80.stop_reason = reason;
    reason
}

} // verus!
