//! The 64KB of memory: addresses that wrap, and blocks of bytes copied in
//! and out.

use vstd::prelude::*;

verus! {

/// `addr` moved forward by `n` bytes, modulo the size of the address space.
pub open spec fn advance(addr: u16, n: int) -> u16 {
    ((addr + n) % 65536) as u16
}

/// Memory after `bytes` have been written one by one from `addr` on, the
/// address wrapping from 65535 to 0. Where two bytes fall on one address the
/// later one stays.
pub open spec fn installed(mem: Seq<u8>, bytes: Seq<u8>, addr: u16) -> Seq<u8>
    decreases bytes.len(),
{
    if bytes.len() == 0 {
        mem
    } else {
        installed(mem, bytes.drop_last(), addr).update(
            advance(addr, bytes.len() - 1) as int,
            bytes.last(),
        )
    }
}

/// Installing keeps the size of memory.
pub proof fn installed_len(mem: Seq<u8>, bytes: Seq<u8>, addr: u16)
    requires
        mem.len() == 65536,
    ensures
        installed(mem, bytes, addr).len() == mem.len(),
    decreases bytes.len(),
{
    if bytes.len() > 0 {
        installed_len(mem, bytes.drop_last(), addr);
    }
}

/// Up to 65536 bytes that were installed at `addr` are read back unchanged
/// from `addr` on, also where they run over the end of memory: byte `i` is
/// found at `addr + i` modulo 65536.
pub proof fn installed_reads_back(mem: Seq<u8>, bytes: Seq<u8>, addr: u16, i: int)
    requires
        mem.len() == 65536,
        bytes.len() <= 65536,
        0 <= i < bytes.len(),
    ensures
        installed(mem, bytes, addr)[advance(addr, i) as int] == bytes[i],
    decreases bytes.len(),
{
    let rest = bytes.drop_last();
    installed_len(mem, rest, addr);
    if i < bytes.len() - 1 {
        installed_reads_back(mem, rest, addr, i);
        assert(advance(addr, i) != advance(addr, bytes.len() - 1));
    }
}

/// Installing leaves every address alone that none of the bytes falls on.
pub proof fn installed_keeps_rest(mem: Seq<u8>, bytes: Seq<u8>, addr: u16, a: int)
    requires
        mem.len() == 65536,
        0 <= a < 65536,
        forall|i: int| 0 <= i < bytes.len() ==> #[trigger] advance(addr, i) != a,
    ensures
        installed(mem, bytes, addr)[a] == mem[a],
    decreases bytes.len(),
{
    if bytes.len() > 0 {
        let rest = bytes.drop_last();
        installed_len(mem, rest, addr);
        installed_keeps_rest(mem, rest, addr, a);
        assert(advance(addr, bytes.len() - 1) != a);
    }
}

/// The `len` bytes that memory holds from `addr` on, the address wrapping
/// from 65535 to 0.
pub open spec fn fetched(mem: Seq<u8>, addr: u16, len: nat) -> Seq<u8> {
    Seq::new(len, |i: int| mem[advance(addr, i) as int])
}

/// Moves an address forward, wrapping at the end of memory.
pub fn forward(addr: u16, n: u16) -> (v: u16)
    ensures
        v == advance(addr, n as int),
{
    addr.wrapping_add(n)
}

/// Copies `bytes` into memory from `addr` on, wrapping at the end of the
/// address space.
pub fn store(mem: &mut [u8; 65536], bytes: &[u8], addr: u16)
    ensures
        final(mem)@ == installed(old(mem)@, bytes@, addr),
{
    let mut at: u16 = addr;
    let mut i: usize = 0;
    while i < bytes.len()
        invariant
            i <= bytes.len(),
            at == advance(addr, i as int),
            mem@ == installed(old(mem)@, bytes@.take(i as int), addr),
        decreases bytes.len() - i,
    {
        assert(bytes@.take(i + 1).drop_last() == bytes@.take(i as int));
        mem[at as usize] = bytes[i];
        at = at.wrapping_add(1);
        i = i + 1;
    }
    assert(bytes@.take(i as int) == bytes@);
}

/// Copies the bytes that memory holds from `addr` on into `buf`, wrapping
/// at the end of the address space.
pub fn load(mem: &[u8; 65536], addr: u16, buf: &mut [u8; 128])
    ensures
        final(buf)@ == fetched(mem@, addr, 128),
{
    let mut at: u16 = addr;
    let mut i: usize = 0;
    while i < 128
        invariant
            i <= 128,
            at == advance(addr, i as int),
            forall|j: int| 0 <= j < i ==> buf@[j] == mem@[advance(addr, j) as int],
        decreases 128 - i,
    {
        buf[i] = mem[at as usize];
        at = at.wrapping_add(1);
        i = i + 1;
    }
    assert(buf@ =~= fetched(mem@, addr, 128));
}

/// What was stored at an address is fetched from it unchanged, as long as
/// it is not longer than memory.
pub proof fn fetched_after_installed(mem: Seq<u8>, bytes: Seq<u8>, addr: u16)
    requires
        mem.len() == 65536,
        bytes.len() <= 65536,
    ensures
        fetched(installed(mem, bytes, addr), addr, bytes.len()) == bytes,
{
    assert forall|i: int| 0 <= i < bytes.len() implies fetched(
        installed(mem, bytes, addr),
        addr,
        bytes.len(),
    )[i] == bytes[i] by {
        installed_reads_back(mem, bytes, addr, i);
    }
    assert(fetched(installed(mem, bytes, addr), addr, bytes.len()) =~= bytes);
}

} // verus!
