//! A teletype without a keyboard: what is written to it piles up until the
//! program that runs the emulator prints it.

use vstd::prelude::*;
use crate::devices::{ByteReader, ByteWriter, TTY};

verus! {

pub struct RustConsoleIo {
    /// The bytes that were written and have not been printed yet.
    pub out: Vec<u8>,
}

impl ByteReader for RustConsoleIo {
    /// No byte ever waits.
    open spec fn pending(&self) -> Option<u8> {
        None
    }

    fn poll_nonblocking(&mut self) -> (flag: u8)
        ensures
            final(self).out == old(self).out,
    {
        0
    }

    fn get_nonblocking(&mut self) -> (byte: u8)
        ensures
            byte == 0,
            final(self).out == old(self).out,
    {
        0
    }
}

impl ByteWriter for RustConsoleIo {
    /// Every byte is taken.
    open spec fn accepts(&self) -> bool {
        true
    }

    open spec fn outbox(&self) -> Seq<u8> {
        self.out@
    }

    fn ready_nonblocking(&mut self) -> (flag: u8)
        ensures
            final(self).out == old(self).out,
    {
        0x00
    }

    fn put_nonblocking(&mut self, c: u8) {
        self.out.push(c);
    }
}

impl TTY for RustConsoleIo {

}

impl RustConsoleIo {
    /// Hands out the bytes that were written since the last call, in the
    /// order in which they were written.
    pub fn take_output(&mut self) -> (bytes: Vec<u8>)
        ensures
            bytes@ == old(self).out@,
            final(self).out@.len() == 0,
    {
        let mut bytes: Vec<u8> = Vec::new();
        std::mem::swap(&mut bytes, &mut self.out);
        bytes
    }
}

/// A teletype on which nothing has been written.
pub fn make() -> (tty: RustConsoleIo)
    ensures
        tty.out@.len() == 0,
{
    RustConsoleIo { out: Vec::new() }
}

} // verus!
