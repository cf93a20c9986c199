//! The serial console as the processor sees it: one buffered input byte, one
//! output byte on its way, and the two flags that the processor polls.
//!
//! The console's two workers run outside this library. What they do to the
//! state that they share with the processor is here as well: a worker that
//! has read a byte calls `input_arrived`, the one that writes takes its next
//! byte with `next_output` and reports with `output_flushed`.

use vstd::prelude::*;
use crate::devices::{ByteReader, ByteWriter, TTY};

verus! {

/// What the processor and the workers share.
pub struct ConsoleState {
    /// The byte that has arrived and has not been read yet.
    pub input: Option<u8>,
    /// Whether the console accepts an output byte.
    pub out_ready: bool,
    /// The output byte that no worker has taken yet.
    pub queued: Option<u8>,
}

impl ConsoleState {
    /// While the console is ready for output no byte waits for the writer.
    pub open spec fn wf(self) -> bool {
        self.out_ready ==> self.queued is None
    }

    /// The state of a console that was just started.
    pub open spec fn started() -> ConsoleState {
        ConsoleState { input: None, out_ready: true, queued: None }
    }

    /// The byte that a read returns: the buffered one, or zero.
    pub open spec fn in_char_value(self) -> u8 {
        match self.input {
            Some(byte) => byte,
            None => 0,
        }
    }

    /// After a read nothing is buffered.
    pub open spec fn after_in_char(self) -> ConsoleState {
        ConsoleState { input: None, ..self }
    }

    /// A byte written while the console is ready is queued for the writer and
    /// makes the console busy. One written while it is busy is dropped.
    pub open spec fn after_out_char(self, ch: u8) -> ConsoleState {
        if self.out_ready {
            ConsoleState { out_ready: false, queued: Some(ch), ..self }
        } else {
            self
        }
    }

    /// A byte that arrives replaces the one that was buffered.
    pub open spec fn after_input(self, byte: u8) -> ConsoleState {
        ConsoleState { input: Some(byte), ..self }
    }

    /// The writer takes the queued byte, if there is one.
    pub open spec fn after_next_output(self) -> ConsoleState {
        ConsoleState { queued: None, ..self }
    }

    /// Once the writer has flushed the byte that it took the console is
    /// ready again.
    pub open spec fn after_flush(self) -> ConsoleState {
        if self.queued is None {
            ConsoleState { out_ready: true, ..self }
        } else {
            self
        }
    }
}

/// Of two bytes written in a row, with no flush by the writer in between,
/// the second is dropped: the console is as after the first alone.
pub proof fn second_out_char_is_dropped(s: ConsoleState, first: u8, second: u8)
    ensures
        s.after_out_char(first).after_out_char(second) == s.after_out_char(first),
        !s.after_out_char(first).out_ready,
{
}

/// A byte written to a console that is ready reaches the writer, and once
/// the writer has flushed it the console is ready again, as it was before
/// the byte was written.
pub proof fn written_byte_is_flushed(s: ConsoleState, ch: u8)
    requires
        s.wf(),
        s.out_ready,
    ensures
        s.after_out_char(ch).queued == Some(ch),
        !s.after_out_char(ch).after_next_output().out_ready,
        s.after_out_char(ch).after_next_output().after_flush() == s,
{
}

/// A second read with no byte arriving in between returns zero and leaves
/// the console as the first read left it.
pub proof fn second_in_char_is_zero(s: ConsoleState)
    ensures
        s.after_in_char().in_char_value() == 0,
        s.after_in_char().after_in_char() == s.after_in_char(),
{
}

/// A byte that arrives before the last one was read replaces it.
pub proof fn unread_input_is_overwritten(s: ConsoleState, first: u8, second: u8)
    ensures
        s.after_input(first).after_input(second) == s.after_input(second),
        s.after_input(first).after_input(second).in_char_value() == second,
{
}

/// Every operation keeps the console well formed.
pub proof fn operations_keep_wf(s: ConsoleState, byte: u8)
    requires
        s.wf(),
    ensures
        ConsoleState::started().wf(),
        s.after_in_char().wf(),
        s.after_out_char(byte).wf(),
        s.after_input(byte).wf(),
        s.after_next_output().wf(),
        s.after_flush().wf(),
{
}

/// The processor's handle on the console.
pub struct Console {
    in_avail: bool,
    in_byte: u8,
    out_rdy: bool,
    out_chan: Option<u8>,
}

impl View for Console {
    type V = ConsoleState;

    closed spec fn view(&self) -> ConsoleState {
        ConsoleState {
            input: if self.in_avail {
                Some(self.in_byte)
            } else {
                None
            },
            out_ready: self.out_rdy,
            queued: self.out_chan,
        }
    }
}

impl Console {
    #[verifier::type_invariant]
    spec fn inv(self) -> bool {
        &&& !self.in_avail ==> self.in_byte == 0
        &&& self.out_rdy ==> self.out_chan is None
    }

    /// A console with nothing buffered that is ready for output.
    pub fn start() -> (console: Console)
        ensures
            console@ == ConsoleState::started(),
            console@.wf(),
    {
        Console { in_avail: false, in_byte: 0, out_rdy: true, out_chan: None }
    }

    /// Gives the console up. The byte that no worker has taken yet is handed
    /// back, so that it can still be written.
    pub fn halt(self) -> (rest: Option<u8>)
        ensures
            rest == self@.queued,
    {
        self.out_chan
    }

    /// Whether an input byte is buffered.
    pub fn in_ready(&self) -> (avail: bool)
        ensures
            avail == self@.input.is_some(),
    {
        self.in_avail
    }

    /// Reads the buffered input byte and clears the buffer. With nothing
    /// buffered the byte is zero.
    pub fn in_char(&mut self) -> (byte: u8)
        ensures
            byte == old(self)@.in_char_value(),
            final(self)@ == old(self)@.after_in_char(),
            final(self)@.wf(),
    {
        let byte = self.in_byte;
        proof {
            use_type_invariant(&*self);
        }
        *self = Console { in_avail: false, in_byte: 0, ..*self };
        byte
    }

    /// Whether the console accepts an output byte.
    pub fn out_ready(&self) -> (ready: bool)
        ensures
            ready == self@.out_ready,
    {
        self.out_rdy
    }

    /// Writes a byte if the console is ready, and drops it if not.
    pub fn out_char(&mut self, ch: u8)
        ensures
            final(self)@ == old(self)@.after_out_char(ch),
            final(self)@.wf(),
    {
        proof {
            use_type_invariant(&*self);
        }
        if self.out_rdy {
            *self = Console { out_rdy: false, out_chan: Some(ch), ..*self };
        }
    }

    /// The input worker has read `byte`.
    pub fn input_arrived(&mut self, byte: u8)
        ensures
            final(self)@ == old(self)@.after_input(byte),
            final(self)@.wf(),
    {
        proof {
            use_type_invariant(&*self);
        }
        *self = Console { in_avail: true, in_byte: byte, ..*self };
    }

    /// The output worker takes the byte that waits for it, if there is one.
    pub fn next_output(&mut self) -> (byte: Option<u8>)
        ensures
            byte == old(self)@.queued,
            final(self)@ == old(self)@.after_next_output(),
            final(self)@.wf(),
    {
        let byte = self.out_chan;
        proof {
            use_type_invariant(&*self);
        }
        *self = Console { out_chan: None, ..*self };
        byte
    }

    /// The output worker has written and flushed the byte that it took.
    pub fn output_flushed(&mut self)
        ensures
            final(self)@ == old(self)@.after_flush(),
            final(self)@.wf(),
    {
        proof {
            use_type_invariant(&*self);
        }
        if self.out_chan.is_none() {
            *self = Console { out_rdy: true, ..*self };
        }
    }
}

impl ByteReader for Console {
    open spec fn pending(&self) -> Option<u8> {
        self@.input
    }

    fn poll_nonblocking(&mut self) -> (flag: u8)
        ensures
            final(self)@ == old(self)@,
    {
        if self.in_ready() {
            0xFF
        } else {
            0x00
        }
    }

    fn get_nonblocking(&mut self) -> (byte: u8)
        ensures
            byte == old(self)@.in_char_value(),
            final(self)@ == old(self)@.after_in_char(),
    {
        self.in_char()
    }
}

impl ByteWriter for Console {
    open spec fn accepts(&self) -> bool {
        self@.out_ready
    }

    open spec fn outbox(&self) -> Seq<u8> {
        match self@.queued {
            Some(byte) => seq![byte],
            None => Seq::empty(),
        }
    }

    fn ready_nonblocking(&mut self) -> (flag: u8)
        ensures
            final(self)@ == old(self)@,
    {
        if self.out_ready() {
            0x00
        } else {
            0xFF
        }
    }

    fn put_nonblocking(&mut self, c: u8)
        ensures
            final(self)@ == old(self)@.after_out_char(c),
    {
        proof {
            use_type_invariant(&*self);
        }
        self.out_char(c);
        assert(Seq::<u8>::empty().push(c) == seq![c]);
    }
}

impl TTY for Console {

}

} // verus!
