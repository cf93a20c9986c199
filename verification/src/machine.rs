//! The port bus: which device operation each port stands for.
//!
//! Output ports:
//!
//! | port | operation                                             |
//! |------|-------------------------------------------------------|
//! | 0    | write a character to the console                      |
//! | 5    | set the disk's head                                   |
//! | 6    | set the disk's track                                  |
//! | 7    | set the disk's sector                                 |
//! | 8    | set the low byte of the disk's transfer address       |
//! | 9    | set the high byte of the disk's transfer address      |
//! | 10   | give the disk a command                               |
//!
//! Input ports:
//!
//! | port | value                                                 |
//! |------|-------------------------------------------------------|
//! | 1    | 0x00 if the console is ready for output, 0xFF if busy |
//! | 2    | 0xFF if the console has input, 0x00 if not            |
//! | 3    | the console's input character                         |
//! | 4    | the disk's status                                     |
//! | 11   | the disk's number of heads                            |
//! | 12   | the disk's number of tracks per head                  |
//! | 13   | the disk's number of sectors per track                |
//!
//! The disk's commands are 0 to read a sector into the buffer, 1 to write
//! the buffer to a sector, 2 to seek, 3 to copy memory to the buffer and 4
//! to copy the buffer to memory. After a read, a write or a seek the status
//! must be polled; a disk that is busy ignores what it is told.
//!
//! No other port exists. The processor's driver treats access to one as
//! fatal.

use vstd::prelude::*;
use crate::console::{Console, ConsoleState};
use crate::devices::{
    may_follow, ByteReader, ByteWriter, DiskParams, SpinningDisk, SpinningDiskStatus, DISK_OP_READ,
    TTY,
};
use crate::disk::{Disk, DiskState};
use crate::z80::{StopReason, Z80};

verus! {

pub const PORT_CON_OUT: u8 = 0;

pub const PORT_CON_OUT_READY: u8 = 1;

pub const PORT_CON_IN_READY: u8 = 2;

pub const PORT_CON_IN: u8 = 3;

pub const PORT_DISK_STATUS: u8 = 4;

pub const PORT_DISK_HEAD: u8 = 5;

pub const PORT_DISK_TRACK: u8 = 6;

pub const PORT_DISK_SECTOR: u8 = 7;

pub const PORT_DISK_ADDR_LOW: u8 = 8;

pub const PORT_DISK_ADDR_HIGH: u8 = 9;

pub const PORT_DISK_COMMAND: u8 = 10;

pub const PORT_DISK_HEADS: u8 = 11;

pub const PORT_DISK_TRACKS: u8 = 12;

pub const PORT_DISK_SECTORS: u8 = 13;

/// Whether `port` may be written to.
pub open spec fn is_output(port: u8) -> bool {
    port == PORT_CON_OUT || (PORT_DISK_HEAD <= port <= PORT_DISK_COMMAND)
}

/// Whether `port` may be read.
pub open spec fn is_input(port: u8) -> bool {
    (PORT_CON_OUT_READY <= port <= PORT_DISK_STATUS) || (PORT_DISK_HEADS <= port
        <= PORT_DISK_SECTORS)
}

/// The console and the disk, as the port bus changes them.
pub struct MachineState {
    pub console: ConsoleState,
    pub disk: DiskState,
}

impl MachineState {
    /// The devices after `value` was written to an output port.
    pub open spec fn after_port_out(self, port: u8, value: u8, mem: Seq<u8>) -> MachineState {
        if port == PORT_CON_OUT {
            MachineState { console: self.console.after_out_char(value), ..self }
        } else if port == PORT_DISK_HEAD {
            MachineState { disk: self.disk.after_set_head(value), ..self }
        } else if port == PORT_DISK_TRACK {
            MachineState { disk: self.disk.after_set_track(value), ..self }
        } else if port == PORT_DISK_SECTOR {
            MachineState { disk: self.disk.after_set_sector(value), ..self }
        } else if port == PORT_DISK_ADDR_LOW {
            MachineState { disk: self.disk.after_set_addr_low(value), ..self }
        } else if port == PORT_DISK_ADDR_HIGH {
            MachineState { disk: self.disk.after_set_addr_high(value), ..self }
        } else if port == PORT_DISK_COMMAND {
            MachineState { disk: self.disk.after_command(value, mem), ..self }
        } else {
            self
        }
    }

    /// Memory after `value` was written to an output port: only the disk's
    /// command to copy its buffer to memory changes it.
    pub open spec fn memory_after_port_out(self, port: u8, value: u8, mem: Seq<u8>) -> Seq<u8> {
        if port == PORT_DISK_COMMAND {
            self.disk.memory_after_command(value, mem)
        } else {
            mem
        }
    }

    /// The byte that an input port gives.
    pub open spec fn port_in_value(self, port: u8) -> u8 {
        if port == PORT_CON_OUT_READY {
            if self.console.out_ready {
                0x00
            } else {
                0xFF
            }
        } else if port == PORT_CON_IN_READY {
            if self.console.input is Some {
                0xFF
            } else {
                0x00
            }
        } else if port == PORT_CON_IN {
            self.console.in_char_value()
        } else if port == PORT_DISK_STATUS {
            self.disk.after_status().status.code()
        } else if port == PORT_DISK_HEADS {
            self.disk.geometry().heads
        } else if port == PORT_DISK_TRACKS {
            self.disk.geometry().tracks_per_head
        } else {
            self.disk.geometry().sectors_per_track
        }
    }

    /// The devices after an input port was read: reading the console's
    /// character empties its buffer, and polling the disk brings the
    /// worker's result to light.
    pub open spec fn after_port_in(self, port: u8) -> MachineState {
        if port == PORT_CON_IN {
            MachineState { console: self.console.after_in_char(), ..self }
        } else if port == PORT_DISK_STATUS {
            MachineState { disk: self.disk.after_status(), ..self }
        } else {
            self
        }
    }
}

/// Why the machine cannot go on.
#[derive(Clone, Copy, Debug, PartialEq, Eq)]
pub enum Fault {
    /// The bytes at `pc` are no instruction.
    IllegalInstruction { pc: u16 },
    /// The program read a port that does not exist.
    UnmappedInput { port: u8 },
    /// The program wrote to a port that does not exist.
    UnmappedOutput { port: u8 },
}

/// What the driver owes the processor once a run has stopped for `reason`:
/// whether the processor is to be resumed, or the fault that ends the
/// machine. Only a halt ends it without a fault.
pub open spec fn verdict(pc: u16, reason: StopReason) -> Result<bool, Fault> {
    match reason {
        StopReason::Halt => Ok(false),
        StopReason::TimesliceExpired => Ok(true),
        StopReason::PortIn { port } => if is_input(port) {
            Ok(true)
        } else {
            Err(Fault::UnmappedInput { port })
        },
        StopReason::PortOut { port, value } => if is_output(port) {
            Ok(true)
        } else {
            Err(Fault::UnmappedOutput { port })
        },
        StopReason::Illegal => Err(Fault::IllegalInstruction { pc }),
    }
}

/// The devices behind the port bus.
pub struct Z80Emu {
    pub console: Console,
    pub disk0: Disk,
}

impl View for Z80Emu {
    type V = MachineState;

    open spec fn view(&self) -> MachineState {
        MachineState { console: self.console@, disk: self.disk0@ }
    }
}

impl Z80Emu {
    /// Puts a console and a disk behind the port bus.
    pub fn new(console: Console, disk0: Disk) -> (emu: Z80Emu)
        ensures
            emu@ == (MachineState { console: console@, disk: disk0@ }),
    {
        Z80Emu { console, disk0 }
    }

    /// Whether `port` may be written to.
    pub fn maps_out(port: u8) -> (mapped: bool)
        ensures
            mapped == is_output(port),
    {
        port == PORT_CON_OUT || (PORT_DISK_HEAD <= port && port <= PORT_DISK_COMMAND)
    }

    /// Whether `port` may be read.
    pub fn maps_in(port: u8) -> (mapped: bool)
        ensures
            mapped == is_input(port),
    {
        (PORT_CON_OUT_READY <= port && port <= PORT_DISK_STATUS) || (PORT_DISK_HEADS <= port
            && port <= PORT_DISK_SECTORS)
    }

    /// Writes `value` to an output port. `mem` is the processor's memory,
    /// which the disk's copy commands read and write.
    pub fn port_out(&mut self, port: u8, value: u8, mem: &mut [u8; 65536])
        requires
            is_output(port),
        ensures
            final(self)@ == old(self)@.after_port_out(port, value, old(mem)@),
            final(mem)@ == old(self)@.memory_after_port_out(port, value, old(mem)@),
    {
        match port {
            PORT_CON_OUT => self.console.out_char(value),
            PORT_DISK_HEAD => self.disk0.set_head(value),
            PORT_DISK_TRACK => self.disk0.set_track(value),
            PORT_DISK_SECTOR => self.disk0.set_sector(value),
            PORT_DISK_ADDR_LOW => self.disk0.set_addr_low(value),
            PORT_DISK_ADDR_HIGH => self.disk0.set_addr_high(value),
            _ => self.disk0.command(value, mem),
        }
    }

    /// Reads an input port.
    pub fn port_in(&mut self, port: u8) -> (value: u8)
        requires
            is_input(port),
        ensures
            value == old(self)@.port_in_value(port),
            final(self)@ == old(self)@.after_port_in(port),
    {
        match port {
            PORT_CON_OUT_READY => if self.console.out_ready() {
                0x00
            } else {
                0xFF
            },
            PORT_CON_IN_READY => if self.console.in_ready() {
                0xFF
            } else {
                0x00
            },
            PORT_CON_IN => self.console.in_char(),
            PORT_DISK_STATUS => self.disk0.status(),
            PORT_DISK_HEADS => self.disk0.heads(),
            PORT_DISK_TRACKS => self.disk0.tracks_per_head(),
            _ => self.disk0.sectors_per_track(),
        }
    }
}

impl Z80Emu {
    /// Does what a stop of the processor asks of its driver. After an
    /// output instruction the value is written to the port. After an input
    /// instruction the port is read and the byte is put into the
    /// accumulator. Nothing else changes the processor or the devices.
    /// The answer is `Ok(true)` if the processor is to be resumed,
    /// `Ok(false)` if it has halted, and the fault if it has met bytes that
    /// are no instruction or a port that does not exist.
    pub fn dispatch(&mut self, cpu: &mut Z80, reason: StopReason) -> (r: Result<bool, Fault>)
        ensures
            r == verdict(old(cpu).pc, reason),
            match reason {
                StopReason::PortIn { port } if is_input(port) => {
                    &&& *final(cpu) == (Z80 { a: old(self)@.port_in_value(port), ..*old(cpu) })
                    &&& final(self)@ == old(self)@.after_port_in(port)
                },
                StopReason::PortOut { port, value } if is_output(port) => {
                    &&& *final(cpu) == (Z80 { mem: final(cpu).mem, ..*old(cpu) })
                    &&& final(cpu).mem@ == old(self)@.memory_after_port_out(
                        port,
                        value,
                        old(cpu).mem@,
                    )
                    &&& final(self)@ == old(self)@.after_port_out(port, value, old(cpu).mem@)
                },
                _ => *final(cpu) == *old(cpu) && final(self)@ == old(self)@,
            },
    {
        match reason {
            StopReason::Halt => Ok(false),
            StopReason::TimesliceExpired => Ok(true),
            StopReason::PortIn { port } => {
                if !Z80Emu::maps_in(port) {
                    return Err(Fault::UnmappedInput { port });
                }
                cpu.a = self.port_in(port);
                Ok(true)
            },
            StopReason::PortOut { port, value } => {
                if !Z80Emu::maps_out(port) {
                    return Err(Fault::UnmappedOutput { port });
                }
                self.port_out(port, value, &mut cpu.mem);
                Ok(true)
            },
            StopReason::Illegal => Err(Fault::IllegalInstruction { pc: cpu.pc }),
        }
    }
}

/// Writes `value` to an output port of a machine with any teletype and any
/// spinning disk. A value written to the command port is handed to the disk
/// as it is: the commands are the disk's own.
pub fn port_out<T: TTY, D: SpinningDisk>(
    port: u8,
    value: u8,
    mem: &mut [u8; 65536],
    tty: &mut T,
    dsk: &mut D,
)
    requires
        is_output(port),
    ensures
        port == PORT_CON_OUT ==> final(tty).outbox() == (if old(tty).accepts() {
            old(tty).outbox().push(value)
        } else {
            old(tty).outbox()
        }) && *final(dsk) == *old(dsk) && *final(mem) == *old(mem),
        port != PORT_CON_OUT ==> *final(tty) == *old(tty),
        PORT_DISK_HEAD <= port <= PORT_DISK_ADDR_HIGH ==> final(dsk).status() == old(dsk).status()
            && *final(mem) == *old(mem),
        final(dsk).geometry() == old(dsk).geometry(),
        port == PORT_DISK_HEAD ==> final(dsk).params() == (DiskParams {
            head: value,
            ..old(dsk).params()
        }),
        port == PORT_DISK_TRACK ==> final(dsk).params() == (DiskParams {
            track: value,
            ..old(dsk).params()
        }),
        port == PORT_DISK_SECTOR ==> final(dsk).params() == (DiskParams {
            sector: value,
            ..old(dsk).params()
        }),
        port == PORT_DISK_ADDR_LOW ==> final(dsk).params() == (DiskParams {
            dma: (old(dsk).params().dma / 256 * 256 + value) as u16,
            ..old(dsk).params()
        }),
        port == PORT_DISK_ADDR_HIGH ==> final(dsk).params() == (DiskParams {
            dma: (value * 256 + old(dsk).params().dma % 256) as u16,
            ..old(dsk).params()
        }),
        port == PORT_DISK_COMMAND ==> may_follow(old(dsk).status(), value, final(dsk).status())
            && final(dsk).params() == old(dsk).params() && (!(value == DISK_OP_READ && old(
            dsk,
        ).status() == SpinningDiskStatus::Done) ==> *final(mem) == *old(mem)),
{
    match port {
        PORT_CON_OUT => tty.put_nonblocking(value),
        PORT_DISK_HEAD => dsk.set_head(value),
        PORT_DISK_TRACK => dsk.set_track(value),
        PORT_DISK_SECTOR => dsk.set_sector(value),
        PORT_DISK_ADDR_LOW => dsk.set_dma_low(value),
        PORT_DISK_ADDR_HIGH => dsk.set_dma_high(value),
        _ => dsk.disk_operation(value, mem),
    }
}

/// Reads an input port of a machine with any teletype and any spinning
/// disk. Asking the teletype whether it is ready, or whether it has input,
/// changes neither answer; what the one question does to the other answer
/// is the teletype's own affair.
pub fn port_in<T: TTY, D: SpinningDisk>(port: u8, tty: &mut T, dsk: &mut D) -> (value: u8)
    requires
        is_input(port),
    ensures
        port == PORT_CON_OUT_READY ==> value == (if old(tty).accepts() {
            0x00u8
        } else {
            0xFFu8
        }) && final(tty).accepts() == old(tty).accepts() && final(tty).outbox() == old(
            tty,
        ).outbox(),
        port == PORT_CON_IN_READY ==> value == (if old(tty).pending() is Some {
            0xFFu8
        } else {
            0x00u8
        }) && final(tty).pending() == old(tty).pending(),
        port == PORT_CON_IN ==> final(tty).pending() is None && (old(tty).pending() matches Some(
            b,
        ) ==> value == b),
        port == PORT_DISK_STATUS ==> value == old(dsk).status().code(),
        port == PORT_DISK_HEADS ==> value == old(dsk).geometry().heads,
        port == PORT_DISK_TRACKS ==> value == old(dsk).geometry().tracks_per_head,
        port == PORT_DISK_SECTORS ==> value == old(dsk).geometry().sectors_per_track,
        port > PORT_CON_IN ==> *final(tty) == *old(tty),
        port <= PORT_CON_IN ==> *final(dsk) == *old(dsk),
        final(dsk).status() == old(dsk).status(),
        final(dsk).params() == old(dsk).params(),
        final(dsk).geometry() == old(dsk).geometry(),
{
    match port {
        PORT_CON_OUT_READY => tty.ready_nonblocking(),
        PORT_CON_IN_READY => tty.poll_nonblocking(),
        PORT_CON_IN => tty.get_nonblocking(),
        PORT_DISK_STATUS => dsk.get_status().as_byte(),
        PORT_DISK_HEADS => dsk.get_geometry().heads,
        PORT_DISK_TRACKS => dsk.get_geometry().tracks_per_head,
        _ => dsk.get_geometry().sectors_per_track,
    }
}

} // verus!
