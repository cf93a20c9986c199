//! What a device can do, as the port bus sees it.

use vstd::prelude::*;
use crate::disk_image::Geometry;

verus! {

/// A serial device that bytes are read from.
pub trait ByteReader {
    /// The byte that waits to be read, if there is one.
    spec fn pending(&self) -> Option<u8>;

    /// 0xFF if a byte is ready, 0x00 if not. Asking changes nothing.
    fn poll_nonblocking(&mut self) -> (flag: u8)
        ensures
            flag == (if old(self).pending() is Some {
                0xFFu8
            } else {
                0x00u8
            }),
            final(self).pending() == old(self).pending(),
    ;

    /// The byte that is ready. After the call none is ready. What is read
    /// while no byte is ready is left to the device.
    fn get_nonblocking(&mut self) -> (byte: u8)
        ensures
            old(self).pending() matches Some(b) ==> byte == b,
            final(self).pending() is None,
    ;
}

/// A serial device that bytes are written to.
pub trait ByteWriter {
    /// Whether the device takes a byte now.
    spec fn accepts(&self) -> bool;

    /// The bytes that the device has taken and not yet written out.
    spec fn outbox(&self) -> Seq<u8>;

    /// 0x00 if the device takes a byte now, 0xFF if it is busy. Asking
    /// changes nothing.
    fn ready_nonblocking(&mut self) -> (flag: u8)
        ensures
            flag == (if old(self).accepts() {
                0x00u8
            } else {
                0xFFu8
            }),
            final(self).accepts() == old(self).accepts(),
            final(self).outbox() == old(self).outbox(),
    ;

    /// Hands a byte to the device, which takes it if it accepts one now and
    /// drops it if not.
    fn put_nonblocking(&mut self, c: u8)
        ensures
            final(self).outbox() == (if old(self).accepts() {
                old(self).outbox().push(c)
            } else {
                old(self).outbox()
            }),
    ;
}

/// A teletype: a serial keyboard and a serial typewriter.
pub trait TTY: ByteReader + ByteWriter {

}

/// The commands of a spinning disk.
pub const DISK_OP_SEEK: u8 = 0x00;

pub const DISK_OP_READ: u8 = 0x01;

pub const DISK_OP_WRITE: u8 = 0x02;

pub const DISK_OP_CLEAR: u8 = 0x03;

/// The status of a spinning disk.
#[derive(Clone, Copy, Debug, PartialEq, Eq, Structural)]
pub enum SpinningDiskStatus {
    /// Idle: a seek can be given.
    Ready,
    /// The last operation succeeded: the sector that was sought can be read
    /// and written.
    Done,
    /// An unknown operation, or one that the status did not allow.
    OpError,
    /// The parameters name a sector that the disk does not have.
    SeekError,
    /// The sector could not be read.
    ReadError,
    /// The sector could not be written.
    WriteError,
}

impl SpinningDiskStatus {
    /// The byte that stands for a status on the port bus.
    pub open spec fn code(self) -> u8 {
        match self {
            SpinningDiskStatus::Ready => 0x00,
            SpinningDiskStatus::Done => 0x01,
            SpinningDiskStatus::OpError => 0xFF,
            SpinningDiskStatus::SeekError => 0xFE,
            SpinningDiskStatus::ReadError => 0xFD,
            SpinningDiskStatus::WriteError => 0xFC,
        }
    }

    /// The byte that stands for a status on the port bus.
    pub fn as_byte(self) -> (byte: u8)
        ensures
            byte == self.code(),
    {
        match self {
            SpinningDiskStatus::Ready => 0x00,
            SpinningDiskStatus::Done => 0x01,
            SpinningDiskStatus::OpError => 0xFF,
            SpinningDiskStatus::SeekError => 0xFE,
            SpinningDiskStatus::ReadError => 0xFD,
            SpinningDiskStatus::WriteError => 0xFC,
        }
    }
}

/// Whether a disk that was in the status `before` may be in the status
/// `after` once it has been given the operation `op`. A seek needs a ready
/// disk and ends in `Done` or `SeekError`. Reading and writing need a disk
/// that is `Done` and end in `Done` or in their error. Clearing makes any
/// disk ready. Everything else is an `OpError`.
pub open spec fn may_follow(before: SpinningDiskStatus, op: u8, after: SpinningDiskStatus) -> bool {
    if op == DISK_OP_CLEAR {
        after == SpinningDiskStatus::Ready
    } else if op == DISK_OP_SEEK && before == SpinningDiskStatus::Ready {
        after == SpinningDiskStatus::Done || after == SpinningDiskStatus::SeekError
    } else if op == DISK_OP_READ && before == SpinningDiskStatus::Done {
        after == SpinningDiskStatus::Done || after == SpinningDiskStatus::ReadError
    } else if op == DISK_OP_WRITE && before == SpinningDiskStatus::Done {
        after == SpinningDiskStatus::Done || after == SpinningDiskStatus::WriteError
    } else {
        after == SpinningDiskStatus::OpError
    }
}

/// The registers of a spinning disk that the port bus sets.
pub struct DiskParams {
    pub head: u8,
    pub track: u8,
    pub sector: u8,
    /// The address in memory that sectors are transferred to and from.
    pub dma: u16,
}

/// A disk with heads, tracks and sectors that transfers whole sectors to
/// and from memory. The parameters that are set take effect at the next
/// operation.
pub trait SpinningDisk {
    /// The status that the last operation left.
    spec fn status(&self) -> SpinningDiskStatus;

    /// The parameters that were set last.
    spec fn params(&self) -> DiskParams;

    /// The shape of the disk, which no operation changes.
    spec fn geometry(&self) -> Geometry;

    /// The numbers of heads, of tracks per head and of sectors per track.
    fn get_geometry(&mut self) -> (g: Geometry)
        ensures
            g == old(self).geometry(),
            final(self).geometry() == old(self).geometry(),
            final(self).status() == old(self).status(),
            final(self).params() == old(self).params(),
    ;

    /// The status of the disk.
    fn get_status(&mut self) -> (status: SpinningDiskStatus)
        ensures
            status == old(self).status(),
            final(self).status() == old(self).status(),
            final(self).params() == old(self).params(),
            final(self).geometry() == old(self).geometry(),
    ;

    fn set_head(&mut self, n: u8)
        ensures
            final(self).params() == (DiskParams { head: n, ..old(self).params() }),
            final(self).status() == old(self).status(),
            final(self).geometry() == old(self).geometry(),
    ;

    fn set_track(&mut self, n: u8)
        ensures
            final(self).params() == (DiskParams { track: n, ..old(self).params() }),
            final(self).status() == old(self).status(),
            final(self).geometry() == old(self).geometry(),
    ;

    fn set_sector(&mut self, n: u8)
        ensures
            final(self).params() == (DiskParams { sector: n, ..old(self).params() }),
            final(self).status() == old(self).status(),
            final(self).geometry() == old(self).geometry(),
    ;

    /// Sets the high byte of the transfer address.
    fn set_dma_high(&mut self, n: u8)
        ensures
            final(self).params() == (DiskParams {
                dma: (n * 256 + old(self).params().dma % 256) as u16,
                ..old(self).params()
            }),
            final(self).status() == old(self).status(),
            final(self).geometry() == old(self).geometry(),
    ;

    /// Sets the low byte of the transfer address.
    fn set_dma_low(&mut self, n: u8)
        ensures
            final(self).params() == (DiskParams {
                dma: (old(self).params().dma / 256 * 256 + n) as u16,
                ..old(self).params()
            }),
            final(self).status() == old(self).status(),
            final(self).geometry() == old(self).geometry(),
    ;

    /// Gives the disk an operation. Only reading changes memory.
    fn disk_operation(&mut self, op: u8, mem: &mut [u8; 65536])
        ensures
            may_follow(old(self).status(), op, final(self).status()),
            final(self).params() == old(self).params(),
            final(self).geometry() == old(self).geometry(),
            !(op == DISK_OP_READ && old(self).status() == SpinningDiskStatus::Done) ==> *final(mem)
                == *old(mem),
    ;
}

} // verus!
