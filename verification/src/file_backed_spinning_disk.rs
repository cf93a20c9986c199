//! A spinning disk that is backed by one image file. It transfers sectors
//! straight to and from memory, through a buffer of its own.

use vstd::prelude::*;
use crate::alu::{get16, pair};
use crate::devices::{
    may_follow, DiskParams, SpinningDisk, SpinningDiskStatus, DISK_OP_CLEAR, DISK_OP_READ,
    DISK_OP_SEEK, DISK_OP_WRITE,
};
use crate::disk_image::{
    is_image_file, trailer_of, DiskImage, DiskImageError, Geometry, ImageState,
};
use crate::memory::{fetched, installed, load, store};

verus! {

/// The state of the disk.
pub struct FileDiskState {
    pub params: DiskParams,
    pub status: SpinningDiskStatus,
    /// Where the sector that was sought starts among the data bytes.
    pub offset: nat,
    /// The buffer that a sector passes through, 128 bytes.
    pub buffer: Seq<u8>,
    /// The data bytes of the image.
    pub data: Seq<u8>,
    pub geometry: Geometry,
}

impl FileDiskState {
    /// The buffer holds a sector, and the data fits the geometry.
    pub open spec fn wf(self) -> bool {
        &&& self.buffer.len() == 128
        &&& self.data.len() == self.geometry.data_len()
    }

    /// Whether the sector that was sought lies within the data.
    pub open spec fn in_reach(self) -> bool {
        self.offset + 128 <= self.data.len()
    }

    /// Clearing makes the disk ready and keeps everything else.
    pub open spec fn after_clear(self) -> FileDiskState {
        FileDiskState { status: SpinningDiskStatus::Ready, ..self }
    }

    /// A seek on a ready disk finds the sector that the parameters name, or
    /// fails where the disk has no such sector.
    pub open spec fn after_seek(self) -> FileDiskState {
        let p = self.params;
        if self.status != SpinningDiskStatus::Ready {
            FileDiskState { status: SpinningDiskStatus::OpError, ..self }
        } else if !self.geometry.contains(p.head, p.track, p.sector) {
            FileDiskState { status: SpinningDiskStatus::SeekError, ..self }
        } else {
            FileDiskState {
                status: SpinningDiskStatus::Done,
                offset: self.geometry.offset_of(p.head, p.track, p.sector),
                ..self
            }
        }
    }

    /// Reading brings the sector that was sought into the buffer.
    pub open spec fn after_read(self) -> FileDiskState {
        if self.status != SpinningDiskStatus::Done {
            FileDiskState { status: SpinningDiskStatus::OpError, ..self }
        } else if !self.in_reach() {
            FileDiskState { status: SpinningDiskStatus::ReadError, ..self }
        } else {
            let at = self.offset as int;
            FileDiskState { buffer: self.data.subrange(at, at + 128), ..self }
        }
    }

    /// Writing brings 128 bytes of memory into the buffer and from there
    /// into the sector that was sought.
    pub open spec fn after_write(self, mem: Seq<u8>) -> FileDiskState {
        let buffer = fetched(mem, self.params.dma, 128);
        if self.status != SpinningDiskStatus::Done {
            FileDiskState { status: SpinningDiskStatus::OpError, ..self }
        } else if !self.in_reach() {
            FileDiskState { status: SpinningDiskStatus::WriteError, buffer, ..self }
        } else {
            let at = self.offset as int;
            FileDiskState {
                buffer,
                data: self.data.take(at) + buffer + self.data.skip(at + 128),
                ..self
            }
        }
    }

    /// The disk after an operation.
    pub open spec fn after_operation(self, op: u8, mem: Seq<u8>) -> FileDiskState {
        if op == DISK_OP_SEEK {
            self.after_seek()
        } else if op == DISK_OP_READ {
            self.after_read()
        } else if op == DISK_OP_WRITE {
            self.after_write(mem)
        } else if op == DISK_OP_CLEAR {
            self.after_clear()
        } else {
            FileDiskState { status: SpinningDiskStatus::OpError, ..self }
        }
    }

    /// Memory after an operation: a read that the status allows copies the
    /// buffer to the transfer address, whether or not the sector could be
    /// read into it. Nothing else changes memory.
    pub open spec fn memory_after(self, op: u8, mem: Seq<u8>) -> Seq<u8> {
        if op == DISK_OP_READ && self.status == SpinningDiskStatus::Done {
            installed(mem, self.after_read().buffer, self.params.dma)
        } else {
            mem
        }
    }
}

/// A sector that was written is read back unchanged: after a write that
/// succeeded, a read of the same sector brings to memory, at whatever
/// transfer address, the 128 bytes that the write took from memory.
pub proof fn written_sector_is_read_back(s: FileDiskState, mem: Seq<u8>, dma: u16, later: Seq<u8>)
    requires
        s.wf(),
        mem.len() == 65536,
        later.len() == 65536,
        s.status == SpinningDiskStatus::Done,
        s.in_reach(),
    ensures
        ({
            let written = s.after_write(mem);
            let moved = FileDiskState { params: DiskParams { dma, ..s.params }, ..written };
            &&& written.status == SpinningDiskStatus::Done
            &&& moved.after_read().status == SpinningDiskStatus::Done
            &&& fetched(moved.memory_after(DISK_OP_READ, later), dma, 128) == fetched(
                mem,
                s.params.dma,
                128,
            )
        }),
{
    let written = s.after_write(mem);
    let moved = FileDiskState { params: DiskParams { dma, ..s.params }, ..written };
    let sector = fetched(mem, s.params.dma, 128);
    assert(moved.after_read().buffer =~= sector);
    crate::memory::fetched_after_installed(later, sector, dma);
}

pub struct FileBackedSpinningDisk {
    head: u8,
    track: u8,
    sector: u8,
    dma_lo: u8,
    dma_hi: u8,
    offset: usize,
    buf: [u8; 128],
    status: SpinningDiskStatus,
    the_disk: DiskImage,
}

impl View for FileBackedSpinningDisk {
    type V = FileDiskState;

    closed spec fn view(&self) -> FileDiskState {
        FileDiskState {
            params: DiskParams {
                head: self.head,
                track: self.track,
                sector: self.sector,
                dma: pair(self.dma_hi, self.dma_lo),
            },
            status: self.status,
            offset: self.offset as nat,
            buffer: self.buf@,
            data: self.the_disk@.data,
            geometry: self.the_disk@.geometry,
        }
    }
}

/// A disk on the image file `file`, which must be the image of a disk with
/// the given numbers of heads, tracks per head and sectors per track. The
/// parameters are zero, the first sector counts as sought, and the status
/// is `Done`.
pub fn make(file: Vec<u8>, heads: u8, tracks: u8, sectors: u8) -> (r: Result<
    FileBackedSpinningDisk,
    DiskImageError,
>)
    ensures
        match r {
            Ok(disk) => {
                &&& is_image_file(file@)
                &&& trailer_of(file@) == (Geometry {
                    heads,
                    tracks_per_head: tracks,
                    sectors_per_track: sectors,
                })
                &&& disk@ == (FileDiskState {
                    params: DiskParams { head: 0, track: 0, sector: 0, dma: 0 },
                    status: SpinningDiskStatus::Done,
                    offset: 0,
                    buffer: Seq::new(128, |i: int| 0u8),
                    data: file@.take(file@.len() - 3),
                    geometry: trailer_of(file@),
                })
                &&& disk@.wf()
            },
            Err(DiskImageError::Truncated) => file@.len() < 3,
            Err(DiskImageError::SizeMismatch) => file@.len() >= 3 && !is_image_file(file@),
            Err(DiskImageError::GeometryMismatch) => is_image_file(file@) && trailer_of(file@) != (
            Geometry { heads, tracks_per_head: tracks, sectors_per_track: sectors }),
        },
{
    let the_disk = match DiskImage::open(file) {
        Ok(image) => image,
        Err(e) => {
            return Err(e);
        },
    };
    let g = the_disk.geometry();
    if g.heads != heads || g.tracks_per_head != tracks || g.sectors_per_track != sectors {
        return Err(DiskImageError::GeometryMismatch);
    }
    let disk = FileBackedSpinningDisk {
        head: 0,
        track: 0,
        sector: 0,
        dma_lo: 0,
        dma_hi: 0,
        offset: 0,
        buf: [0; 128],
        status: SpinningDiskStatus::Done,
        the_disk,
    };
    assert(disk@.buffer =~= Seq::new(128, |i: int| 0u8));
    Ok(disk)
}

impl FileBackedSpinningDisk {
    /// Whether the disk has the sector that the parameters name.
    pub fn validate_params(&self) -> (ok: bool)
        ensures
            ok == self@.geometry.contains(
                self@.params.head,
                self@.params.track,
                self@.params.sector,
            ),
    {
        self.the_disk.geometry().validate(self.head, self.track, self.sector)
    }

    /// Where the sector that the parameters name starts.
    pub fn translate(&self) -> (offset: usize)
        ensures
            offset == self@.geometry.offset_of(
                self@.params.head,
                self@.params.track,
                self@.params.sector,
            ),
    {
        self.the_disk.geometry().translate(self.head, self.track, self.sector)
    }

    /// Makes the disk ready.
    pub fn clear(&mut self)
        ensures
            final(self)@ == old(self)@.after_clear(),
    {
        self.status = SpinningDiskStatus::Ready;
    }

    /// Seeks the sector that the parameters name.
    pub fn seek(&mut self)
        ensures
            final(self)@ == old(self)@.after_seek(),
    {
        if self.status != SpinningDiskStatus::Ready {
            self.status = SpinningDiskStatus::OpError;
            return ;
        }
        if !self.validate_params() {
            self.status = SpinningDiskStatus::SeekError;
            return ;
        }
        self.offset = self.translate();
        self.status = SpinningDiskStatus::Done;
    }

    /// Reads the sector that was sought and copies it to memory at the
    /// transfer address, wrapping at the end of memory.
    pub fn read_sector(&mut self, mem: &mut [u8; 65536])
        ensures
            final(self)@ == old(self)@.after_read(),
            final(mem)@ == old(self)@.memory_after(DISK_OP_READ, old(mem)@),
    {
        if self.status != SpinningDiskStatus::Done {
            self.status = SpinningDiskStatus::OpError;
            return ;
        }
        let ok = self.the_disk.read_at(self.offset, &mut self.buf);
        if !ok {
            self.status = SpinningDiskStatus::ReadError;
        }
        store(mem, &self.buf, get16(self.dma_hi, self.dma_lo));
    }

    /// Copies a sector from memory at the transfer address, wrapping at the
    /// end of memory, and writes it to the sector that was sought.
    pub fn write_sector(&mut self, mem: &[u8; 65536])
        ensures
            final(self)@ == old(self)@.after_write(mem@),
    {
        if self.status != SpinningDiskStatus::Done {
            self.status = SpinningDiskStatus::OpError;
            return ;
        }
        load(mem, get16(self.dma_hi, self.dma_lo), &mut self.buf);
        let ok = self.the_disk.write_at(self.offset, &self.buf);
        if !ok {
            self.status = SpinningDiskStatus::WriteError;
        }
    }

    /// Gives the image back, with what was written to it.
    pub fn into_image(self) -> (image: DiskImage)
        ensures
            image@ == (ImageState { data: self@.data, geometry: self@.geometry }),
    {
        self.the_disk
    }
}

impl SpinningDisk for FileBackedSpinningDisk {
    open spec fn status(&self) -> SpinningDiskStatus {
        self@.status
    }

    open spec fn params(&self) -> DiskParams {
        self@.params
    }

    open spec fn geometry(&self) -> Geometry {
        self@.geometry
    }

    fn get_geometry(&mut self) -> (g: Geometry)
        ensures
            final(self)@ == old(self)@,
    {
        self.the_disk.geometry()
    }

    fn get_status(&mut self) -> (status: SpinningDiskStatus)
        ensures
            final(self)@ == old(self)@,
    {
        self.status
    }

    fn set_head(&mut self, n: u8)
        ensures
            final(self)@ == (FileDiskState {
                params: DiskParams { head: n, ..old(self)@.params },
                ..old(self)@
            }),
    {
        self.head = n;
    }

    fn set_track(&mut self, n: u8)
        ensures
            final(self)@ == (FileDiskState {
                params: DiskParams { track: n, ..old(self)@.params },
                ..old(self)@
            }),
    {
        self.track = n;
    }

    fn set_sector(&mut self, n: u8)
        ensures
            final(self)@ == (FileDiskState {
                params: DiskParams { sector: n, ..old(self)@.params },
                ..old(self)@
            }),
    {
        self.sector = n;
    }

    fn set_dma_high(&mut self, n: u8)
        ensures
            final(self)@ == (FileDiskState {
                params: DiskParams {
                    dma: (n * 256 + old(self)@.params.dma % 256) as u16,
                    ..old(self)@.params
                },
                ..old(self)@
            }),
    {
        self.dma_hi = n;
    }

    fn set_dma_low(&mut self, n: u8)
        ensures
            final(self)@ == (FileDiskState {
                params: DiskParams {
                    dma: (old(self)@.params.dma / 256 * 256 + n) as u16,
                    ..old(self)@.params
                },
                ..old(self)@
            }),
    {
        self.dma_lo = n;
    }

    fn disk_operation(&mut self, op: u8, mem: &mut [u8; 65536])
        ensures
            final(self)@ == old(self)@.after_operation(op, old(mem)@),
            final(mem)@ == old(self)@.memory_after(op, old(mem)@),
    {
        match op {
            DISK_OP_SEEK => {
                self.seek();
            },
            DISK_OP_READ => {
                self.read_sector(mem);
            },
            DISK_OP_WRITE => {
                self.write_sector(mem);
            },
            DISK_OP_CLEAR => {
                self.clear();
            },
            _ => {
                self.status = SpinningDiskStatus::OpError;
            },
        }
    }
}

} // verus!
