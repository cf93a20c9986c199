//! The disk behind the port bus: the registers that the processor sets, a
//! buffer of one sector, and a worker that carries commands out on the
//! backing store while the processor goes on.
//!
//! The processor never waits for the disk. A command makes the disk busy and
//! is left for the worker; the worker leaves its result for the processor,
//! which finds it when it next polls the status. `service` is one turn of
//! the worker, taken whenever the program that runs the emulator sees fit.

use vstd::prelude::*;
use crate::alu::{get16, pair, split16};
use crate::disk_image::{
    is_image_file, sector_lies_within, sectors_are_apart, trailer_of, DiskImage, DiskImageError,
    Geometry, ImageState,
};
use crate::memory::{fetched, installed, load, store};

verus! {

/// The command that reads a sector into the buffer.
pub const DISK_READ: u8 = 0;

/// The command that writes the buffer to a sector.
pub const DISK_WRITE: u8 = 1;

/// The command that seeks a track.
pub const DISK_SEEK: u8 = 2;

/// The command that copies memory to the buffer.
pub const DISK_COPY_TO_BUFFER: u8 = 3;

/// The command that copies the buffer to memory.
pub const DISK_COPY_TO_MEMORY: u8 = 4;

/// The status that the processor sees.
#[derive(Clone, Copy, Debug, PartialEq, Eq, Structural)]
pub enum DiskStatus {
    /// Idle, and the last command succeeded.
    Ready,
    /// A command is under way.
    Busy,
    /// The worker was to seek a track that the disk does not have.
    SeekError,
    /// The worker could not read the sector.
    ReadError,
    /// The worker could not write the sector.
    WriteError,
    /// The command was none that the disk knows.
    OpError,
    /// The registers name a sector that the disk does not have.
    BadParam,
}

impl DiskStatus {
    /// The byte that stands for a status on the port bus: zero for a disk
    /// that is ready, 0xFF for one that is busy, and a code of its own for
    /// each error.
    pub open spec fn code(self) -> u8 {
        match self {
            DiskStatus::Ready => 0x00,
            DiskStatus::Busy => 0xFF,
            DiskStatus::SeekError => 0xFE,
            DiskStatus::ReadError => 0xFD,
            DiskStatus::WriteError => 0xFC,
            DiskStatus::OpError => 0xFB,
            DiskStatus::BadParam => 0xFA,
        }
    }

    /// The byte that stands for a status on the port bus.
    pub fn as_byte(self) -> (byte: u8)
        ensures
            byte == self.code(),
    {
        match self {
            DiskStatus::Ready => 0x00,
            DiskStatus::Busy => 0xFF,
            DiskStatus::SeekError => 0xFE,
            DiskStatus::ReadError => 0xFD,
            DiskStatus::WriteError => 0xFC,
            DiskStatus::OpError => 0xFB,
            DiskStatus::BadParam => 0xFA,
        }
    }
}

/// What the processor's side asks of the worker.
#[derive(Clone, Copy, Debug, PartialEq, Eq)]
pub enum DiskCommand {
    /// Latch a head and a track for the reads and writes that follow.
    Seek { head: u8, track: u8 },
    /// Read a sector of the latched track into the buffer.
    Read { sector: u8 },
    /// Write the buffer to a sector of the latched track.
    Write { sector: u8 },
    /// Give the backing store up.
    Stop,
}

/// What the worker has latched, and its backing store.
pub struct WorkerState {
    pub head: u8,
    pub track: u8,
    pub data: Seq<u8>,
    pub geometry: Geometry,
}

impl WorkerState {
    /// Where a sector of the latched track starts among the data bytes.
    pub open spec fn offset_of(self, sector: u8) -> nat {
        self.geometry.offset_of(self.head, self.track, sector)
    }

    /// Whether a sector of the latched track lies within the data.
    pub open spec fn in_reach(self, sector: u8) -> bool {
        self.offset_of(sector) + 128 <= self.data.len()
    }

    /// Whether the disk has this track under this head.
    pub open spec fn has_track(self, head: u8, track: u8) -> bool {
        head < self.geometry.heads && track < self.geometry.tracks_per_head
    }

    /// The worker after a command. Seeking latches the head and the track,
    /// if the disk has that track, and touches nothing else. Writing puts
    /// the buffer where the sector lies. Reading and stopping leave the
    /// worker as it is.
    pub open spec fn after(self, command: DiskCommand, buffer: Seq<u8>) -> WorkerState {
        match command {
            DiskCommand::Seek { head, track } => if self.has_track(head, track) {
                WorkerState { head, track, ..self }
            } else {
                self
            },
            DiskCommand::Write { sector } => if self.in_reach(sector) {
                let at = self.offset_of(sector) as int;
                WorkerState {
                    data: self.data.take(at) + buffer + self.data.skip(at + 128),
                    ..self
                }
            } else {
                self
            },
            _ => self,
        }
    }

    /// The buffer after a command: a read fills it with the sector.
    pub open spec fn buffer_after(self, command: DiskCommand, buffer: Seq<u8>) -> Seq<u8> {
        match command {
            DiskCommand::Read { sector } => if self.in_reach(sector) {
                let at = self.offset_of(sector) as int;
                self.data.subrange(at, at + 128)
            } else {
                buffer
            },
            _ => buffer,
        }
    }

    /// What the worker reports after a command: `Ready` for success, an
    /// error where the track does not exist or the sector lies outside the
    /// data, nothing after a stop.
    pub open spec fn result_of(self, command: DiskCommand) -> Option<DiskStatus> {
        match command {
            DiskCommand::Seek { head, track } => Some(
                if self.has_track(head, track) {
                    DiskStatus::Ready
                } else {
                    DiskStatus::SeekError
                },
            ),
            DiskCommand::Read { sector } => Some(
                if self.in_reach(sector) {
                    DiskStatus::Ready
                } else {
                    DiskStatus::ReadError
                },
            ),
            DiskCommand::Write { sector } => Some(
                if self.in_reach(sector) {
                    DiskStatus::Ready
                } else {
                    DiskStatus::WriteError
                },
            ),
            DiskCommand::Stop => None,
        }
    }
}

/// A write changes the sector that it names and no other: the 128 bytes of
/// every other sector of the disk are the same before and after.
pub proof fn write_keeps_other_sectors(
    w: WorkerState,
    sector: u8,
    buffer: Seq<u8>,
    other: (u8, u8, u8),
)
    requires
        w.data.len() == w.geometry.data_len(),
        buffer.len() == 128,
        w.geometry.contains(w.head, w.track, sector),
        w.geometry.contains(other.0, other.1, other.2),
        other != (w.head, w.track, sector),
    ensures
        ({
            let after = w.after(DiskCommand::Write { sector }, buffer);
            let at = w.geometry.offset_of(other.0, other.1, other.2) as int;
            &&& after.data.len() == w.data.len()
            &&& after.data.subrange(at, at + 128) == w.data.subrange(at, at + 128)
        }),
{
    let g = w.geometry;
    let after = w.after(DiskCommand::Write { sector }, buffer);
    let at = g.offset_of(other.0, other.1, other.2) as int;
    let written = w.offset_of(sector) as int;
    sector_lies_within(g, w.head, w.track, sector);
    sector_lies_within(g, other.0, other.1, other.2);
    if g.sector_index(other.0, other.1, other.2) == g.sector_index(w.head, w.track, sector) {
        sectors_are_apart(g, other, (w.head, w.track, sector));
    }
    assert(at + 128 <= written || written + 128 <= at);
    assert(after.data.subrange(at, at + 128) =~= w.data.subrange(at, at + 128));
}

/// The worker: it owns the backing store, and it remembers the head and the
/// track of the last seek, so that reads and writes name a sector only.
pub struct DiskWorker {
    head: u8,
    track: u8,
    image: DiskImage,
}

impl View for DiskWorker {
    type V = WorkerState;

    closed spec fn view(&self) -> WorkerState {
        WorkerState {
            head: self.head,
            track: self.track,
            data: self.image@.data,
            geometry: self.image@.geometry,
        }
    }
}

impl DiskWorker {
    /// A worker on a backing store, with head 0 and track 0 latched.
    pub fn new(image: DiskImage) -> (worker: DiskWorker)
        ensures
            worker@ == (WorkerState {
                head: 0,
                track: 0,
                data: image@.data,
                geometry: image@.geometry,
            }),
    {
        DiskWorker { head: 0, track: 0, image }
    }

    /// Carries out one command, with `buffer` as the transfer buffer.
    pub fn execute(&mut self, command: DiskCommand, buffer: &mut [u8; 128]) -> (result: Option<
        DiskStatus,
    >)
        ensures
            final(self)@ == old(self)@.after(command, old(buffer)@),
            final(buffer)@ == old(self)@.buffer_after(command, old(buffer)@),
            result == old(self)@.result_of(command),
            final(self)@.data.len() == old(self)@.data.len(),
    {
        match command {
            DiskCommand::Seek { head, track } => {
                let g = self.image.geometry();
                if head < g.heads && track < g.tracks_per_head {
                    self.head = head;
                    self.track = track;
                    Some(DiskStatus::Ready)
                } else {
                    Some(DiskStatus::SeekError)
                }
            },
            DiskCommand::Read { sector } => {
                let offset = self.image.geometry().translate(self.head, self.track, sector);
                if self.image.read_at(offset, buffer) {
                    Some(DiskStatus::Ready)
                } else {
                    Some(DiskStatus::ReadError)
                }
            },
            DiskCommand::Write { sector } => {
                let offset = self.image.geometry().translate(self.head, self.track, sector);
                if self.image.write_at(offset, buffer) {
                    Some(DiskStatus::Ready)
                } else {
                    Some(DiskStatus::WriteError)
                }
            },
            DiskCommand::Stop => None,
        }
    }

    /// Gives the backing store up.
    pub fn into_image(self) -> (image: DiskImage)
        ensures
            image@ == (ImageState { data: self@.data, geometry: self@.geometry }),
    {
        self.image
    }
}

/// The disk as a whole: what the processor sees of it, what passes between
/// the processor's side and the worker, and the worker.
pub struct DiskState {
    pub head: u8,
    pub track: u8,
    pub sector: u8,
    /// The address in memory that the buffer is copied to and from.
    pub addr: u16,
    pub status: DiskStatus,
    /// The transfer buffer, 128 bytes.
    pub buffer: Seq<u8>,
    /// The command that waits for the worker.
    pub command: Option<DiskCommand>,
    /// The result that the worker has left and the processor has not seen.
    pub completion: Option<DiskStatus>,
    pub worker: WorkerState,
}

impl DiskState {
    pub open spec fn geometry(self) -> Geometry {
        self.worker.geometry
    }

    /// Whether the worker can carry the command out on this disk.
    pub open spec fn fits(self, command: DiskCommand) -> bool {
        let g = self.geometry();
        match command {
            DiskCommand::Seek { head, track } => self.worker.has_track(head, track),
            DiskCommand::Read { sector } | DiskCommand::Write { sector } => g.contains(
                self.worker.head,
                self.worker.track,
                sector,
            ),
            DiskCommand::Stop => false,
        }
    }

    /// What holds of a disk at all times. At most one command is under way:
    /// while one waits or its result has not been seen the disk is busy,
    /// and the two do not occur together. The worker can carry out what
    /// waits for it, and on a disk that has sectors at all it has latched a
    /// track that exists.
    pub open spec fn wf(self) -> bool {
        let g = self.geometry();
        &&& self.buffer.len() == 128
        &&& self.worker.data.len() == g.data_len()
        &&& self.command matches Some(c) ==> self.status == DiskStatus::Busy && self.completion
            is None && self.fits(c)
        &&& self.completion matches Some(r) ==> self.status == DiskStatus::Busy && r
            != DiskStatus::Busy
        &&& g.heads > 0 && g.tracks_per_head > 0 ==> self.worker.head < g.heads && self.worker.track
            < g.tracks_per_head
    }

    pub open spec fn busy(self) -> bool {
        self.status == DiskStatus::Busy
    }

    /// A disk that was just opened on a backing store.
    pub open spec fn opened(data: Seq<u8>, geometry: Geometry) -> DiskState {
        DiskState {
            head: 0,
            track: 0,
            sector: 0,
            addr: 0,
            status: DiskStatus::Ready,
            buffer: Seq::new(128, |i: int| 0u8),
            command: None,
            completion: None,
            worker: WorkerState { head: 0, track: 0, data, geometry },
        }
    }

    pub open spec fn after_set_head(self, n: u8) -> DiskState {
        if self.busy() {
            self
        } else {
            DiskState { head: n, ..self }
        }
    }

    pub open spec fn after_set_track(self, n: u8) -> DiskState {
        if self.busy() {
            self
        } else {
            DiskState { track: n, ..self }
        }
    }

    pub open spec fn after_set_sector(self, n: u8) -> DiskState {
        if self.busy() {
            self
        } else {
            DiskState { sector: n, ..self }
        }
    }

    pub open spec fn after_set_addr_low(self, n: u8) -> DiskState {
        if self.busy() {
            self
        } else {
            DiskState { addr: pair((self.addr / 256) as u8, n), ..self }
        }
    }

    pub open spec fn after_set_addr_high(self, n: u8) -> DiskState {
        if self.busy() {
            self
        } else {
            DiskState { addr: pair(n, (self.addr % 256) as u8), ..self }
        }
    }

    /// A command is asked for. A busy disk ignores it. Registers that name
    /// no sector of the disk leave the status `BadParam` and nothing for the
    /// worker. Otherwise the disk becomes busy and the command waits for
    /// the worker.
    pub open spec fn after_request(self, command: DiskCommand) -> DiskState {
        if self.busy() {
            self
        } else if !self.geometry().contains(self.head, self.track, self.sector) {
            DiskState { status: DiskStatus::BadParam, ..self }
        } else {
            DiskState { status: DiskStatus::Busy, command: Some(command), ..self }
        }
    }

    pub open spec fn after_seek(self) -> DiskState {
        self.after_request(DiskCommand::Seek { head: self.head, track: self.track })
    }

    pub open spec fn after_read_sector(self) -> DiskState {
        self.after_request(DiskCommand::Read { sector: self.sector })
    }

    pub open spec fn after_write_sector(self) -> DiskState {
        self.after_request(DiskCommand::Write { sector: self.sector })
    }

    /// The buffer is filled from memory at the transfer address.
    pub open spec fn after_copy_from_addr(self, mem: Seq<u8>) -> DiskState {
        if self.busy() {
            self
        } else {
            DiskState { buffer: fetched(mem, self.addr, 128), ..self }
        }
    }

    /// Memory after the buffer was copied to the transfer address.
    pub open spec fn memory_after_copy_to_addr(self, mem: Seq<u8>) -> Seq<u8> {
        if self.busy() {
            mem
        } else {
            installed(mem, self.buffer, self.addr)
        }
    }

    /// A command that the disk does not know leaves the status `OpError`,
    /// unless the disk is busy.
    pub open spec fn after_unknown_command(self) -> DiskState {
        if self.busy() {
            self
        } else {
            DiskState { status: DiskStatus::OpError, ..self }
        }
    }

    /// The disk after a command code was written to it.
    pub open spec fn after_command(self, code: u8, mem: Seq<u8>) -> DiskState {
        if code == DISK_READ {
            self.after_read_sector()
        } else if code == DISK_WRITE {
            self.after_write_sector()
        } else if code == DISK_SEEK {
            self.after_seek()
        } else if code == DISK_COPY_TO_BUFFER {
            self.after_copy_from_addr(mem)
        } else if code == DISK_COPY_TO_MEMORY {
            self
        } else {
            self.after_unknown_command()
        }
    }

    /// Memory after a command code was written to the disk.
    pub open spec fn memory_after_command(self, code: u8, mem: Seq<u8>) -> Seq<u8> {
        if code == DISK_COPY_TO_MEMORY {
            self.memory_after_copy_to_addr(mem)
        } else {
            mem
        }
    }

    /// The processor polls: a result that the worker has left becomes the
    /// status.
    pub open spec fn after_status(self) -> DiskState {
        match self.completion {
            Some(result) => DiskState { status: result, completion: None, ..self },
            None => self,
        }
    }

    /// One turn of the worker: it takes the command that waits, carries it
    /// out and leaves its result.
    pub open spec fn after_service(self) -> DiskState {
        match self.command {
            Some(command) => DiskState {
                command: None,
                completion: self.worker.result_of(command),
                buffer: self.worker.buffer_after(command, self.buffer),
                worker: self.worker.after(command, self.buffer),
                ..self
            },
            None => self,
        }
    }
}

/// A busy disk ignores the processor: its registers cannot be set, no
/// further command is taken, and the buffer is not copied either way.
pub proof fn busy_disk_ignores_the_processor(s: DiskState, n: u8, mem: Seq<u8>)
    requires
        s.busy(),
    ensures
        s.after_set_head(n) == s,
        s.after_set_track(n) == s,
        s.after_set_sector(n) == s,
        s.after_set_addr_low(n) == s,
        s.after_set_addr_high(n) == s,
        s.after_seek() == s,
        s.after_read_sector() == s,
        s.after_write_sector() == s,
        s.after_copy_from_addr(mem) == s,
        s.memory_after_copy_to_addr(mem) == mem,
        s.after_command(n, mem) == s,
        s.memory_after_command(n, mem) == mem,
{
}

/// A command that is accepted runs its course. The disk is busy, and stays
/// so however often the processor polls, until the worker has had its turn;
/// the poll after that finds the disk ready, with nothing left under way.
pub proof fn accepted_command_completes(s: DiskState)
    requires
        s.wf(),
        s.command is Some,
    ensures
        s.busy(),
        s.after_status() == s,
        s.after_service().after_status().status == DiskStatus::Ready,
        s.after_service().after_status().command is None,
        s.after_service().after_status().completion is None,
        s.after_service().after_status().wf(),
{
    worker_succeeds(s);
}

/// A read of a sector that the tracks of the disk do not have is refused:
/// the status becomes `BadParam`, nothing is left for the worker, and the
/// worker's turn, when it comes, does not touch the backing store.
pub proof fn bad_sector_is_refused(s: DiskState)
    requires
        s.wf(),
        !s.busy(),
        s.sector >= s.geometry().sectors_per_track,
    ensures
        s.after_read_sector() == (DiskState { status: DiskStatus::BadParam, ..s }),
        s.after_read_sector().command is None,
        s.after_read_sector().after_service().worker == s.worker,
{
}

/// On a well-formed disk the worker does not fail: what waits for it names
/// a sector that lies within the data, so its result is `Ready`.
pub proof fn worker_succeeds(s: DiskState)
    requires
        s.wf(),
        s.command is Some,
    ensures
        s.after_service().completion == Some(DiskStatus::Ready),
        s.after_service().wf(),
{
    let g = s.geometry();
    match s.command->0 {
        DiskCommand::Read { sector } => {
            sector_lies_within(g, s.worker.head, s.worker.track, sector);
        },
        DiskCommand::Write { sector } => {
            sector_lies_within(g, s.worker.head, s.worker.track, sector);
        },
        _ => {},
    }
}

/// A sector that was written is read back unchanged. On an idle disk whose
/// registers name a sector, let the buffer be written, and later, whatever
/// the buffer holds by then, let the same sector of the same track be read:
/// both commands end with the status `Ready`, and the buffer holds the 128
/// bytes that were written.
pub proof fn written_sector_is_read_back(s: DiskState, later: Seq<u8>)
    requires
        s.wf(),
        !s.busy(),
        s.geometry().contains(s.head, s.track, s.sector),
        later.len() == 128,
    ensures
        ({
            let written = s.after_write_sector().after_service().after_status();
            let clobbered = DiskState { buffer: later, ..written };
            let read = clobbered.after_read_sector().after_service().after_status();
            &&& written.status == DiskStatus::Ready
            &&& read.status == DiskStatus::Ready
            &&& read.buffer == s.buffer
            &&& read.worker == written.worker
        }),
{
    let g = s.geometry();
    sector_lies_within(g, s.worker.head, s.worker.track, s.sector);
    let written = s.after_write_sector().after_service().after_status();
    let offset = s.worker.offset_of(s.sector) as int;
    assert(written.worker.data.subrange(offset, offset + 128) =~= s.buffer);
}

/// A sector reaches memory. On an idle disk, let head, track and sector be
/// set to a sector that the disk has, the track be sought and the sector be
/// read, with a turn of the worker and a poll after each of the two
/// commands. Both commands end with the status `Ready`, and once the
/// transfer address is set, copying the buffer puts the 128 bytes of that
/// sector into memory from the transfer address on.
pub proof fn sector_reaches_memory(
    s: DiskState,
    head: u8,
    track: u8,
    sector: u8,
    lo: u8,
    hi: u8,
    mem: Seq<u8>,
)
    requires
        s.wf(),
        !s.busy(),
        s.geometry().contains(head, track, sector),
        mem.len() == 65536,
    ensures
        ({
            let set = s.after_set_head(head).after_set_track(track).after_set_sector(sector);
            let sought = set.after_seek().after_service().after_status();
            let read = sought.after_read_sector().after_service().after_status();
            let aimed = read.after_set_addr_low(lo).after_set_addr_high(hi);
            let at = s.geometry().offset_of(head, track, sector) as int;
            &&& sought.status == DiskStatus::Ready
            &&& read.status == DiskStatus::Ready
            &&& read.worker.data == s.worker.data
            &&& fetched(aimed.memory_after_copy_to_addr(mem), pair(hi, lo), 128)
                == s.worker.data.subrange(at, at + 128)
        }),
{
    let set = s.after_set_head(head).after_set_track(track).after_set_sector(sector);
    let sought = set.after_seek().after_service().after_status();
    let read = sought.after_read_sector().after_service().after_status();
    let aimed = read.after_set_addr_low(lo).after_set_addr_high(hi);
    sector_lies_within(s.geometry(), head, track, sector);
    assert(aimed.addr == pair(hi, lo));
    crate::memory::fetched_after_installed(mem, aimed.buffer, aimed.addr);
}

/// The processor's handle on the disk, with the worker behind it.
pub struct Disk {
    head: u8,
    track: u8,
    sector: u8,
    addr: u16,
    status: DiskStatus,
    buf: [u8; 128],
    command: Option<DiskCommand>,
    completion: Option<DiskStatus>,
    worker: DiskWorker,
}

impl View for Disk {
    type V = DiskState;

    closed spec fn view(&self) -> DiskState {
        DiskState {
            head: self.head,
            track: self.track,
            sector: self.sector,
            addr: self.addr,
            status: self.status,
            buffer: self.buf@,
            command: self.command,
            completion: self.completion,
            worker: self.worker@,
        }
    }
}

impl Disk {
    /// Opens a disk on an image file. The file is refused unless it ends
    /// in a geometry and holds exactly the data of a disk of that geometry.
    pub fn open(file: Vec<u8>) -> (r: Result<Disk, DiskImageError>)
        ensures
            match r {
                Ok(disk) => {
                    &&& is_image_file(file@)
                    &&& disk@ == DiskState::opened(
                        file@.take(file@.len() - 3),
                        trailer_of(file@),
                    )
                    &&& disk@.wf()
                },
                Err(DiskImageError::Truncated) => file@.len() < 3,
                Err(DiskImageError::SizeMismatch) => file@.len() >= 3 && !is_image_file(file@),
                Err(DiskImageError::GeometryMismatch) => false,
            },
    {
        match DiskImage::open(file) {
            Ok(image) => Ok(Disk::with_image(image)),
            Err(e) => Err(e),
        }
    }

    /// A disk on a backing store: ready, with every register zero.
    pub fn with_image(image: DiskImage) -> (disk: Disk)
        ensures
            disk@ == DiskState::opened(image@.data, image@.geometry),
            disk@.wf(),
    {
        let g = image.geometry();
        let disk = Disk {
            head: 0,
            track: 0,
            sector: 0,
            addr: 0,
            status: DiskStatus::Ready,
            buf: [0; 128],
            command: None,
            completion: None,
            worker: DiskWorker::new(image),
        };
        assert(disk@.buffer =~= Seq::new(128, |i: int| 0u8));
        disk
    }

    /// The number of heads.
    pub fn heads(&self) -> (n: u8)
        ensures
            n == self@.geometry().heads,
    {
        self.worker.image.geometry().heads
    }

    /// The number of tracks under each head.
    pub fn tracks_per_head(&self) -> (n: u8)
        ensures
            n == self@.geometry().tracks_per_head,
    {
        self.worker.image.geometry().tracks_per_head
    }

    /// The number of sectors on each track.
    pub fn sectors_per_track(&self) -> (n: u8)
        ensures
            n == self@.geometry().sectors_per_track,
    {
        self.worker.image.geometry().sectors_per_track
    }

    /// Sets the head register, unless the disk is busy.
    pub fn set_head(&mut self, n: u8)
        ensures
            final(self)@ == old(self)@.after_set_head(n),
            old(self)@.wf() ==> final(self)@.wf(),
    {
        if self.status != DiskStatus::Busy {
            self.head = n;
        }
    }

    /// Sets the track register, unless the disk is busy.
    pub fn set_track(&mut self, n: u8)
        ensures
            final(self)@ == old(self)@.after_set_track(n),
            old(self)@.wf() ==> final(self)@.wf(),
    {
        if self.status != DiskStatus::Busy {
            self.track = n;
        }
    }

    /// Sets the sector register, unless the disk is busy.
    pub fn set_sector(&mut self, n: u8)
        ensures
            final(self)@ == old(self)@.after_set_sector(n),
            old(self)@.wf() ==> final(self)@.wf(),
    {
        if self.status != DiskStatus::Busy {
            self.sector = n;
        }
    }

    /// Sets the low byte of the transfer address, unless the disk is busy.
    pub fn set_addr_low(&mut self, n: u8)
        ensures
            final(self)@ == old(self)@.after_set_addr_low(n),
            old(self)@.wf() ==> final(self)@.wf(),
    {
        if self.status != DiskStatus::Busy {
            let (hi, _) = split16(self.addr);
            self.addr = get16(hi, n);
        }
    }

    /// Sets the high byte of the transfer address, unless the disk is busy.
    pub fn set_addr_high(&mut self, n: u8)
        ensures
            final(self)@ == old(self)@.after_set_addr_high(n),
            old(self)@.wf() ==> final(self)@.wf(),
    {
        if self.status != DiskStatus::Busy {
            let (_, lo) = split16(self.addr);
            self.addr = get16(n, lo);
        }
    }

    /// Asks for a command, as `after_request` says.
    fn request(&mut self, command: DiskCommand)
        requires
            command == (DiskCommand::Seek { head: old(self)@.head, track: old(self)@.track })
                || command == (DiskCommand::Read { sector: old(self)@.sector }) || command == (
            DiskCommand::Write { sector: old(self)@.sector }),
        ensures
            final(self)@ == old(self)@.after_request(command),
            old(self)@.wf() ==> final(self)@.wf(),
    {
        if self.status == DiskStatus::Busy {
            return ;
        }
        if !self.worker.image.geometry().validate(self.head, self.track, self.sector) {
            self.status = DiskStatus::BadParam;
            return ;
        }
        self.status = DiskStatus::Busy;
        self.command = Some(command);
    }

    /// Asks the worker to latch the head and the track in the registers.
    pub fn seek(&mut self)
        ensures
            final(self)@ == old(self)@.after_seek(),
            old(self)@.wf() ==> final(self)@.wf(),
    {
        self.request(DiskCommand::Seek { head: self.head, track: self.track });
    }

    /// Asks the worker to read the sector in the sector register, on the
    /// latched track, into the buffer.
    pub fn read_sector(&mut self)
        ensures
            final(self)@ == old(self)@.after_read_sector(),
            old(self)@.wf() ==> final(self)@.wf(),
    {
        self.request(DiskCommand::Read { sector: self.sector });
    }

    /// Asks the worker to write the buffer to the sector in the sector
    /// register, on the latched track.
    pub fn write_sector(&mut self)
        ensures
            final(self)@ == old(self)@.after_write_sector(),
            old(self)@.wf() ==> final(self)@.wf(),
    {
        self.request(DiskCommand::Write { sector: self.sector });
    }

    /// Fills the buffer with the 128 bytes of memory at the transfer
    /// address, wrapping at the end of memory. A busy disk does nothing.
    pub fn copy_from_addr(&mut self, mem: &[u8; 65536])
        ensures
            final(self)@ == old(self)@.after_copy_from_addr(mem@),
            old(self)@.wf() ==> final(self)@.wf(),
    {
        if self.status != DiskStatus::Busy {
            load(mem, self.addr, &mut self.buf);
        }
    }

    /// Copies the buffer to memory at the transfer address, wrapping at the
    /// end of memory. A busy disk does nothing.
    pub fn copy_to_addr(&self, mem: &mut [u8; 65536])
        ensures
            final(mem)@ == self@.memory_after_copy_to_addr(old(mem)@),
    {
        if self.status != DiskStatus::Busy {
            store(mem, &self.buf, self.addr);
        }
    }

    /// Gives the disk the command that `code` stands for. `mem` is the
    /// memory that the two copy commands read and write.
    pub fn command(&mut self, code: u8, mem: &mut [u8; 65536])
        ensures
            final(self)@ == old(self)@.after_command(code, old(mem)@),
            final(mem)@ == old(self)@.memory_after_command(code, old(mem)@),
            old(self)@.wf() ==> final(self)@.wf(),
    {
        match code {
            DISK_READ => self.read_sector(),
            DISK_WRITE => self.write_sector(),
            DISK_SEEK => self.seek(),
            DISK_COPY_TO_BUFFER => self.copy_from_addr(mem),
            DISK_COPY_TO_MEMORY => self.copy_to_addr(mem),
            _ => {
                if self.status != DiskStatus::Busy {
                    self.status = DiskStatus::OpError;
                }
            },
        }
    }

    /// Polls the disk. A result that the worker has left becomes the status;
    /// without one the status stays, busy if it was.
    pub fn status(&mut self) -> (code: u8)
        ensures
            final(self)@ == old(self)@.after_status(),
            code == final(self)@.status.code(),
            old(self)@.wf() ==> final(self)@.wf(),
    {
        match self.completion {
            Some(result) => {
                self.completion = None;
                self.status = result;
            },
            None => {},
        }
        self.status.as_byte()
    }

    /// One turn of the worker: carries out the command that waits, if there
    /// is one, and says whether there was.
    pub fn service(&mut self) -> (worked: bool)
        ensures
            final(self)@ == old(self)@.after_service(),
            worked == old(self)@.command.is_some(),
            old(self)@.wf() ==> final(self)@.wf(),
    {
        match self.command {
            Some(command) => {
                self.command = None;
                let result = self.worker.execute(command, &mut self.buf);
                self.completion = result;
                true
            },
            None => false,
        }
    }

    /// Stops the worker, which first carries out the command that waits,
    /// and hands back the backing store.
    pub fn halt(self) -> (image: DiskImage)
        ensures
            image@ == (ImageState {
                data: self@.after_service().worker.data,
                geometry: self@.geometry(),
            }),
    {
        let mut disk = self;
        disk.service();
        let Disk { worker, buf, .. } = disk;
        let mut worker = worker;
        let mut buf = buf;
        worker.execute(DiskCommand::Stop, &mut buf);
        worker.into_image()
    }
}

} // verus!
