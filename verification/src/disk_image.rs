//! The backing store of a disk: its geometry, where each sector lies, and
//! the layout of an image file.
//!
//! An image file holds the sectors, 128 bytes each, head by head, track by
//! track within a head and sector by sector within a track, and after them
//! three bytes: the number of heads, of tracks per head and of sectors per
//! track.

use vstd::prelude::*;

verus! {

/// The size of a sector, in bytes.
pub const SECTOR_SIZE: usize = 128;

/// The size of the geometry descriptor that ends an image file, in bytes.
pub const TRAILER_SIZE: usize = 3;

/// The shape of a disk.
#[derive(Clone, Copy, Debug, PartialEq, Eq)]
pub struct Geometry {
    pub heads: u8,
    pub tracks_per_head: u8,
    pub sectors_per_track: u8,
}

impl Geometry {
    /// The number of sectors on the disk.
    pub open spec fn sector_count(self) -> nat {
        (self.heads * self.tracks_per_head * self.sectors_per_track) as nat
    }

    /// The number of data bytes on the disk.
    pub open spec fn data_len(self) -> nat {
        self.sector_count() * 128
    }

    /// Whether the disk has a sector with these coordinates.
    pub open spec fn contains(self, head: u8, track: u8, sector: u8) -> bool {
        head < self.heads && track < self.tracks_per_head && sector < self.sectors_per_track
    }

    /// The number of a sector, counting head by head and track by track.
    pub open spec fn sector_index(self, head: u8, track: u8, sector: u8) -> nat {
        ((head * self.tracks_per_head + track) * self.sectors_per_track + sector) as nat
    }

    /// Where the sector with these coordinates starts among the data bytes.
    pub open spec fn offset_of(self, head: u8, track: u8, sector: u8) -> nat {
        self.sector_index(head, track, sector) * 128
    }

    /// Whether the disk has a sector with these coordinates.
    pub fn validate(&self, head: u8, track: u8, sector: u8) -> (ok: bool)
        ensures
            ok == self.contains(head, track, sector),
    {
        head < self.heads && track < self.tracks_per_head && sector < self.sectors_per_track
    }

    /// The number of data bytes on the disk.
    pub fn data_size(&self) -> (len: usize)
        ensures
            len == self.data_len(),
    {
        proof {
            bounds(
                self.heads as int,
                self.tracks_per_head as int,
                self.sectors_per_track as int,
                0,
                0,
            );
        }
        let per_head: u32 = self.heads as u32 * self.tracks_per_head as u32;
        let count: u32 = per_head * self.sectors_per_track as u32;
        (count * 128) as usize
    }

    /// Where the sector with these coordinates starts among the data bytes.
    pub fn translate(&self, head: u8, track: u8, sector: u8) -> (offset: usize)
        ensures
            offset == self.offset_of(head, track, sector),
    {
        proof {
            bounds(
                head as int,
                self.tracks_per_head as int,
                self.sectors_per_track as int,
                track as int,
                sector as int,
            );
        }
        let tracks: u32 = head as u32 * self.tracks_per_head as u32 + track as u32;
        let sectors: u32 = tracks * self.sectors_per_track as u32 + sector as u32;
        (sectors * 128) as usize
    }
}

/// Products of bytes stay far below the range of 32 bits.
proof fn bounds(a: int, b: int, c: int, d: int, e: int)
    requires
        0 <= a <= 255,
        0 <= b <= 255,
        0 <= c <= 255,
        0 <= d <= 255,
        0 <= e <= 255,
    ensures
        0 <= a * b <= 65025,
        0 <= a * b + d <= 65280,
        0 <= (a * b + d) * c <= 16646400,
        0 <= (a * b + d) * c + e <= 16646655,
        a * b * c == (a * b) * c,
{
    assert(0 <= a * b <= 65025) by (nonlinear_arith)
        requires
            0 <= a <= 255,
            0 <= b <= 255,
    ;
    let ab = a * b + d;
    assert(0 <= ab * c <= 16646400) by (nonlinear_arith)
        requires
            0 <= ab <= 65280,
            0 <= c <= 255,
    ;
}

/// A sector of the disk lies within its data: it ends where the next one
/// starts, and the last one ends with the data.
pub proof fn sector_lies_within(g: Geometry, head: u8, track: u8, sector: u8)
    requires
        g.contains(head, track, sector),
    ensures
        g.sector_index(head, track, sector) < g.sector_count(),
        g.offset_of(head, track, sector) + 128 <= g.data_len(),
{
    let h = head as int;
    let t = track as int;
    let s = sector as int;
    let heads = g.heads as int;
    let tracks = g.tracks_per_head as int;
    let sectors = g.sectors_per_track as int;
    assert((h * tracks + t) * sectors + s < heads * tracks * sectors) by (nonlinear_arith)
        requires
            0 <= h < heads,
            0 <= t < tracks,
            0 <= s < sectors,
    {
        assert(h * tracks + t + 1 <= heads * tracks) by {
            assert((h + 1) * tracks <= heads * tracks);
        }
        assert((h * tracks + t + 1) * sectors <= (heads * tracks) * sectors);
    }
}

/// Two sectors of the disk with the same number have the same coordinates:
/// no two sectors share a byte.
pub proof fn sectors_are_apart(g: Geometry, a: (u8, u8, u8), b: (u8, u8, u8))
    requires
        g.contains(a.0, a.1, a.2),
        g.contains(b.0, b.1, b.2),
        g.sector_index(a.0, a.1, a.2) == g.sector_index(b.0, b.1, b.2),
    ensures
        a == b,
{
    let tracks = g.tracks_per_head as int;
    let sectors = g.sectors_per_track as int;
    let x = a.0 * tracks + a.1;
    let y = b.0 * tracks + b.1;
    assert(x == y) by (nonlinear_arith)
        requires
            x * sectors + a.2 == y * sectors + b.2,
            0 <= a.2 < sectors,
            0 <= b.2 < sectors,
    {
        if x < y {
            assert((x + 1) * sectors <= y * sectors);
        } else if y < x {
            assert((y + 1) * sectors <= x * sectors);
        }
    }
    let (h, k) = (a.0 as int, b.0 as int);
    assert(h == k) by (nonlinear_arith)
        requires
            h * tracks + a.1 == k * tracks + b.1,
            0 <= a.1 < tracks,
            0 <= b.1 < tracks,
    {
        if h < k {
            assert((h + 1) * tracks <= k * tracks);
        } else if k < h {
            assert((k + 1) * tracks <= h * tracks);
        }
    }
}

/// Why bytes are no disk image.
#[derive(Clone, Copy, Debug, PartialEq, Eq)]
pub enum DiskImageError {
    /// There are fewer than three bytes, so no geometry.
    Truncated,
    /// The data is not as long as the geometry says.
    SizeMismatch,
    /// The geometry is not the one that was asked for.
    GeometryMismatch,
}

/// The geometry that the last three bytes of an image file declare.
pub open spec fn trailer_of(file: Seq<u8>) -> Geometry {
    Geometry {
        heads: file[file.len() - 3],
        tracks_per_head: file[file.len() - 2],
        sectors_per_track: file[file.len() - 1],
    }
}

/// Whether bytes are an image file: a geometry at the end, and before it
/// exactly as many data bytes as that geometry has.
pub open spec fn is_image_file(file: Seq<u8>) -> bool {
    file.len() >= 3 && file.len() - 3 == trailer_of(file).data_len()
}

/// The image file of a disk with the given data and geometry.
pub open spec fn image_file(data: Seq<u8>, geometry: Geometry) -> Seq<u8> {
    data + seq![geometry.heads, geometry.tracks_per_head, geometry.sectors_per_track]
}

/// The file of a disk whose data fits its geometry is an image file, and it
/// declares that geometry and holds that data.
pub proof fn image_file_is_read_back(data: Seq<u8>, geometry: Geometry)
    requires
        data.len() == geometry.data_len(),
    ensures
        is_image_file(image_file(data, geometry)),
        trailer_of(image_file(data, geometry)) == geometry,
        image_file(data, geometry).take(data.len() as int) == data,
{
}

/// A disk in memory: the data bytes and the geometry of an image file.
pub struct DiskImage {
    data: Vec<u8>,
    geometry: Geometry,
}

/// What a disk image holds.
pub struct ImageState {
    /// The data bytes, sector by sector.
    pub data: Seq<u8>,
    pub geometry: Geometry,
}

impl View for DiskImage {
    type V = ImageState;

    closed spec fn view(&self) -> ImageState {
        ImageState { data: self.data@, geometry: self.geometry }
    }
}

impl DiskImage {
    #[verifier::type_invariant]
    spec fn inv(self) -> bool {
        self.data@.len() == self.geometry.data_len()
    }

    /// Reads an image file. It is refused unless it ends in a geometry and
    /// holds exactly the data of a disk of that geometry.
    pub fn open(file: Vec<u8>) -> (r: Result<DiskImage, DiskImageError>)
        ensures
            match r {
                Ok(image) => {
                    &&& is_image_file(file@)
                    &&& image@.geometry == trailer_of(file@)
                    &&& image@.data == file@.take(file@.len() - 3)
                },
                Err(DiskImageError::Truncated) => file@.len() < 3,
                Err(DiskImageError::SizeMismatch) => file@.len() >= 3 && !is_image_file(file@),
                Err(DiskImageError::GeometryMismatch) => false,
            },
    {
        let len = file.len();
        if len < TRAILER_SIZE {
            return Err(DiskImageError::Truncated);
        }
        let geometry = Geometry {
            heads: file[len - 3],
            tracks_per_head: file[len - 2],
            sectors_per_track: file[len - 1],
        };
        if len - TRAILER_SIZE != geometry.data_size() {
            return Err(DiskImageError::SizeMismatch);
        }
        let mut data = file;
        data.truncate(len - TRAILER_SIZE);
        Ok(DiskImage { data, geometry })
    }

    /// A disk of the given geometry with every byte zero.
    pub fn blank(geometry: Geometry) -> (image: DiskImage)
        ensures
            image@.geometry == geometry,
            image@.data.len() == geometry.data_len(),
            forall|i: int| 0 <= i < image@.data.len() ==> image@.data[i] == 0,
    {
        let mut data: Vec<u8> = Vec::new();
        data.resize(geometry.data_size(), 0);
        DiskImage { data, geometry }
    }

    /// The image file of the disk.
    pub fn into_bytes(self) -> (file: Vec<u8>)
        ensures
            file@ == image_file(self@.data, self@.geometry),
            is_image_file(file@),
    {
        proof {
            use_type_invariant(&self);
            image_file_is_read_back(self@.data, self@.geometry);
        }
        let mut file = self.data;
        file.push(self.geometry.heads);
        file.push(self.geometry.tracks_per_head);
        file.push(self.geometry.sectors_per_track);
        file
    }

    /// The geometry of the disk.
    pub fn geometry(&self) -> (g: Geometry)
        ensures
            g == self@.geometry,
            self@.data.len() == g.data_len(),
    {
        proof {
            use_type_invariant(self);
        }
        self.geometry
    }

    /// Reads the 128 bytes at `offset` into `buf`. Where the data ends
    /// before that, nothing is read and the answer is `false`.
    pub fn read_at(&self, offset: usize, buf: &mut [u8; 128]) -> (ok: bool)
        ensures
            ok == (offset + 128 <= self@.data.len()),
            ok ==> final(buf)@ == self@.data.subrange(offset as int, offset + 128),
            !ok ==> *final(buf) == *old(buf),
    {
        if offset > self.data.len() || self.data.len() - offset < SECTOR_SIZE {
            return false;
        }
        let mut i: usize = 0;
        while i < SECTOR_SIZE
            invariant
                i <= 128,
                offset + 128 <= self.data@.len() <= usize::MAX,
                forall|j: int| 0 <= j < i ==> buf@[j] == self.data@[offset + j],
            decreases 128 - i,
        {
            buf[i] = self.data[offset + i];
            i = i + 1;
        }
        assert(buf@ =~= self@.data.subrange(offset as int, offset + 128));
        true
    }

    /// Writes the 128 bytes of `buf` at `offset`. Where the data ends before
    /// that, nothing is written and the answer is `false`.
    pub fn write_at(&mut self, offset: usize, buf: &[u8; 128]) -> (ok: bool)
        ensures
            ok == (offset + 128 <= old(self)@.data.len()),
            final(self)@.geometry == old(self)@.geometry,
            final(self)@.data.len() == old(self)@.data.len(),
            ok ==> final(self)@.data == old(self)@.data.take(offset as int) + buf@ + old(
                self,
            )@.data.skip(offset + 128),
            !ok ==> final(self)@ == old(self)@,
    {
        if offset > self.data.len() || self.data.len() - offset < SECTOR_SIZE {
            return false;
        }
        proof {
            use_type_invariant(&*self);
        }
        let mut i: usize = 0;
        while i < SECTOR_SIZE
            invariant
                i <= 128,
                offset + 128 <= self.data@.len() <= usize::MAX,
                self.data@.len() == self.geometry.data_len(),
                self.data@.len() == old(self).data@.len(),
                self.geometry == old(self).geometry,
                forall|j: int| 0 <= j < i ==> self.data@[offset + j] == buf@[j],
                forall|j: int|
                    0 <= j < self.data@.len() && !(offset <= j < offset + i) ==> self.data@[j]
                        == old(self).data@[j],
            decreases 128 - i,
        {
            self.data[offset + i] = buf[i];
            i = i + 1;
        }
        let ghost before = old(self)@.data;
        assert(self@.data =~= before.take(offset as int) + buf@ + before.skip(offset + 128));
        true
    }
}

} // verus!
