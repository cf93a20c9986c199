use z80emu::disk::{Disk, DiskCommand, DiskStatus, DiskWorker};
use z80emu::disk_image::{DiskImage, DiskImageError, Geometry};
use z80emu::z80::make;

const READY: u8 = 0x00;
const BUSY: u8 = 0xFF;
const BAD_PARAM: u8 = 0xFA;

fn image_file(heads: u8, tracks: u8, sectors: u8, fill: u8) -> Vec<u8> {
    let len = heads as usize * tracks as usize * sectors as usize * 128;
    let mut file = vec![fill; len];
    file.extend_from_slice(&[heads, tracks, sectors]);
    file
}

/// A disk of 2 heads, 3 tracks and 4 sectors in which every byte of a sector
/// is the number of that sector.
fn numbered_disk() -> Disk {
    let mut file = Vec::new();
    for sector in 0..24u8 {
        file.extend_from_slice(&[sector; 128]);
    }
    file.extend_from_slice(&[2, 3, 4]);
    Disk::open(file).ok().unwrap()
}

fn wait(disk: &mut Disk) -> u8 {
    assert_eq!(disk.status(), BUSY);
    assert!(disk.service());
    let code = disk.status();
    assert_ne!(code, BUSY);
    code
}

#[test]
fn open_refuses_wrong_length() {
    let mut file = image_file(1, 1, 1, 0);
    file.insert(0, 0);
    assert_eq!(Disk::open(file).err(), Some(DiskImageError::SizeMismatch));
    let mut file = image_file(2, 2, 2, 0);
    file.remove(0);
    assert_eq!(Disk::open(file).err(), Some(DiskImageError::SizeMismatch));
    assert_eq!(Disk::open(vec![0u8; 128]).err(), Some(DiskImageError::SizeMismatch));
}

#[test]
fn open_refuses_file_without_geometry() {
    assert_eq!(Disk::open(vec![]).err(), Some(DiskImageError::Truncated));
    assert_eq!(Disk::open(vec![1, 1]).err(), Some(DiskImageError::Truncated));
}

#[test]
fn open_accepts_matching_image() {
    let disk = Disk::open(image_file(2, 3, 4, 0)).ok().unwrap();
    assert_eq!(disk.heads(), 2);
    assert_eq!(disk.tracks_per_head(), 3);
    assert_eq!(disk.sectors_per_track(), 4);
}

#[test]
fn open_accepts_disk_without_sectors() {
    let mut disk = Disk::open(vec![0, 5, 5]).ok().unwrap();
    assert_eq!(disk.heads(), 0);
    assert_eq!(disk.status(), READY);
    disk.seek();
    assert_eq!(disk.status(), BAD_PARAM);
}

#[test]
fn opened_disk_is_ready() {
    let mut disk = numbered_disk();
    assert_eq!(disk.status(), READY);
    assert!(!disk.service());
    assert_eq!(disk.status(), READY);
}

#[test]
fn status_codes() {
    assert_eq!(DiskStatus::Ready.as_byte(), 0x00);
    assert_eq!(DiskStatus::Busy.as_byte(), 0xFF);
    assert_eq!(DiskStatus::SeekError.as_byte(), 0xFE);
    assert_eq!(DiskStatus::ReadError.as_byte(), 0xFD);
    assert_eq!(DiskStatus::WriteError.as_byte(), 0xFC);
    assert_eq!(DiskStatus::OpError.as_byte(), 0xFB);
    assert_eq!(DiskStatus::BadParam.as_byte(), 0xFA);
}

#[test]
fn seek_read_copy_to_memory() {
    let mut disk = Disk::open(image_file(1, 1, 1, 0xAA)).ok().unwrap();
    let mut cpu = make(0);
    disk.set_head(0);
    disk.set_track(0);
    disk.seek();
    assert_eq!(wait(&mut disk), READY);
    disk.set_sector(0);
    disk.read_sector();
    let mut polls = 0;
    while disk.status() == BUSY {
        disk.service();
        polls += 1;
        assert!(polls < 10);
    }
    assert_eq!(disk.status(), READY);
    disk.set_addr_low(0x00);
    disk.set_addr_high(0x01);
    disk.copy_to_addr(&mut cpu.mem);
    assert_eq!(&cpu.mem[0x0100..0x0180], &[0xAA; 128]);
    assert_eq!(cpu.mem[0x00FF], 0);
    assert_eq!(cpu.mem[0x0180], 0);
}

#[test]
fn read_picks_the_sector_by_head_track_and_sector() {
    let mut disk = numbered_disk();
    let mut cpu = make(0);
    for head in 0..2u8 {
        for track in 0..3u8 {
            for sector in 0..4u8 {
                disk.set_head(head);
                disk.set_track(track);
                disk.set_sector(sector);
                disk.seek();
                assert_eq!(wait(&mut disk), READY);
                disk.read_sector();
                assert_eq!(wait(&mut disk), READY);
                disk.copy_to_addr(&mut cpu.mem);
                let number = (head * 3 + track) * 4 + sector;
                assert_eq!(&cpu.mem[0..128], &[number; 128]);
            }
        }
    }
}

#[test]
fn read_uses_the_latched_track() {
    let mut disk = numbered_disk();
    let mut cpu = make(0);
    disk.set_head(1);
    disk.set_track(2);
    disk.seek();
    assert_eq!(wait(&mut disk), READY);
    // The registers change, the worker has not been told to seek again.
    disk.set_head(0);
    disk.set_track(0);
    disk.set_sector(3);
    disk.read_sector();
    assert_eq!(wait(&mut disk), READY);
    disk.copy_to_addr(&mut cpu.mem);
    assert_eq!(&cpu.mem[0..128], &[23u8; 128]);
}

#[test]
fn read_without_seek_is_on_the_first_track() {
    let mut disk = numbered_disk();
    let mut cpu = make(0);
    disk.set_sector(2);
    disk.read_sector();
    assert_eq!(wait(&mut disk), READY);
    disk.copy_to_addr(&mut cpu.mem);
    assert_eq!(&cpu.mem[0..128], &[2u8; 128]);
}

#[test]
fn written_sector_is_read_back() {
    let mut disk = numbered_disk();
    let mut cpu = make(0);
    let payload: Vec<u8> = (0..128u8).map(|i| i.wrapping_mul(3).wrapping_add(1)).collect();
    cpu.install(&payload, 0x2000);
    disk.set_head(1);
    disk.set_track(1);
    disk.set_sector(2);
    disk.seek();
    assert_eq!(wait(&mut disk), READY);
    disk.set_addr_high(0x20);
    disk.copy_from_addr(&cpu.mem);
    disk.write_sector();
    assert_eq!(wait(&mut disk), READY);
    // Something else passes through the buffer.
    disk.set_sector(0);
    disk.read_sector();
    assert_eq!(wait(&mut disk), READY);
    disk.set_sector(2);
    disk.read_sector();
    assert_eq!(wait(&mut disk), READY);
    disk.set_addr_high(0x30);
    disk.copy_to_addr(&mut cpu.mem);
    assert_eq!(&cpu.mem[0x3000..0x3080], &payload[..]);
}

#[test]
fn write_changes_only_its_sector() {
    let mut disk = numbered_disk();
    let mut cpu = make(0);
    cpu.install(&[0xEE; 128], 0);
    disk.set_head(1);
    disk.set_track(0);
    disk.set_sector(1);
    disk.seek();
    assert_eq!(wait(&mut disk), READY);
    disk.copy_from_addr(&cpu.mem);
    disk.write_sector();
    assert_eq!(wait(&mut disk), READY);
    let file = disk.halt().into_bytes();
    assert_eq!(file.len(), 24 * 128 + 3);
    for sector in 0..24usize {
        let expected = if sector == 13 { 0xEE } else { sector as u8 };
        assert_eq!(&file[sector * 128..(sector + 1) * 128], &[expected; 128]);
    }
    assert_eq!(&file[24 * 128..], &[2, 3, 4]);
}

#[test]
fn bad_sector_is_refused() {
    let mut disk = numbered_disk();
    disk.set_sector(4);
    disk.read_sector();
    assert_eq!(disk.status(), BAD_PARAM);
    assert!(!disk.service());
    assert_eq!(disk.status(), BAD_PARAM);
    let file = disk.halt().into_bytes();
    for sector in 0..24usize {
        assert_eq!(&file[sector * 128..(sector + 1) * 128], &[sector as u8; 128]);
    }
}

#[test]
fn bad_head_or_track_is_refused() {
    let mut disk = numbered_disk();
    disk.set_head(2);
    disk.seek();
    assert_eq!(disk.status(), BAD_PARAM);
    disk.set_head(1);
    disk.set_track(3);
    disk.write_sector();
    assert_eq!(disk.status(), BAD_PARAM);
    disk.set_track(2);
    disk.seek();
    assert_eq!(wait(&mut disk), READY);
}

#[test]
fn bad_param_can_be_corrected() {
    let mut disk = numbered_disk();
    let mut cpu = make(0);
    disk.set_sector(200);
    disk.read_sector();
    assert_eq!(disk.status(), BAD_PARAM);
    disk.set_sector(1);
    disk.read_sector();
    assert_eq!(wait(&mut disk), READY);
    disk.copy_to_addr(&mut cpu.mem);
    assert_eq!(&cpu.mem[0..128], &[1u8; 128]);
}

#[test]
fn busy_disk_ignores_registers_and_commands() {
    let mut disk = numbered_disk();
    let mut cpu = make(0);
    cpu.install(&[0x55; 128], 0x0400);
    disk.set_sector(1);
    disk.read_sector();
    assert_eq!(disk.status(), BUSY);
    // None of these takes effect.
    disk.set_head(1);
    disk.set_track(2);
    disk.set_sector(3);
    disk.set_addr_low(0x80);
    disk.set_addr_high(0x04);
    disk.seek();
    disk.write_sector();
    disk.read_sector();
    disk.copy_from_addr(&cpu.mem);
    disk.copy_to_addr(&mut cpu.mem);
    assert_eq!(&cpu.mem[0..128], &[0u8; 128]);
    assert_eq!(disk.status(), BUSY);
    assert!(disk.service());
    assert!(!disk.service());
    assert_eq!(disk.status(), READY);
    disk.copy_to_addr(&mut cpu.mem);
    assert_eq!(&cpu.mem[0..128], &[1u8; 128]);
    // The sector register is still 1, the latched track still the first.
    disk.read_sector();
    assert_eq!(wait(&mut disk), READY);
    disk.copy_to_addr(&mut cpu.mem);
    assert_eq!(&cpu.mem[0..128], &[1u8; 128]);
}

#[test]
fn unknown_command_is_an_error() {
    let mut disk = numbered_disk();
    let mut cpu = make(0);
    disk.command(5, &mut cpu.mem);
    assert_eq!(disk.status(), 0xFB);
    assert!(!disk.service());
    disk.command(2, &mut cpu.mem);
    assert_eq!(wait(&mut disk), READY);
    disk.command(255, &mut cpu.mem);
    assert_eq!(disk.status(), 0xFB);
}

#[test]
fn commands_by_code() {
    let mut disk = numbered_disk();
    let mut cpu = make(0);
    cpu.install(&[0x42; 128], 0);
    disk.set_sector(1);
    disk.command(3, &mut cpu.mem);
    disk.command(1, &mut cpu.mem);
    assert_eq!(wait(&mut disk), READY);
    disk.set_sector(0);
    disk.command(0, &mut cpu.mem);
    assert_eq!(wait(&mut disk), READY);
    disk.set_addr_high(0x10);
    disk.command(4, &mut cpu.mem);
    assert_eq!(&cpu.mem[0x1000..0x1080], &[0u8; 128]);
    disk.set_sector(1);
    disk.command(0, &mut cpu.mem);
    assert_eq!(wait(&mut disk), READY);
    disk.command(4, &mut cpu.mem);
    assert_eq!(&cpu.mem[0x1000..0x1080], &[0x42u8; 128]);
}

#[test]
fn status_stays_busy_until_the_worker_has_had_its_turn() {
    let mut disk = numbered_disk();
    disk.seek();
    assert_eq!(disk.status(), BUSY);
    assert_eq!(disk.status(), BUSY);
    assert!(disk.service());
    assert_eq!(disk.status(), READY);
    assert_eq!(disk.status(), READY);
}

#[test]
fn copy_wraps_at_the_end_of_memory() {
    let mut disk = numbered_disk();
    let mut cpu = make(0);
    let payload: Vec<u8> = (0..128u8).collect();
    cpu.install(&payload, 0xFFC0);
    disk.set_addr_low(0xC0);
    disk.set_addr_high(0xFF);
    disk.copy_from_addr(&cpu.mem);
    let mut other = make(0);
    disk.set_addr_low(0xF0);
    disk.copy_to_addr(&mut other.mem);
    assert_eq!(&other.mem[0xFFF0..], &payload[..16]);
    assert_eq!(&other.mem[..112], &payload[16..]);
    assert_eq!(other.mem[112], 0);
    assert_eq!(other.mem[0xFFEF], 0);
}

#[test]
fn transfer_address_is_set_byte_by_byte() {
    let mut disk = numbered_disk();
    let mut cpu = make(0);
    disk.set_sector(3);
    disk.read_sector();
    assert_eq!(wait(&mut disk), READY);
    disk.set_addr_high(0x12);
    disk.set_addr_low(0x34);
    disk.set_addr_high(0x56);
    disk.copy_to_addr(&mut cpu.mem);
    assert_eq!(&cpu.mem[0x5634..0x5634 + 128], &[3u8; 128]);
    assert_eq!(cpu.mem[0x1234], 0);
}

#[test]
fn halt_lets_the_worker_finish() {
    let mut disk = numbered_disk();
    let mut cpu = make(0);
    cpu.install(&[0x99; 128], 0);
    disk.copy_from_addr(&cpu.mem);
    disk.write_sector();
    let file = disk.halt().into_bytes();
    assert_eq!(&file[..128], &[0x99; 128]);
    assert_eq!(&file[128..256], &[1; 128]);
}

#[test]
fn worker_executes_commands() {
    let image = DiskImage::open(image_file(2, 2, 2, 0x10)).ok().unwrap();
    let mut worker = DiskWorker::new(image);
    let mut buffer = [0x77u8; 128];
    assert_eq!(worker.execute(DiskCommand::Seek { head: 1, track: 1 }, &mut buffer), Some(DiskStatus::Ready));
    assert_eq!(worker.execute(DiskCommand::Write { sector: 1 }, &mut buffer), Some(DiskStatus::Ready));
    let mut read = [0u8; 128];
    assert_eq!(worker.execute(DiskCommand::Read { sector: 1 }, &mut read), Some(DiskStatus::Ready));
    assert_eq!(read, [0x77u8; 128]);
    assert_eq!(worker.execute(DiskCommand::Read { sector: 0 }, &mut read), Some(DiskStatus::Ready));
    assert_eq!(read, [0x10u8; 128]);
    assert_eq!(worker.execute(DiskCommand::Stop, &mut read), None);
    let file = worker.into_image().into_bytes();
    assert_eq!(&file[7 * 128..8 * 128], &[0x77u8; 128]);
    assert_eq!(&file[..7 * 128], &[0x10u8; 7 * 128][..]);
}

#[test]
fn worker_reports_what_it_cannot_reach() {
    let image = DiskImage::open(image_file(1, 1, 1, 0)).ok().unwrap();
    let mut worker = DiskWorker::new(image);
    let mut buffer = [0x77u8; 128];
    assert_eq!(worker.execute(DiskCommand::Read { sector: 1 }, &mut buffer), Some(DiskStatus::ReadError));
    assert_eq!(buffer, [0x77u8; 128]);
    assert_eq!(worker.execute(DiskCommand::Write { sector: 1 }, &mut buffer), Some(DiskStatus::WriteError));
    assert_eq!(worker.execute(DiskCommand::Seek { head: 1, track: 0 }, &mut buffer), Some(DiskStatus::SeekError));
    assert_eq!(worker.execute(DiskCommand::Seek { head: 0, track: 1 }, &mut buffer), Some(DiskStatus::SeekError));
    // The track that was latched before stays latched.
    assert_eq!(worker.execute(DiskCommand::Read { sector: 0 }, &mut buffer), Some(DiskStatus::Ready));
    assert_eq!(buffer, [0u8; 128]);
    assert_eq!(worker.into_image().into_bytes(), image_file(1, 1, 1, 0));
}

#[test]
fn geometry_offsets() {
    let g = Geometry { heads: 2, tracks_per_head: 3, sectors_per_track: 4 };
    assert_eq!(g.data_size(), 24 * 128);
    assert_eq!(g.translate(0, 0, 0), 0);
    assert_eq!(g.translate(0, 0, 1), 128);
    assert_eq!(g.translate(0, 1, 0), 4 * 128);
    assert_eq!(g.translate(1, 0, 0), 12 * 128);
    assert_eq!(g.translate(1, 2, 3), 23 * 128);
    assert!(g.validate(1, 2, 3));
    assert!(!g.validate(2, 0, 0));
    assert!(!g.validate(0, 3, 0));
    assert!(!g.validate(0, 0, 4));
    let largest = Geometry { heads: 255, tracks_per_head: 255, sectors_per_track: 255 };
    assert_eq!(largest.data_size(), 255 * 255 * 255 * 128);
    assert_eq!(largest.translate(254, 254, 254), (255 * 255 * 255 - 1) * 128);
    assert_eq!(largest.translate(255, 255, 255), ((255 * 255 + 255) * 255 + 255) * 128);
}

#[test]
fn image_round_trip() {
    let file = image_file(3, 2, 1, 0x5A);
    let image = DiskImage::open(file.clone()).ok().unwrap();
    assert_eq!(image.geometry(), Geometry { heads: 3, tracks_per_head: 2, sectors_per_track: 1 });
    assert_eq!(image.into_bytes(), file);
}

#[test]
fn blank_image() {
    let g = Geometry { heads: 1, tracks_per_head: 2, sectors_per_track: 3 };
    let image = DiskImage::blank(g);
    assert_eq!(image.geometry(), g);
    assert_eq!(image.into_bytes(), image_file(1, 2, 3, 0));
}

#[test]
fn image_read_and_write_at_offset() {
    let mut image = DiskImage::open(image_file(1, 1, 2, 0x01)).ok().unwrap();
    let mut buf = [0u8; 128];
    assert!(image.read_at(128, &mut buf));
    assert_eq!(buf, [1u8; 128]);
    assert!(image.write_at(64, &[9u8; 128]));
    assert!(image.read_at(0, &mut buf));
    assert_eq!(&buf[..64], &[1u8; 64]);
    assert_eq!(&buf[64..], &[9u8; 64]);
    let mut untouched = [7u8; 128];
    assert!(!image.read_at(129, &mut untouched));
    assert_eq!(untouched, [7u8; 128]);
    assert!(!image.write_at(129, &[9u8; 128]));
    assert!(!image.write_at(usize::MAX, &[9u8; 128]));
    assert!(!image.read_at(usize::MAX - 5, &mut untouched));
    let file = image.into_bytes();
    assert_eq!(&file[192..256], &[1u8; 64]);
}
