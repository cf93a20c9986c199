use z80emu::devices::{ByteReader, ByteWriter, SpinningDisk, SpinningDiskStatus};
use z80emu::disk_image::{DiskImageError, Geometry};
use z80emu::file_backed_spinning_disk::{make, FileBackedSpinningDisk};
use z80emu::pic::{INTR_CONRDY, INTR_DSKRDY, PIC};
use z80emu::rust_console_io::make as make_tty;
use z80emu::z80::make as make_cpu;

const SEEK: u8 = 0x00;
const READ: u8 = 0x01;
const WRITE: u8 = 0x02;
const CLEAR: u8 = 0x03;

fn numbered_file() -> Vec<u8> {
    let mut file = Vec::new();
    for sector in 0..24u8 {
        file.extend_from_slice(&[sector; 128]);
    }
    file.extend_from_slice(&[2, 3, 4]);
    file
}

fn numbered_disk() -> FileBackedSpinningDisk {
    make(numbered_file(), 2, 3, 4).ok().unwrap()
}

#[test]
fn status_bytes() {
    assert_eq!(SpinningDiskStatus::Ready.as_byte(), 0x00);
    assert_eq!(SpinningDiskStatus::Done.as_byte(), 0x01);
    assert_eq!(SpinningDiskStatus::OpError.as_byte(), 0xFF);
    assert_eq!(SpinningDiskStatus::SeekError.as_byte(), 0xFE);
    assert_eq!(SpinningDiskStatus::ReadError.as_byte(), 0xFD);
    assert_eq!(SpinningDiskStatus::WriteError.as_byte(), 0xFC);
}

#[test]
fn make_checks_the_image() {
    assert_eq!(make(vec![1, 1], 1, 1, 1).err(), Some(DiskImageError::Truncated));
    assert_eq!(make(vec![0; 100], 0, 0, 0).err(), Some(DiskImageError::SizeMismatch));
    assert_eq!(make(numbered_file(), 2, 3, 5).err(), Some(DiskImageError::GeometryMismatch));
    assert_eq!(make(numbered_file(), 3, 2, 4).err(), Some(DiskImageError::GeometryMismatch));
    assert!(make(numbered_file(), 2, 3, 4).is_ok());
}

#[test]
fn new_disk_is_done() {
    let mut disk = numbered_disk();
    assert_eq!(disk.get_status(), SpinningDiskStatus::Done);
}

#[test]
fn seek_needs_a_ready_disk() {
    let mut disk = numbered_disk();
    let mut cpu = make_cpu(0);
    disk.disk_operation(SEEK, &mut cpu.mem);
    assert_eq!(disk.get_status(), SpinningDiskStatus::OpError);
    disk.disk_operation(CLEAR, &mut cpu.mem);
    assert_eq!(disk.get_status(), SpinningDiskStatus::Ready);
    disk.disk_operation(SEEK, &mut cpu.mem);
    assert_eq!(disk.get_status(), SpinningDiskStatus::Done);
}

#[test]
fn seek_fails_outside_the_geometry() {
    let mut disk = numbered_disk();
    let mut cpu = make_cpu(0);
    for (head, track, sector) in [(2, 0, 0), (0, 3, 0), (0, 0, 4), (255, 255, 255)] {
        disk.disk_operation(CLEAR, &mut cpu.mem);
        disk.set_head(head);
        disk.set_track(track);
        disk.set_sector(sector);
        disk.disk_operation(SEEK, &mut cpu.mem);
        assert_eq!(disk.get_status(), SpinningDiskStatus::SeekError);
    }
}

#[test]
fn read_and_write_need_a_disk_that_is_done() {
    let mut disk = numbered_disk();
    let mut cpu = make_cpu(0);
    disk.disk_operation(CLEAR, &mut cpu.mem);
    disk.disk_operation(READ, &mut cpu.mem);
    assert_eq!(disk.get_status(), SpinningDiskStatus::OpError);
    disk.disk_operation(CLEAR, &mut cpu.mem);
    disk.disk_operation(WRITE, &mut cpu.mem);
    assert_eq!(disk.get_status(), SpinningDiskStatus::OpError);
    disk.disk_operation(READ, &mut cpu.mem);
    assert_eq!(disk.get_status(), SpinningDiskStatus::OpError);
}

#[test]
fn unknown_operation_is_an_error() {
    let mut disk = numbered_disk();
    let mut cpu = make_cpu(0);
    disk.disk_operation(0x04, &mut cpu.mem);
    assert_eq!(disk.get_status(), SpinningDiskStatus::OpError);
    disk.disk_operation(CLEAR, &mut cpu.mem);
    disk.disk_operation(0xFF, &mut cpu.mem);
    assert_eq!(disk.get_status(), SpinningDiskStatus::OpError);
}

#[test]
fn read_brings_the_sought_sector_to_memory() {
    let mut disk = numbered_disk();
    let mut cpu = make_cpu(0);
    disk.disk_operation(CLEAR, &mut cpu.mem);
    disk.set_head(1);
    disk.set_track(2);
    disk.set_sector(3);
    disk.set_dma_high(0x40);
    disk.set_dma_low(0x02);
    disk.disk_operation(SEEK, &mut cpu.mem);
    // The parameters take effect at the seek only.
    disk.set_head(0);
    disk.set_track(0);
    disk.set_sector(0);
    disk.disk_operation(READ, &mut cpu.mem);
    assert_eq!(disk.get_status(), SpinningDiskStatus::Done);
    assert_eq!(&cpu.mem[0x4002..0x4082], &[23u8; 128]);
    assert_eq!(cpu.mem[0x4001], 0);
    assert_eq!(cpu.mem[0x4082], 0);
    // A second read of the same sector, to another address.
    disk.set_dma_high(0xFF);
    disk.set_dma_low(0xC0);
    disk.disk_operation(READ, &mut cpu.mem);
    assert_eq!(disk.get_status(), SpinningDiskStatus::Done);
    assert_eq!(&cpu.mem[0xFFC0..], &[23u8; 64]);
    assert_eq!(&cpu.mem[..64], &[23u8; 64]);
    assert_eq!(cpu.mem[64], 0);
}

#[test]
fn read_on_a_new_disk_gives_the_first_sector() {
    let mut disk = make(vec![7u8; 128].into_iter().chain([1, 1, 1]).collect(), 1, 1, 1).ok().unwrap();
    let mut cpu = make_cpu(0);
    disk.disk_operation(READ, &mut cpu.mem);
    assert_eq!(disk.get_status(), SpinningDiskStatus::Done);
    assert_eq!(&cpu.mem[..128], &[7u8; 128]);
}

#[test]
fn read_fails_on_a_disk_without_sectors() {
    let mut disk = make(vec![0, 0, 0], 0, 0, 0).ok().unwrap();
    let mut cpu = make_cpu(0);
    cpu.install(&[0x11; 128], 0);
    disk.disk_operation(READ, &mut cpu.mem);
    assert_eq!(disk.get_status(), SpinningDiskStatus::ReadError);
    // The buffer, which nothing was read into, is copied all the same.
    assert_eq!(&cpu.mem[..128], &[0u8; 128]);
    disk.disk_operation(CLEAR, &mut cpu.mem);
    disk.disk_operation(SEEK, &mut cpu.mem);
    assert_eq!(disk.get_status(), SpinningDiskStatus::SeekError);
}

#[test]
fn write_fails_on_a_disk_without_sectors() {
    let mut disk = make(vec![0, 0, 0], 0, 0, 0).ok().unwrap();
    let mut cpu = make_cpu(0);
    disk.disk_operation(WRITE, &mut cpu.mem);
    assert_eq!(disk.get_status(), SpinningDiskStatus::WriteError);
    assert_eq!(disk.into_image().into_bytes(), vec![0, 0, 0]);
}

#[test]
fn written_sector_is_read_back_from_the_file_backed_disk() {
    let mut disk = numbered_disk();
    let mut cpu = make_cpu(0);
    let payload: Vec<u8> = (0..128u8).map(|i| 255 - i).collect();
    cpu.install(&payload, 0xFFF0);
    disk.disk_operation(CLEAR, &mut cpu.mem);
    disk.set_head(0);
    disk.set_track(1);
    disk.set_sector(1);
    disk.set_dma_high(0xFF);
    disk.set_dma_low(0xF0);
    disk.disk_operation(SEEK, &mut cpu.mem);
    disk.disk_operation(WRITE, &mut cpu.mem);
    assert_eq!(disk.get_status(), SpinningDiskStatus::Done);
    disk.set_dma_high(0x10);
    disk.set_dma_low(0x00);
    disk.disk_operation(READ, &mut cpu.mem);
    assert_eq!(disk.get_status(), SpinningDiskStatus::Done);
    assert_eq!(&cpu.mem[0x1000..0x1080], &payload[..]);
    let file = disk.into_image().into_bytes();
    assert_eq!(&file[5 * 128..6 * 128], &payload[..]);
    assert_eq!(&file[4 * 128..5 * 128], &[4u8; 128]);
    assert_eq!(&file[6 * 128..7 * 128], &[6u8; 128]);
}

#[test]
fn offsets_follow_heads_tracks_and_sectors() {
    let mut disk = numbered_disk();
    assert!(disk.validate_params());
    assert_eq!(disk.translate(), 0);
    disk.set_head(1);
    disk.set_track(1);
    disk.set_sector(1);
    assert!(disk.validate_params());
    assert_eq!(disk.translate(), (12 + 4 + 1) * 128);
    disk.set_sector(4);
    assert!(!disk.validate_params());
}

#[test]
fn direct_operations() {
    let mut disk = numbered_disk();
    let mut cpu = make_cpu(0);
    disk.clear();
    assert_eq!(disk.get_status(), SpinningDiskStatus::Ready);
    disk.set_sector(2);
    disk.seek();
    assert_eq!(disk.get_status(), SpinningDiskStatus::Done);
    disk.read_sector(&mut cpu.mem);
    assert_eq!(&cpu.mem[..128], &[2u8; 128]);
    cpu.install(&[0xAB; 128], 0);
    disk.write_sector(&cpu.mem);
    assert_eq!(disk.get_status(), SpinningDiskStatus::Done);
    let file = disk.into_image().into_bytes();
    assert_eq!(&file[2 * 128..3 * 128], &[0xAB; 128]);
}

#[test]
fn teletype_collects_what_is_written() {
    let mut tty = make_tty();
    assert_eq!(tty.take_output(), Vec::<u8>::new());
    tty.put_nonblocking(b'h');
    tty.put_nonblocking(b'i');
    assert_eq!(tty.out, b"hi".to_vec());
    assert_eq!(tty.take_output(), b"hi".to_vec());
    assert_eq!(tty.take_output(), Vec::<u8>::new());
    tty.put_nonblocking(b'!');
    assert_eq!(tty.take_output(), b"!".to_vec());
}

#[test]
fn teletype_is_always_ready() {
    let mut tty = make_tty();
    assert_eq!(tty.ready_nonblocking(), 0x00);
    tty.put_nonblocking(b'a');
    assert_eq!(tty.ready_nonblocking(), 0x00);
    assert_eq!(tty.take_output(), b"a".to_vec());
}

#[test]
fn spinning_disk_tells_its_geometry() {
    let mut disk = numbered_disk();
    let g = Geometry { heads: 2, tracks_per_head: 3, sectors_per_track: 4 };
    assert_eq!(disk.get_geometry(), g);
    assert_eq!(disk.get_status(), SpinningDiskStatus::Done);
    let mut cpu = make_cpu(0);
    disk.disk_operation(CLEAR, &mut cpu.mem);
    disk.disk_operation(SEEK, &mut cpu.mem);
    assert_eq!(disk.get_geometry(), g);
    assert_eq!(disk.get_status(), SpinningDiskStatus::Done);
}

#[test]
fn teletype_has_no_keyboard() {
    let mut tty = make_tty();
    assert_eq!(tty.poll_nonblocking(), 0x00);
    assert_eq!(tty.get_nonblocking(), 0x00);
    tty.put_nonblocking(b'x');
    assert_eq!(tty.poll_nonblocking(), 0x00);
    assert_eq!(tty.take_output(), b"x".to_vec());
}

#[test]
fn interrupt_controller_gates_signals() {
    let mut pic = PIC::connect();
    assert_eq!(pic.forward(INTR_CONRDY), None);
    assert_eq!(pic.forward(INTR_DSKRDY), None);
    pic.enable();
    assert_eq!(pic.forward(INTR_CONRDY), Some(128));
    assert_eq!(pic.forward(INTR_DSKRDY), Some(129));
    pic.enable();
    assert_eq!(pic.forward(0), Some(0));
}
