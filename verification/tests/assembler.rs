use z80emu::z80::{make, run, StopReason};
use z80emu::z80asm::Z80Buf;

#[test]
fn new_buffer_is_zeroed_sectors() {
    let z = Z80Buf::new(2);
    assert_eq!(z.get_buf(), &[0u8; 256][..]);
    assert_eq!(z.remaining(), 256);
    let empty = Z80Buf::new(0);
    assert_eq!(empty.get_buf().len(), 0);
    assert_eq!(empty.remaining(), 0);
}

#[test]
fn instructions_are_appended() {
    let mut z = Z80Buf::new(1);
    z.lda(0x41);
    z.outa(0x00);
    z.jp(0x1234);
    z.hlt();
    assert_eq!(&z.get_buf()[..8], &[0x3E, 0x41, 0xD3, 0x00, 0xC3, 0x34, 0x12, 0x76]);
    assert_eq!(&z.get_buf()[8..], &[0u8; 120][..]);
    assert_eq!(z.remaining(), 120);
}

#[test]
fn buffer_can_be_filled_to_the_last_byte() {
    let mut z = Z80Buf::new(1);
    for _ in 0..63 {
        z.lda(1);
    }
    assert_eq!(z.remaining(), 2);
    z.hlt();
    z.hlt();
    assert_eq!(z.remaining(), 0);
    assert_eq!(&z.get_buf()[124..], &[0x3E, 0x01, 0x76, 0x76]);
}

#[test]
fn assembled_program_runs() {
    let mut z = Z80Buf::new(1);
    for c in b"Hi" {
        z.lda(*c);
        z.outa(0);
    }
    z.jp(0x0110);
    let mut cpu = make(0x0100);
    cpu.install(z.get_buf(), 0x0100);
    let mut tail = Z80Buf::new(1);
    tail.lda(7);
    tail.hlt();
    cpu.install(&tail.get_buf()[..3], 0x0110);
    assert_eq!(run(&mut cpu, 100), StopReason::PortOut { port: 0, value: b'H' });
    assert_eq!(run(&mut cpu, 100), StopReason::PortOut { port: 0, value: b'i' });
    assert_eq!(run(&mut cpu, 100), StopReason::Halt);
    assert_eq!(cpu.a, 7);
    assert_eq!(cpu.pc, 0x0113);
}

#[test]
fn polling_loop_is_assembled() {
    let mut z = Z80Buf::new(1);
    z.ina(4);
    z.cpa(0xFF);
    z.jrz(0xFA);
    z.hlt();
    assert_eq!(&z.get_buf()[..7], &[0xDB, 0x04, 0xFE, 0xFF, 0x28, 0xFA, 0x76]);
    assert_eq!(z.remaining(), 121);
    // The loop spins while the port gives 0xFF and falls through when it gives something else.
    let mut cpu = make(0);
    cpu.install(z.get_buf(), 0);
    assert_eq!(run(&mut cpu, 100), StopReason::PortIn { port: 4 });
    cpu.a = 0xFF;
    assert_eq!(run(&mut cpu, 100), StopReason::PortIn { port: 4 });
    assert_eq!(cpu.pc, 2);
    cpu.a = 0x00;
    assert_eq!(run(&mut cpu, 100), StopReason::Halt);
    assert_eq!(cpu.pc, 7);
}
