use z80emu::console::Console;
use z80emu::devices::{ByteReader, ByteWriter};

#[test]
fn started_console_is_ready_and_empty() {
    let mut console = Console::start();
    assert!(console.out_ready());
    assert!(!console.in_ready());
    assert_eq!(console.next_output(), None);
    assert_eq!(console.in_char(), 0);
}

#[test]
fn second_out_char_is_dropped() {
    let mut console = Console::start();
    console.out_char(b'A');
    console.out_char(b'B');
    assert!(!console.out_ready());
    assert_eq!(console.next_output(), Some(b'A'));
    assert_eq!(console.next_output(), None);
}

#[test]
fn out_char_is_dropped_while_the_writer_writes() {
    let mut console = Console::start();
    console.out_char(b'A');
    assert_eq!(console.next_output(), Some(b'A'));
    assert!(!console.out_ready());
    console.out_char(b'B');
    assert_eq!(console.next_output(), None);
    console.output_flushed();
    assert!(console.out_ready());
    console.out_char(b'C');
    assert_eq!(console.next_output(), Some(b'C'));
}

#[test]
fn flush_makes_the_console_ready_again() {
    let mut console = Console::start();
    console.out_char(0x41);
    assert!(!console.out_ready());
    assert_eq!(console.next_output(), Some(0x41));
    console.output_flushed();
    assert!(console.out_ready());
}

#[test]
fn flush_report_before_the_byte_was_taken_changes_nothing() {
    let mut console = Console::start();
    console.out_char(0x41);
    console.output_flushed();
    assert!(!console.out_ready());
    assert_eq!(console.next_output(), Some(0x41));
}

#[test]
fn in_char_reads_and_clears() {
    let mut console = Console::start();
    console.input_arrived(b'x');
    assert!(console.in_ready());
    assert_eq!(console.in_char(), b'x');
    assert!(!console.in_ready());
}

#[test]
fn second_in_char_is_zero() {
    let mut console = Console::start();
    console.input_arrived(b'x');
    assert_eq!(console.in_char(), b'x');
    assert_eq!(console.in_char(), 0);
    assert_eq!(console.in_char(), 0);
    assert!(!console.in_ready());
}

#[test]
fn unread_input_is_overwritten() {
    let mut console = Console::start();
    console.input_arrived(b'a');
    console.input_arrived(b'b');
    assert!(console.in_ready());
    assert_eq!(console.in_char(), b'b');
    assert!(!console.in_ready());
}

#[test]
fn input_of_zero_is_available() {
    let mut console = Console::start();
    console.input_arrived(0);
    assert!(console.in_ready());
    assert_eq!(console.in_char(), 0);
    assert!(!console.in_ready());
}

#[test]
fn input_and_output_do_not_touch_each_other() {
    let mut console = Console::start();
    console.input_arrived(b'i');
    console.out_char(b'o');
    assert!(console.in_ready());
    assert_eq!(console.next_output(), Some(b'o'));
    assert_eq!(console.in_char(), b'i');
    console.output_flushed();
    assert!(console.out_ready());
    assert!(!console.in_ready());
}

#[test]
fn halt_hands_back_the_byte_that_waits() {
    let mut console = Console::start();
    console.out_char(b'Z');
    assert_eq!(console.halt(), Some(b'Z'));
    let mut console = Console::start();
    console.out_char(b'Z');
    console.next_output();
    assert_eq!(console.halt(), None);
    assert_eq!(Console::start().halt(), None);
}

#[test]
fn console_is_a_byte_reader() {
    let mut console = Console::start();
    assert_eq!(console.poll_nonblocking(), 0x00);
    console.input_arrived(0x7F);
    assert_eq!(console.poll_nonblocking(), 0xFF);
    assert_eq!(console.poll_nonblocking(), 0xFF);
    assert_eq!(console.get_nonblocking(), 0x7F);
    assert_eq!(console.poll_nonblocking(), 0x00);
    assert_eq!(console.get_nonblocking(), 0x00);
}

#[test]
fn console_is_a_byte_writer() {
    let mut console = Console::start();
    assert_eq!(console.ready_nonblocking(), 0x00);
    console.put_nonblocking(b'1');
    assert_eq!(console.ready_nonblocking(), 0xFF);
    assert_eq!(console.ready_nonblocking(), 0xFF);
    console.put_nonblocking(b'2');
    assert_eq!(console.next_output(), Some(b'1'));
    assert_eq!(console.next_output(), None);
}
