//! An emulator of a small 8-bit computer: a Z80-style processor with 64KB of
//! memory, and behind its port bus a serial console and a sector-addressed
//! disk.
//!
//! The processor (`z80`, with `instr`, `alu`, `flags` and `memory`) runs until
//! it halts, has used up its budget of instructions, or needs its driver: for
//! a port instruction, or because it has met bytes that are no instruction.
//! The driver hands port instructions to the port bus (`machine`), which
//! turns each port into an operation of the console (`console`) or the disk
//! (`disk`, on a backing store laid out as `disk_image` says).
//!
//! The devices never make the processor wait. Their workers run beside it
//! and meet it in a few shared cells only; here each worker's turn is a
//! function of its own, so that what holds of the devices holds however the
//! turns of processor and workers follow each other.
//!
//! `devices` states what any serial device and any spinning disk must do to
//! sit behind the port bus; `rust_console_io` and `file_backed_spinning_disk`
//! are two such devices. `pic` holds the interrupt controller's switch, and
//! `z80asm` a small assembler.

pub mod alu;
pub mod console;
pub mod devices;
pub mod disk;
pub mod disk_image;
pub mod file_backed_spinning_disk;
pub mod flags;
pub mod instr;
pub mod machine;
pub mod memory;
pub mod pic;
pub mod rust_console_io;
pub mod z80;
pub mod z80asm;
