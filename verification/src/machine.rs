//! The mathematical model of the machine: its state as plain sequences and
//! integers, the faults it can report, and the constants of its layout.

use vstd::prelude::*;

verus! {

/// The number of general registers.
pub const NUM_REGS: usize = 16;

/// The number of return addresses that the stack holds.
pub const STACK_SIZE: usize = 16;

/// The size of memory in bytes.
pub const MEM_SIZE: usize = 4096;

/// The address at which programs are loaded and start.
pub const ROM_START_ADDR: usize = 0x200;

/// The width of the framebuffer in cells.
pub const VIDEO_COLS: usize = 64;

/// The height of the framebuffer in cells.
pub const VIDEO_ROWS: usize = 32;

/// The number of cells of the framebuffer.
pub const VIDEO_SIZE: usize = 2048;

/// The number of keys.
pub const KEYS_SIZE: usize = 16;

/// The number of bytes of a glyph of the font.
pub const FONT_BYTES_PER_CHAR: u16 = 5;

/// The size of the font in bytes.
pub const FONT_SIZE: usize = 80;

/// Why the machine refused to load a program or to run an instruction.
#[derive(Clone, Copy, Debug, PartialEq, Eq, Structural)]
pub enum Fault {
    /// The program does not fit between the load address and the end of memory.
    ProgramTooLarge,
    /// The instruction word matches no instruction; it is carried along.
    UnknownInstruction(u16),
    /// A call with sixteen return addresses already on the stack.
    StackOverflow,
    /// A return with an empty stack.
    StackUnderflow,
    /// A fetch, a sprite read, or a load or store that would leave memory.
    AddressOutOfRange,
    /// A key test on a register that holds no key number.
    KeyOutOfRange,
}

/// What a tick achieved.
#[derive(Clone, Copy, Debug, PartialEq, Eq, Structural)]
pub enum Progress {
    /// One instruction ran to completion.
    Completed,
    /// The instruction is blocked and will run again on the next tick; the
    /// program counter still points at it.
    Retry,
    /// A machine-code routine call, which this machine skips.
    Ignored,
}

/// The complete state of one machine.
pub struct Machine {
    /// The sixteen general registers; register 15 doubles as the flag.
    pub v: Seq<u8>,
    /// The index register.
    pub i: u16,
    /// The program counter.
    pub pc: u16,
    /// The number of return addresses on the stack.
    pub sp: u8,
    /// The sixteen stack slots.
    pub stack: Seq<u16>,
    /// The 4096 bytes of memory.
    pub mem: Seq<u8>,
    /// The 2048 cells of the framebuffer, row by row, each 0 or 1.
    pub video: Seq<u8>,
    /// The latest snapshot of the sixteen keys.
    pub keys: Seq<bool>,
    /// The delay timer.
    pub delay_t: u8,
    /// The sound timer.
    pub audio_t: u8,
    /// The key that a blocked key wait has latched, if any.
    pub wait_for_key: Option<u8>,
    /// Whether the frame signal is up, which lets a sprite be drawn.
    pub vblank: bool,
    /// The state pair of the pseudo-random generator.
    pub rng: (u64, u64),
    /// Whether shifts read their source from the second register operand and
    /// bulk transfers advance the index register, as the earliest machines
    /// did, rather than shifting in place and leaving the index alone.
    pub legacy: bool,
}

/// The built-in font: five bytes for each of the sixteen hexadecimal digits.
pub const FONT_SET: [u8; 80] = [
    0xF0, 0x90, 0x90, 0x90, 0xF0,
    0x20, 0x60, 0x20, 0x20, 0x70,
    0xF0, 0x10, 0xF0, 0x80, 0xF0,
    0xF0, 0x10, 0xF0, 0x10, 0xF0,
    0x90, 0x90, 0xF0, 0x10, 0x10,
    0xF0, 0x80, 0xF0, 0x10, 0xF0,
    0xF0, 0x80, 0xF0, 0x90, 0xF0,
    0xF0, 0x10, 0x20, 0x40, 0x40,
    0xF0, 0x90, 0xF0, 0x90, 0xF0,
    0xF0, 0x90, 0xF0, 0x10, 0xF0,
    0xF0, 0x90, 0xF0, 0x90, 0x90,
    0xE0, 0x90, 0xE0, 0x90, 0xE0,
    0xF0, 0x80, 0x80, 0x80, 0xF0,
    0xE0, 0x90, 0x90, 0x90, 0xE0,
    0xF0, 0x80, 0xF0, 0x80, 0xF0,
    0xF0, 0x80, 0xF0, 0x80, 0x80,
];

/// The built-in font as a sequence of bytes.
pub open spec fn font() -> Seq<u8> {
    FONT_SET@
}

/// The first key that is down in a snapshot, searching from key `k`.
pub open spec fn first_down_from(keys: Seq<bool>, k: int) -> Option<u8>
    decreases keys.len() - k,
{
    if k < 0 || k >= keys.len() {
        None
    } else if keys[k] {
        Some(k as u8)
    } else {
        first_down_from(keys, k + 1)
    }
}

/// The lowest-numbered key that is down in a snapshot.
pub open spec fn first_down(keys: Seq<bool>) -> Option<u8> {
    first_down_from(keys, 0)
}

/// A framebuffer cell after a sprite pixel has been XORed onto it.
pub open spec fn toggled(cell: u8) -> u8 {
    if cell == 0 {
        1
    } else {
        0
    }
}

/// A timer after one decrement, which stops at zero.
pub open spec fn decayed(t: u8) -> u8 {
    if t == 0 {
        0
    } else {
        (t - 1) as u8
    }
}

/// The memory that holds `rom` from the load address on and `mem` elsewhere.
pub open spec fn with_program(mem: Seq<u8>, rom: Seq<u8>) -> Seq<u8> {
    Seq::new(
        mem.len(),
        |a: int|
            if 0x200 <= a < 0x200 + rom.len() {
                rom[a - 0x200]
            } else {
                mem[a]
            },
    )
}

/// The bytes that spell a sequence of words, most significant byte first.
pub open spec fn bytes_of_words(words: Seq<u16>) -> Seq<u8> {
    Seq::new(
        2 * words.len(),
        |k: int|
            if k % 2 == 0 {
                (words[k / 2] as int / 0x100) as u8
            } else {
                (words[k / 2] as int % 0x100) as u8
            },
    )
}

} // verus!
