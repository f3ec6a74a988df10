//! The machine-state model: sizes, the fault taxonomy, and the ghost
//! view of the interpreter that all contracts are written over.

use vstd::prelude::*;

verus! {

/// Bytes of addressable memory.
pub const RAM_SIZE: usize = 4096;

/// Number of data registers V0..VF.
pub const NUM_REGISTERS: usize = 16;

/// Capacity of the call stack, in return addresses.
pub const STACK_SIZE: usize = 16;

/// First address of the font glyph table.
pub const FONT_START: usize = 0x50;

/// Address at which a loaded program begins; the program counter starts here.
pub const PROGRAM_START: usize = 0x200;

/// One past the last address of the program window.
pub const PROGRAM_END: usize = 0xFFF;

/// Logical framebuffer width in pixels.
pub const CHIP8_WIDTH: usize = 64;

/// Logical framebuffer height in pixels.
pub const CHIP8_HEIGHT: usize = 32;

/// A fatal engine condition, reported to the host as the error of `tick`.
///
/// An unknown opcode is deliberately *not* a fault: it is executed as a
/// no-op that still advances the program counter.
#[derive(Clone, Copy, Debug, PartialEq, Eq, Structural)]
pub enum Fault {
    /// A CALL was executed with the call stack already full.
    StackOverflow,
    /// A RETURN was executed with the call stack empty.
    StackUnderflow,
    /// The program counter or a derived index address fell outside memory.
    MemoryOutOfBounds,
}

/// The mathematical view of the interpreter: every field the instruction
/// set can observe or mutate, as unbounded ghost data.
#[verifier::ext_equal]
pub ghost struct VmState {
    /// All of memory, `RAM_SIZE` bytes.
    pub mem: Seq<u8>,
    /// The sixteen data registers V0..VF.
    pub regs: Seq<u8>,
    /// The call stack slots; entries below `sp` are live.
    pub stack: Seq<u16>,
    /// Number of live return addresses on the call stack.
    pub sp: nat,
    /// Program counter: address of the next instruction to fetch.
    pub pc: u16,
    /// Index register I.
    pub index: u16,
    /// Delay timer counter.
    pub delay: u8,
    /// Sound timer counter.
    pub sound: u8,
    /// Framebuffer, row-major: pixel (px, py) is `fb[py * 64 + px]`.
    pub fb: Seq<bool>,
    /// Keypad snapshot: bit k set means key k is currently pressed.
    pub keys: u16,
    /// Horizontal display scale hint (display-side only).
    pub scale_x: nat,
    /// Vertical display scale hint (display-side only).
    pub scale_y: nat,
    /// Left-padding display hint (display-side only).
    pub padding: nat,
    /// Host-chosen debug flag; never read by the engine itself.
    pub debug: bool,
}

/// Well-formedness of a machine state: every component has its fixed size.
pub open spec fn vm_wf(s: VmState) -> bool {
    &&& s.mem.len() == RAM_SIZE
    &&& s.regs.len() == NUM_REGISTERS
    &&& s.stack.len() == STACK_SIZE
    &&& s.sp <= STACK_SIZE
    &&& s.fb.len() == CHIP8_WIDTH * CHIP8_HEIGHT
}

/// The state every component is reset to: all zero, the program counter
/// at the program base, and the display hints carried over unchanged.
pub open spec fn reset_state(scale_x: nat, scale_y: nat, padding: nat, debug: bool) -> VmState {
    VmState {
        mem: Seq::new(RAM_SIZE as nat, |i: int| 0u8),
        regs: Seq::new(NUM_REGISTERS as nat, |i: int| 0u8),
        stack: Seq::new(STACK_SIZE as nat, |i: int| 0u16),
        sp: 0,
        pc: PROGRAM_START as u16,
        index: 0,
        delay: 0,
        sound: 0,
        fb: Seq::new((CHIP8_WIDTH * CHIP8_HEIGHT) as nat, |i: int| false),
        keys: 0,
        scale_x: scale_x,
        scale_y: scale_y,
        padding: padding,
        debug: debug,
    }
}

/// Memory after copying a font table to the glyph region: `font` laid
/// down from `FONT_START`, all other bytes unchanged.
pub open spec fn font_loaded_mem(mem: Seq<u8>, font: Seq<u8>) -> Seq<u8> {
    Seq::new(
        mem.len(),
        |a: int|
            if FONT_START <= a < FONT_START + font.len() {
                font[a - FONT_START]
            } else {
                mem[a]
            },
    )
}

/// High byte of a big-endian instruction word.
pub open spec fn word_hi(w: u16) -> u8 {
    (w / 0x100) as u8
}

/// Low byte of a big-endian instruction word.
pub open spec fn word_lo(w: u16) -> u8 {
    (w % 0x100) as u8
}

/// Memory after copying a program: each 16-bit instruction split
/// big-endian into two bytes from `PROGRAM_START` on, the rest unchanged.
pub open spec fn program_loaded_mem(mem: Seq<u8>, prog: Seq<u16>) -> Seq<u8> {
    Seq::new(
        mem.len(),
        |a: int|
            if PROGRAM_START <= a < PROGRAM_START + 2 * prog.len() {
                if (a - PROGRAM_START) % 2 == 0 {
                    word_hi(prog[(a - PROGRAM_START) / 2])
                } else {
                    word_lo(prog[(a - PROGRAM_START) / 2])
                }
            } else {
                mem[a]
            },
    )
}

} // verus!
