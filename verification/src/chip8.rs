//! The executable interpreter: a `Chip8` value owns the whole machine
//! state and advances it one instruction per `tick` call.  Every method
//! is specified against the ghost view (`VmState`) and the single-step
//! semantics of `crate::step`.

use vstd::prelude::*;

use crate::state::{Fault, VmState, vm_wf, RAM_SIZE, NUM_REGISTERS, STACK_SIZE, FONT_START,
    PROGRAM_START, PROGRAM_END, CHIP8_WIDTH, CHIP8_HEIGHT, reset_state, font_loaded_mem,
    program_loaded_mem, word_hi, word_lo};
use crate::decode::{hi_nib, lo_nib, lemma_nibbles_recombine, nn, nnn, Nibble, Opcode, OpcodeDecoded};
use crate::step::{fetch_ok, spec_fault, spec_step, is_rand_op, blank_fb, alu_regs, key_pressed, first_key_from, bcd_mem, store_regs_mem, load_regs, byte_bit, draw_cover, draw_fb, draw_hit};
use crate::rng_port::next_rand_byte;
use vstd::slice::slice_subrange;

verus! {

/// A CHIP-8 interpreter for hosts without an operating system.
///
/// The engine owns the logical framebuffer as the source of truth for
/// collision detection; the host reads it back (`get_pixel`, together
/// with the scale and padding hints) to refresh a physical display.
/// The host likewise scans its own keypad and deposits a snapshot with
/// `set_keys`, and calls `decrement_timers` at its fixed timer rate:
/// the engine never self-clocks.
pub struct Chip8 {
    memory: Vec<u8>,
    stack: [u16; STACK_SIZE],
    registers: [u8; NUM_REGISTERS],
    index: u16,
    program_counter: u16,
    stack_pointer: usize,
    delay_timer: u8,
    sound_timer: u8,
    pixels: Vec<bool>,
    keys: u16,
    rng: rand::rngs::SmallRng,
    scale: (usize, usize),
    padding: usize,
    debug: bool,
}

impl View for Chip8 {
    type V = VmState;

    closed spec fn view(&self) -> VmState {
        VmState {
            mem: self.memory@,
            regs: self.registers@,
            stack: self.stack@,
            sp: self.stack_pointer as nat,
            pc: self.program_counter,
            index: self.index,
            delay: self.delay_timer,
            sound: self.sound_timer,
            fb: self.pixels@,
            keys: self.keys,
            scale_x: self.scale.0 as nat,
            scale_y: self.scale.1 as nat,
            padding: self.padding as nat,
            debug: self.debug,
        }
    }
}

/// A vector holding `n` copies of `t`.
fn filled<T: Copy>(t: T, n: usize) -> (v: Vec<T>)
    ensures
        v@ =~= Seq::new(n as nat, |i: int| t),
{
    let mut v: Vec<T> = Vec::new();
    let mut i: usize = 0;
    while i < n
        invariant
            i <= n,
            v@ =~= Seq::new(i as nat, |k: int| t),
        decreases n - i,
    {
        v.push(t);
        i = i + 1;
    }
    v
}

/// Proof bookkeeping for the sprite-draw loops: the pixel `(px, py)`
/// lies in a sprite row already processed, or in the current row `i`
/// strictly left of the current column `j` (rows and columns counted
/// from the wrapped origin `(x0, y0)`).
spec fn draw_done(x0: int, y0: int, i: int, j: int, px: int, py: int) -> bool {
    py < y0 + i || (py == y0 + i && px < x0 + j)
}

impl Chip8 {
    /// The machine state has every component at its fixed size.
    pub open spec fn wf(&self) -> bool {
        vm_wf(self@)
    }

    /// A fresh interpreter: memory, registers, stack, timers and
    /// framebuffer all zero, the program counter at the program base,
    /// scale `(1, 1)` and no padding.  The host supplies the random
    /// source and a debug flag.
    pub fn new(rng: rand::rngs::SmallRng, debug: bool) -> (c: Chip8)
        ensures
            c.wf(),
            c@ == reset_state(1, 1, 0, debug),
    {
        let c = Chip8 {
            memory: filled(0u8, RAM_SIZE),
            stack: [0u16; STACK_SIZE],
            registers: [0u8; NUM_REGISTERS],
            index: 0,
            program_counter: PROGRAM_START as u16,
            stack_pointer: 0,
            delay_timer: 0,
            sound_timer: 0,
            pixels: filled(false, CHIP8_WIDTH * CHIP8_HEIGHT),
            keys: 0,
            rng: rng,
            scale: (1, 1),
            padding: 0,
            debug: debug,
        };
        proof {
            assert(c@ =~= reset_state(1, 1, 0, debug));
        }
        c
    }

    /// Resets the interpreter by clearing all machine state; the display
    /// hints and the debug flag are kept.
    pub fn reset(&mut self)
        ensures
            final(self).wf(),
            final(self)@ == reset_state(
                old(self)@.scale_x,
                old(self)@.scale_y,
                old(self)@.padding,
                old(self)@.debug,
            ),
    {
        self.memory = filled(0u8, RAM_SIZE);
        self.program_counter = PROGRAM_START as u16;
        self.stack = [0u16; STACK_SIZE];
        self.stack_pointer = 0;
        self.registers = [0u8; NUM_REGISTERS];
        self.index = 0;
        self.delay_timer = 0;
        self.sound_timer = 0;
        self.pixels = filled(false, CHIP8_WIDTH * CHIP8_HEIGHT);
        self.keys = 0;
        proof {
            assert(self@ =~= reset_state(
                old(self)@.scale_x,
                old(self)@.scale_y,
                old(self)@.padding,
                old(self)@.debug,
            ));
        }
    }

    /// Returns the value of PC or program counter.
    pub fn get_program_counter(&self) -> (r: u16)
        ensures
            r == self@.pc,
    {
        self.program_counter
    }

    /// Returns the value in the I register.
    pub fn get_index(&self) -> (r: u16)
        ensures
            r == self@.index,
    {
        self.index
    }

    /// Returns the stack.
    pub fn get_stack(&self) -> (r: [u16; STACK_SIZE])
        ensures
            r@ == self@.stack,
    {
        self.stack
    }

    /// Returns the data registers.
    pub fn get_registers(&self) -> (r: [u8; NUM_REGISTERS])
        ensures
            r@ == self@.regs,
    {
        self.registers
    }

    /// Number of live return addresses on the call stack.
    pub fn get_stack_pointer(&self) -> (r: usize)
        ensures
            r == self@.sp,
    {
        self.stack_pointer
    }

    /// Current delay timer value.
    pub fn get_delay_timer(&self) -> (r: u8)
        ensures
            r == self@.delay,
    {
        self.delay_timer
    }

    /// Current sound timer value.
    pub fn get_sound_timer(&self) -> (r: u8)
        ensures
            r == self@.sound,
    {
        self.sound_timer
    }

    /// Whether the logical pixel at column `x`, row `y` is lit; off-screen
    /// coordinates read as unlit.
    pub fn get_pixel(&self, x: u8, y: u8) -> (r: bool)
        requires
            self.wf(),
        ensures
            r == (x < CHIP8_WIDTH && y < CHIP8_HEIGHT && self@.fb[y as int * CHIP8_WIDTH as int
                + x as int]),
    {
        if x < CHIP8_WIDTH as u8 && y < CHIP8_HEIGHT as u8 {
            self.pixels[y as usize * CHIP8_WIDTH + x as usize]
        } else {
            false
        }
    }

    /// The display scale hints last set with `set_scale`.
    pub fn get_scale(&self) -> (r: (usize, usize))
        ensures
            r.0 == self@.scale_x,
            r.1 == self@.scale_y,
    {
        self.scale
    }

    /// The left-padding hint last set with `set_padding`.
    pub fn get_padding(&self) -> (r: usize)
        ensures
            r == self@.padding,
    {
        self.padding
    }

    /// Sets an (x, y) scale to increase the drawing on the display since
    /// the logical display is 64 by 32.  The default scale is `(1, 1)`.
    pub fn set_scale(&mut self, scale: (usize, usize))
        ensures
            final(self)@ == (VmState {
                scale_x: scale.0 as nat,
                scale_y: scale.1 as nat,
                ..old(self)@
            }),
    {
        self.scale = scale;
    }

    /// Sets a value to add padding to the left side of the display.
    pub fn set_padding(&mut self, left_padding: usize)
        ensures
            final(self)@ == (VmState { padding: left_padding as nat, ..old(self)@ }),
    {
        self.padding = left_padding;
    }

    /// Deposits the host's keypad snapshot: bit k set means key k is
    /// currently pressed.
    pub fn set_keys(&mut self, keys: u16)
        ensures
            final(self)@ == (VmState { keys: keys, ..old(self)@ }),
    {
        self.keys = keys;
    }

    /// Debug-write path: overwrite data register `x`.
    pub fn write_register(&mut self, x: u8, value: u8)
        requires
            old(self).wf(),
            x < NUM_REGISTERS,
        ensures
            final(self).wf(),
            final(self)@ == (VmState {
                regs: old(self)@.regs.update(x as int, value),
                ..old(self)@
            }),
    {
        self.registers[x as usize] = value;
    }

    /// Debug-write path: overwrite the index register.
    pub fn set_index(&mut self, value: u16)
        ensures
            final(self)@ == (VmState { index: value, ..old(self)@ }),
    {
        self.index = value;
    }

    /// Copies a font into memory starting at the glyph region.
    #[verifier::loop_isolation(false)]
    pub fn load_font(&mut self, font: &[u8])
        requires
            old(self).wf(),
            FONT_START + font@.len() <= RAM_SIZE,
        ensures
            final(self).wf(),
            final(self)@ == (VmState {
                mem: font_loaded_mem(old(self)@.mem, font@),
                ..old(self)@
            }),
    {
        let mut i: usize = 0;
        while i < font.len()
            invariant
                i <= font@.len(),
                self.memory@.len() == RAM_SIZE,
                self@ == (VmState { mem: self.memory@, ..old(self)@ }),
                forall|a: int|
                    0 <= a < RAM_SIZE ==> self.memory@[a] == (if FONT_START <= a < FONT_START
                        + i {
                        font@[a - FONT_START]
                    } else {
                        old(self)@.mem[a]
                    }),
            decreases font@.len() - i,
        {
            self.memory.set(FONT_START + i, font[i]);
            i = i + 1;
        }
        proof {
            assert(self@ =~= (VmState {
                mem: font_loaded_mem(old(self)@.mem, font@),
                ..old(self)@
            }));
        }
    }

    /// Copies a program into memory: each 16-bit instruction is split
    /// big-endian into two bytes, laid down from the program base.
    #[verifier::loop_isolation(false)]
    pub fn load_program(&mut self, program: &[u16])
        requires
            old(self).wf(),
            PROGRAM_START + 2 * program@.len() <= RAM_SIZE,
        ensures
            final(self).wf(),
            final(self)@ == (VmState {
                mem: program_loaded_mem(old(self)@.mem, program@),
                ..old(self)@
            }),
    {
        let mut i: usize = 0;
        while i < program.len()
            invariant
                i <= program@.len(),
                self.memory@.len() == RAM_SIZE,
                self@ == (VmState { mem: self.memory@, ..old(self)@ }),
                forall|a: int|
                    0 <= a < RAM_SIZE ==> self.memory@[a] == (if PROGRAM_START <= a
                        < PROGRAM_START + 2 * i {
                        if (a - PROGRAM_START) % 2 == 0 {
                            word_hi(program@[(a - PROGRAM_START) / 2])
                        } else {
                            word_lo(program@[(a - PROGRAM_START) / 2])
                        }
                    } else {
                        old(self)@.mem[a]
                    }),
            decreases program@.len() - i,
        {
            let w = program[i];
            self.memory.set(PROGRAM_START + 2 * i, (w / 0x100) as u8);
            self.memory.set(PROGRAM_START + 2 * i + 1, (w % 0x100) as u8);
            i = i + 1;
        }
        proof {
            assert(self@ =~= (VmState {
                mem: program_loaded_mem(old(self)@.mem, program@),
                ..old(self)@
            }));
        }
    }

    /// Returns a slice of the program memory window.
    pub fn get_program_memory(&self) -> (r: &[u8])
        requires
            self.wf(),
        ensures
            r@ == self@.mem.subrange(PROGRAM_START as int, PROGRAM_END as int),
    {
        slice_subrange(self.memory.as_slice(), PROGRAM_START, PROGRAM_END)
    }

    /// Reads the two instruction bytes at the program counter, without
    /// side effects: the program counter is not advanced.
    pub fn fetch_opcode(&self) -> (r: Opcode)
        requires
            self.wf(),
            fetch_ok(self@),
        ensures
            r.0 == self@.mem[self@.pc as int],
            r.1 == self@.mem[self@.pc as int + 1],
    {
        (
            self.memory[self.program_counter as usize],
            self.memory[self.program_counter as usize + 1],
        )
    }

    /// Splits an opcode into its four nibbles, high to low.  A pure,
    /// total function over any two bytes.
    pub fn decode(&self, opcode: Opcode) -> (r: OpcodeDecoded)
        ensures
            r.0 == hi_nib(opcode.0),
            r.1 == lo_nib(opcode.0),
            r.2 == hi_nib(opcode.1),
            r.3 == lo_nib(opcode.1),
    {
        let hi = opcode.0;
        let lo = opcode.1;
        proof {
            assert(hi >> 4 == hi / 16 && hi & 0x0F == hi % 16) by (bit_vector);
            assert(lo >> 4 == lo / 16 && lo & 0x0F == lo % 16) by (bit_vector);
        }
        (hi >> 4, hi & 0x0F, lo >> 4, lo & 0x0F)
    }

    /// Returns the current opcode, decoded.
    ///
    /// Note that the `tick` method will update the program counter, so
    /// this will return something different depending on if it is called
    /// before or after `tick`.
    pub fn get_current_op(&self) -> (r: OpcodeDecoded)
        requires
            self.wf(),
            fetch_ok(self@),
        ensures
            r.0 == hi_nib(self@.mem[self@.pc as int]),
            r.1 == lo_nib(self@.mem[self@.pc as int]),
            r.2 == hi_nib(self@.mem[self@.pc as int + 1]),
            r.3 == lo_nib(self@.mem[self@.pc as int + 1]),
    {
        self.decode(self.fetch_opcode())
    }

    /// One external timer-rate call: both countdown timers decrement,
    /// saturating at zero.  The host invokes this at its fixed rate
    /// (conventionally 60 Hz); `tick` never touches the timers' clocking.
    pub fn decrement_timers(&mut self)
        ensures
            final(self)@ == (VmState {
                delay: if old(self)@.delay > 0 { (old(self)@.delay - 1) as u8 } else { 0u8 },
                sound: if old(self)@.sound > 0 { (old(self)@.sound - 1) as u8 } else { 0u8 },
                ..old(self)@
            }),
    {
        if self.delay_timer > 0 {
            self.delay_timer = self.delay_timer - 1;
        }
        if self.sound_timer > 0 {
            self.sound_timer = self.sound_timer - 1;
        }
    }

    /// 00e0: clear the screen.
    fn _00e0(&mut self)
        requires
            old(self).wf(),
        ensures
            final(self).wf(),
            final(self)@ == (VmState { fb: blank_fb(), ..old(self)@ }),
    {
        self.pixels = filled(false, CHIP8_WIDTH * CHIP8_HEIGHT);
        proof {
            assert(self@ =~= (VmState { fb: blank_fb(), ..old(self)@ }));
        }
    }

    /// 00ee: return from a subroutine.
    fn _00ee(&mut self)
        requires
            old(self).wf(),
            old(self)@.sp >= 1,
        ensures
            final(self).wf(),
            final(self)@ == (VmState {
                pc: old(self)@.stack[old(self)@.sp - 1],
                sp: (old(self)@.sp - 1) as nat,
                ..old(self)@
            }),
    {
        self.stack_pointer = self.stack_pointer - 1;
        self.program_counter = self.stack[self.stack_pointer];
    }

    /// 1nnn: jump.
    fn _1nnn(&mut self, nnn: u16)
        ensures
            final(self)@ == (VmState { pc: nnn, ..old(self)@ }),
    {
        self.program_counter = nnn;
    }

    /// 2nnn: call a subroutine, pushing the address of the next
    /// instruction (the one after this two-byte opcode).
    fn _2nnn(&mut self, nnn: u16)
        requires
            old(self).wf(),
            old(self)@.sp < STACK_SIZE,
            old(self)@.pc + 2 < 0x10000,
        ensures
            final(self).wf(),
            final(self)@ == (VmState {
                stack: old(self)@.stack.update(old(self)@.sp as int, (old(self)@.pc + 2) as u16),
                sp: (old(self)@.sp + 1) as nat,
                pc: nnn,
                ..old(self)@
            }),
    {
        self.stack[self.stack_pointer] = self.program_counter + 2;
        self.stack_pointer = self.stack_pointer + 1;
        self.program_counter = nnn;
    }

    /// 3xnn: condition of the skip-if-equal-immediate instruction.
    fn _3xnn(&self, x: Nibble, nn: u8) -> (r: bool)
        requires
            self.wf(),
            x < 16,
        ensures
            r == (self@.regs[x as int] == nn),
    {
        self.registers[x as usize] == nn
    }

    /// 4xnn: condition of the skip-if-not-equal-immediate instruction.
    fn _4xnn(&self, x: Nibble, nn: u8) -> (r: bool)
        requires
            self.wf(),
            x < 16,
        ensures
            r == (self@.regs[x as int] != nn),
    {
        self.registers[x as usize] != nn
    }

    /// 5xy0: condition of the skip-if-registers-equal instruction.
    fn _5xy0(&self, x: Nibble, y: Nibble) -> (r: bool)
        requires
            self.wf(),
            x < 16,
            y < 16,
        ensures
            r == (self@.regs[x as int] == self@.regs[y as int]),
    {
        self.registers[x as usize] == self.registers[y as usize]
    }

    /// 6xnn: set register Vx to nn.
    fn _6xnn(&mut self, x: Nibble, nn: u8)
        requires
            old(self).wf(),
            x < 16,
        ensures
            final(self).wf(),
            final(self)@ == (VmState {
                regs: old(self)@.regs.update(x as int, nn),
                ..old(self)@
            }),
    {
        self.registers[x as usize] = nn;
    }

    /// 7xnn: add nn to register Vx, wrapping modulo 256; no flag touched.
    fn _7xnn(&mut self, x: Nibble, nn: u8)
        requires
            old(self).wf(),
            x < 16,
        ensures
            final(self).wf(),
            final(self)@ == (VmState {
                regs: old(self)@.regs.update(
                    x as int,
                    ((old(self)@.regs[x as int] + nn) % 256) as u8,
                ),
                ..old(self)@
            }),
    {
        let sum: u16 = self.registers[x as usize] as u16 + nn as u16;
        self.registers[x as usize] = (sum % 256) as u8;
    }

    /// 8xy0: Vx = Vy.
    fn _8xy0(&mut self, x: Nibble, y: Nibble)
        requires
            old(self).wf(),
            x < 16,
            y < 16,
        ensures
            final(self).wf(),
            final(self)@ == (VmState {
                regs: alu_regs(old(self)@.regs, x, y, 0x0),
                ..old(self)@
            }),
    {
        self.registers[x as usize] = self.registers[y as usize];
    }

    /// 8xy1: Vx = Vx | Vy.
    fn _8xy1(&mut self, x: Nibble, y: Nibble)
        requires
            old(self).wf(),
            x < 16,
            y < 16,
        ensures
            final(self).wf(),
            final(self)@ == (VmState {
                regs: alu_regs(old(self)@.regs, x, y, 0x1),
                ..old(self)@
            }),
    {
        self.registers[x as usize] = self.registers[x as usize] | self.registers[y as usize];
    }

    /// 8xy2: Vx = Vx & Vy.
    fn _8xy2(&mut self, x: Nibble, y: Nibble)
        requires
            old(self).wf(),
            x < 16,
            y < 16,
        ensures
            final(self).wf(),
            final(self)@ == (VmState {
                regs: alu_regs(old(self)@.regs, x, y, 0x2),
                ..old(self)@
            }),
    {
        self.registers[x as usize] = self.registers[x as usize] & self.registers[y as usize];
    }

    /// 8xy3: Vx = Vx ^ Vy.
    fn _8xy3(&mut self, x: Nibble, y: Nibble)
        requires
            old(self).wf(),
            x < 16,
            y < 16,
        ensures
            final(self).wf(),
            final(self)@ == (VmState {
                regs: alu_regs(old(self)@.regs, x, y, 0x3),
                ..old(self)@
            }),
    {
        self.registers[x as usize] = self.registers[x as usize] ^ self.registers[y as usize];
    }

    /// 8xy4: Vx = Vx + Vy wrapping; VF = 1 iff the mathematical sum
    /// exceeds 255.
    fn _8xy4(&mut self, x: Nibble, y: Nibble)
        requires
            old(self).wf(),
            x < 16,
            y < 16,
        ensures
            final(self).wf(),
            final(self)@ == (VmState {
                regs: alu_regs(old(self)@.regs, x, y, 0x4),
                ..old(self)@
            }),
    {
        let sum: u16 = self.registers[x as usize] as u16 + self.registers[y as usize] as u16;
        self.registers[x as usize] = (sum % 256) as u8;
        self.registers[0xf] = if sum > 255 {
            1
        } else {
            0
        };
    }

    /// 8xy5: Vx = Vx - Vy wrapping; VF = 1 iff Vx >= Vy (no borrow).
    fn _8xy5(&mut self, x: Nibble, y: Nibble)
        requires
            old(self).wf(),
            x < 16,
            y < 16,
        ensures
            final(self).wf(),
            final(self)@ == (VmState {
                regs: alu_regs(old(self)@.regs, x, y, 0x5),
                ..old(self)@
            }),
    {
        let vx = self.registers[x as usize];
        let vy = self.registers[y as usize];
        if vx >= vy {
            self.registers[x as usize] = vx - vy;
            self.registers[0xf] = 1;
        } else {
            self.registers[x as usize] = ((256 + vx as u16) - vy as u16) as u8;
            self.registers[0xf] = 0;
        }
    }

    /// 8xy6: shift Vx right in place; VF receives the bit shifted out.
    fn _8xy6(&mut self, x: Nibble, y: Nibble)
        requires
            old(self).wf(),
            x < 16,
            y < 16,
        ensures
            final(self).wf(),
            final(self)@ == (VmState {
                regs: alu_regs(old(self)@.regs, x, y, 0x6),
                ..old(self)@
            }),
    {
        let vx = self.registers[x as usize];
        self.registers[x as usize] = vx / 2;
        self.registers[0xf] = vx % 2;
    }

    /// 8xy7: Vx = Vy - Vx wrapping; VF = 1 iff Vy >= Vx (no borrow).
    fn _8xy7(&mut self, x: Nibble, y: Nibble)
        requires
            old(self).wf(),
            x < 16,
            y < 16,
        ensures
            final(self).wf(),
            final(self)@ == (VmState {
                regs: alu_regs(old(self)@.regs, x, y, 0x7),
                ..old(self)@
            }),
    {
        let vx = self.registers[x as usize];
        let vy = self.registers[y as usize];
        if vy >= vx {
            self.registers[x as usize] = vy - vx;
            self.registers[0xf] = 1;
        } else {
            self.registers[x as usize] = ((256 + vy as u16) - vx as u16) as u8;
            self.registers[0xf] = 0;
        }
    }

    /// 8xye: shift Vx left in place; VF receives the bit shifted out.
    fn _8xye(&mut self, x: Nibble, y: Nibble)
        requires
            old(self).wf(),
            x < 16,
            y < 16,
        ensures
            final(self).wf(),
            final(self)@ == (VmState {
                regs: alu_regs(old(self)@.regs, x, y, 0xE),
                ..old(self)@
            }),
    {
        let vx = self.registers[x as usize];
        self.registers[x as usize] = ((vx as u16 * 2) % 256) as u8;
        self.registers[0xf] = vx / 128;
    }

    /// 9xy0: condition of the skip-if-registers-differ instruction.
    fn _9xy0(&self, x: Nibble, y: Nibble) -> (r: bool)
        requires
            self.wf(),
            x < 16,
            y < 16,
        ensures
            r == (self@.regs[x as int] != self@.regs[y as int]),
    {
        self.registers[x as usize] != self.registers[y as usize]
    }

    /// annn: set index register I.
    fn _annn(&mut self, nnn: u16)
        ensures
            final(self)@ == (VmState { index: nnn, ..old(self)@ }),
    {
        self.index = nnn;
    }

    /// bnnn: jump with offset V0.
    fn _bnnn(&mut self, nnn: u16)
        requires
            old(self).wf(),
            nnn < 0x1000,
        ensures
            final(self)@ == (VmState {
                pc: (nnn + old(self)@.regs[0]) as u16,
                ..old(self)@
            }),
    {
        self.program_counter = nnn + self.registers[0] as u16;
    }

    /// cxnn: Vx = random byte AND nn; the byte was drawn by the caller.
    fn _cxnn(&mut self, x: Nibble, nn: u8, rand_byte: u8)
        requires
            old(self).wf(),
            x < 16,
        ensures
            final(self).wf(),
            final(self)@ == (VmState {
                regs: old(self)@.regs.update(x as int, rand_byte & nn),
                ..old(self)@
            }),
    {
        self.registers[x as usize] = rand_byte & nn;
    }

    /// Whether key `k` is pressed in the current snapshot.
    fn key_down(&self, k: u8) -> (r: bool)
        requires
            k < 16,
        ensures
            r == key_pressed(self@.keys, k as u16),
    {
        (self.keys >> (k as u16)) & 1 == 1
    }

    /// ex9e: condition of the skip-if-key-pressed instruction; the key
    /// number is the low nibble of Vx.
    fn _ex9e(&self, x: Nibble) -> (r: bool)
        requires
            self.wf(),
            x < 16,
        ensures
            r == key_pressed(self@.keys, (self@.regs[x as int] % 16) as u16),
    {
        self.key_down(self.registers[x as usize] % 16)
    }

    /// exa1: condition of the skip-if-key-not-pressed instruction.
    fn _exa1(&self, x: Nibble) -> (r: bool)
        requires
            self.wf(),
            x < 16,
        ensures
            r == !key_pressed(self@.keys, (self@.regs[x as int] % 16) as u16),
    {
        !self.key_down(self.registers[x as usize] % 16)
    }

    /// fx07: Vx = delay timer.
    fn _fx07(&mut self, x: Nibble)
        requires
            old(self).wf(),
            x < 16,
        ensures
            final(self).wf(),
            final(self)@ == (VmState {
                regs: old(self)@.regs.update(x as int, old(self)@.delay),
                ..old(self)@
            }),
    {
        self.registers[x as usize] = self.delay_timer;
    }

    /// The lowest-numbered currently pressed key, or 15 if none is.
    fn first_pressed_key(keys: u16) -> (r: u8)
        ensures
            r == first_key_from(keys, 0),
            r < 16,
    {
        let mut k: u16 = 0;
        while k < 15
            invariant
                k <= 15,
                first_key_from(keys, 0) == first_key_from(keys, k),
            decreases 15 - k,
        {
            if (keys >> k) & 1 == 1 {
                return k as u8;
            }
            k = k + 1;
        }
        15
    }

    /// fx0a: a key is pressed, so the wait ends: Vx receives the
    /// lowest-numbered pressed key.  (With no key pressed the engine
    /// instead leaves the whole state unchanged and re-executes this
    /// instruction on the next tick.)
    fn _fx0a(&mut self, x: Nibble)
        requires
            old(self).wf(),
            x < 16,
        ensures
            final(self).wf(),
            final(self)@ == (VmState {
                regs: old(self)@.regs.update(
                    x as int,
                    first_key_from(old(self)@.keys, 0) as u8,
                ),
                ..old(self)@
            }),
    {
        let k = Self::first_pressed_key(self.keys);
        self.registers[x as usize] = k;
    }

    /// fx15: delay timer = Vx.
    fn _fx15(&mut self, x: Nibble)
        requires
            old(self).wf(),
            x < 16,
        ensures
            final(self)@ == (VmState { delay: old(self)@.regs[x as int], ..old(self)@ }),
    {
        self.delay_timer = self.registers[x as usize];
    }

    /// fx18: sound timer = Vx.
    fn _fx18(&mut self, x: Nibble)
        requires
            old(self).wf(),
            x < 16,
        ensures
            final(self)@ == (VmState { sound: old(self)@.regs[x as int], ..old(self)@ }),
    {
        self.sound_timer = self.registers[x as usize];
    }

    /// fx1e: I = I + Vx, wrapping in the 16-bit register.
    fn _fx1e(&mut self, x: Nibble)
        requires
            old(self).wf(),
            x < 16,
        ensures
            final(self)@ == (VmState {
                index: ((old(self)@.index + old(self)@.regs[x as int]) % 0x10000) as u16,
                ..old(self)@
            }),
    {
        let widened: u32 = self.index as u32 + self.registers[x as usize] as u32;
        self.index = (widened % 0x10000) as u16;
    }

    /// fx29: point I at the font glyph for the low nibble of Vx; glyphs
    /// are five bytes each, from the glyph region upward.
    fn _fx29(&mut self, x: Nibble)
        requires
            old(self).wf(),
            x < 16,
        ensures
            final(self)@ == (VmState {
                index: (FONT_START + 5 * (old(self)@.regs[x as int] % 16)) as u16,
                ..old(self)@
            }),
    {
        let glyph = self.registers[x as usize] % 16;
        self.index = FONT_START as u16 + 5 * glyph as u16;
    }

    /// fx33: write the three decimal digits of Vx at I, hundreds first.
    fn _fx33(&mut self, x: Nibble)
        requires
            old(self).wf(),
            x < 16,
            old(self)@.index + 3 <= RAM_SIZE,
        ensures
            final(self).wf(),
            final(self)@ == (VmState {
                mem: bcd_mem(old(self)@.mem, old(self)@.index, old(self)@.regs[x as int]),
                ..old(self)@
            }),
    {
        let v = self.registers[x as usize];
        let i = self.index as usize;
        self.memory.set(i, v / 100);
        self.memory.set(i + 1, (v / 10) % 10);
        self.memory.set(i + 2, v % 10);
    }

    /// One fetch-decode-execute cycle.  This should be called within a
    /// loop in the main function of the hardware; there is no time
    /// management here, so the machine runs as fast as the host calls it.
    ///
    /// A fatal condition (stack overflow or underflow, or an
    /// out-of-bounds memory access) is reported as the error value and
    /// leaves the whole machine state untouched, so the host can halt or
    /// reset; an unknown opcode is a no-op that still advances the
    /// program counter.  On success the post-state is exactly one
    /// semantic step: for the random-number opcode, one step under
    /// whatever byte the random source produced.
    pub fn tick(&mut self) -> (r: Result<(), Fault>)
        requires
            old(self).wf(),
        ensures
            final(self).wf(),
            (r is Ok <==> spec_fault(old(self)@) is None),
            r matches Err(f) ==> spec_fault(old(self)@) == Some(f) && final(self)@ == old(
                self,
            )@,
            r is Ok && is_rand_op(old(self)@) ==> exists|rb: u8|
                final(self)@ == spec_step(old(self)@, rb),
            r is Ok && !is_rand_op(old(self)@) ==> final(self)@ == spec_step(old(self)@, 0),
    {
        if self.program_counter as usize + 1 >= RAM_SIZE {
            return Err(Fault::MemoryOutOfBounds);
        }
        let opcode = self.fetch_opcode();
        let opcode_decoded = self.decode(opcode);
        self.execute(opcode_decoded)
    }

    /// Dispatch: select exactly one handler for the decoded opcode (the
    /// nibbles of the instruction at the program counter), run it, and
    /// advance the program counter unless the handler set it itself; a
    /// conditional skip advances by 4 instead of 2.
    fn execute(&mut self, opcode: OpcodeDecoded) -> (r: Result<(), Fault>)
        requires
            old(self).wf(),
            fetch_ok(old(self)@),
            opcode.0 == hi_nib(old(self)@.mem[old(self)@.pc as int]),
            opcode.1 == lo_nib(old(self)@.mem[old(self)@.pc as int]),
            opcode.2 == hi_nib(old(self)@.mem[old(self)@.pc as int + 1]),
            opcode.3 == lo_nib(old(self)@.mem[old(self)@.pc as int + 1]),
        ensures
            final(self).wf(),
            (r is Ok <==> spec_fault(old(self)@) is None),
            r matches Err(f) ==> spec_fault(old(self)@) == Some(f) && final(self)@ == old(
                self,
            )@,
            r is Ok && is_rand_op(old(self)@) ==> exists|rb: u8|
                final(self)@ == spec_step(old(self)@, rb),
            r is Ok && !is_rand_op(old(self)@) ==> final(self)@ == spec_step(old(self)@, 0),
    {
        proof {
            lemma_nibbles_recombine(old(self)@.mem[old(self)@.pc as int]);
            lemma_nibbles_recombine(old(self)@.mem[old(self)@.pc as int + 1]);
        }
        let mut pc_increment: u16 = 2;
        let mut update_pc: bool = true;
        let mut skip_instruction: bool = false;
        let ghost mut rnd_byte: u8 = 0;
        match opcode {
            (0x0, _, _, 0x0) => {
                self._00e0();
            },
            (0x0, _, _, 0xe) => {
                if self.stack_pointer == 0 {
                    return Err(Fault::StackUnderflow);
                }
                self._00ee();
                update_pc = false;
            },
            (0x1, _, _, _) => {
                self._1nnn(nnn(opcode));
                update_pc = false;
            },
            (0x2, _, _, _) => {
                if self.stack_pointer == STACK_SIZE {
                    return Err(Fault::StackOverflow);
                }
                self._2nnn(nnn(opcode));
                update_pc = false;
            },
            (0x3, _, _, _) => {
                skip_instruction = self._3xnn(opcode.1, nn(opcode));
            },
            (0x4, _, _, _) => {
                skip_instruction = self._4xnn(opcode.1, nn(opcode));
            },
            (0x5, _, _, _) => {
                skip_instruction = self._5xy0(opcode.1, opcode.2);
            },
            (0x6, _, _, _) => {
                self._6xnn(opcode.1, nn(opcode));
            },
            (0x7, _, _, _) => {
                self._7xnn(opcode.1, nn(opcode));
            },
            (0x8, _, _, 0x0) => {
                self._8xy0(opcode.1, opcode.2);
            },
            (0x8, _, _, 0x1) => {
                self._8xy1(opcode.1, opcode.2);
            },
            (0x8, _, _, 0x2) => {
                self._8xy2(opcode.1, opcode.2);
            },
            (0x8, _, _, 0x3) => {
                self._8xy3(opcode.1, opcode.2);
            },
            (0x8, _, _, 0x4) => {
                self._8xy4(opcode.1, opcode.2);
            },
            (0x8, _, _, 0x5) => {
                self._8xy5(opcode.1, opcode.2);
            },
            (0x8, _, _, 0x6) => {
                self._8xy6(opcode.1, opcode.2);
            },
            (0x8, _, _, 0x7) => {
                self._8xy7(opcode.1, opcode.2);
            },
            (0x8, _, _, 0xe) => {
                self._8xye(opcode.1, opcode.2);
            },
            (0x9, _, _, _) => {
                skip_instruction = self._9xy0(opcode.1, opcode.2);
            },
            (0xa, _, _, _) => {
                self._annn(nnn(opcode));
            },
            (0xb, _, _, _) => {
                self._bnnn(nnn(opcode));
                update_pc = false;
            },
            (0xc, _, _, _) => {
                let drawn = next_rand_byte(&mut self.rng);
                proof {
                    rnd_byte = drawn;
                }
                self._cxnn(opcode.1, nn(opcode), drawn);
            },
            (0xd, _, _, _) => {
                if self.index as usize + opcode.3 as usize > RAM_SIZE {
                    return Err(Fault::MemoryOutOfBounds);
                }
                self._dxyn(opcode.1, opcode.2, opcode.3);
            },
            (0xe, _, 0x9, _) => {
                skip_instruction = self._ex9e(opcode.1);
            },
            (0xe, _, 0xa, _) => {
                skip_instruction = self._exa1(opcode.1);
            },
            (0xf, _, 0x0, 0x7) => {
                self._fx07(opcode.1);
            },
            (0xf, _, 0x0, 0xa) => {
                if self.keys == 0 {
                    update_pc = false;
                } else {
                    self._fx0a(opcode.1);
                }
            },
            (0xf, _, 0x1, 0x5) => {
                self._fx15(opcode.1);
            },
            (0xf, _, 0x1, 0x8) => {
                self._fx18(opcode.1);
            },
            (0xf, _, 0x1, 0xe) => {
                self._fx1e(opcode.1);
            },
            (0xf, _, 0x2, _) => {
                self._fx29(opcode.1);
            },
            (0xf, _, 0x3, _) => {
                if self.index as usize + 3 > RAM_SIZE {
                    return Err(Fault::MemoryOutOfBounds);
                }
                self._fx33(opcode.1);
            },
            (0xf, _, 0x5, _) => {
                if self.index as usize + opcode.1 as usize + 1 > RAM_SIZE {
                    return Err(Fault::MemoryOutOfBounds);
                }
                self._fx55(opcode.1);
            },
            (0xf, _, 0x6, _) => {
                if self.index as usize + opcode.1 as usize + 1 > RAM_SIZE {
                    return Err(Fault::MemoryOutOfBounds);
                }
                self._fx65(opcode.1);
            },
            _ => {},
        }
        if skip_instruction {
            pc_increment = pc_increment + 2;
        }
        if update_pc {
            self.program_counter = self.program_counter + pc_increment;
        }
        proof {
            if is_rand_op(old(self)@) {
                assert(self@ =~= spec_step(old(self)@, rnd_byte));
            } else {
                assert(self@ =~= spec_step(old(self)@, 0));
            }
        }
        Ok(())
    }

    /// dxyn: XOR the `n`-row sprite read from memory at I onto the
    /// screen with its origin at `(Vx mod 64, Vy mod 32)`; rows and
    /// columns that fall off the screen edge are clipped.  VF is
    /// overwritten: 1 if the draw turned any lit pixel off, else 0.
    #[verifier::loop_isolation(false)]
    fn _dxyn(&mut self, x: Nibble, y: Nibble, n: Nibble)
        requires
            old(self).wf(),
            x < 16,
            y < 16,
            n < 16,
            old(self)@.index + n <= RAM_SIZE,
        ensures
            final(self).wf(),
            final(self)@ == (VmState {
                fb: draw_fb(old(self)@, x, y, n),
                regs: old(self)@.regs.update(
                    15,
                    if draw_hit(old(self)@, x, y, n) { 1u8 } else { 0u8 },
                ),
                ..old(self)@
            }),
    {
        let ghost m = old(self)@.mem;
        let ghost ind = old(self)@.index;
        let ghost vx0 = old(self)@.regs[x as int];
        let ghost vy0 = old(self)@.regs[y as int];
        let x0 = (self.registers[x as usize] % (CHIP8_WIDTH as u8)) as usize;
        let y0 = (self.registers[y as usize] % (CHIP8_HEIGHT as u8)) as usize;
        self.registers[0xf] = 0;
        let mut i: usize = 0;
        while i < n as usize
            invariant
                i <= n,
                x0 == vx0 as int % CHIP8_WIDTH as int,
                y0 == vy0 as int % CHIP8_HEIGHT as int,
                self@ == (VmState { fb: self.pixels@, regs: self.registers@, ..old(self)@ }),
                self.pixels@.len() == CHIP8_WIDTH * CHIP8_HEIGHT,
                self.registers@.len() == NUM_REGISTERS,
                forall|r: int| 0 <= r < NUM_REGISTERS && r != 15 ==> self.registers@[r]
                    == old(self)@.regs[r],
                self.registers@[15] == 0 || self.registers@[15] == 1,
                self.registers@[15] == 1 <==> exists|a: int, b: int|
                    0 <= a < CHIP8_WIDTH && 0 <= b < CHIP8_HEIGHT && #[trigger] draw_cover(
                        m, ind, vx0, vy0, n, a, b,
                    ) && old(self)@.fb[b * CHIP8_WIDTH as int + a] && draw_done(
                        x0 as int, y0 as int, i as int, 0, a, b,
                    ),
                forall|k: int| 0 <= k < CHIP8_WIDTH * CHIP8_HEIGHT ==> self.pixels@[k] == (
                    old(self)@.fb[k] != (draw_cover(
                        m, ind, vx0, vy0, n, k % CHIP8_WIDTH as int, k / CHIP8_WIDTH as int,
                    ) && draw_done(
                        x0 as int, y0 as int, i as int, 0,
                        k % CHIP8_WIDTH as int, k / CHIP8_WIDTH as int,
                    ))),
            decreases n - i,
        {
            let row = self.memory[self.index as usize + i];
            assert(row == m[ind + i]);
            let mut j: usize = 0;
            while j < 8
                invariant
                    j <= 8,
                    i < n,
                    row == m[ind + i],
                    self@ == (VmState { fb: self.pixels@, regs: self.registers@, ..old(self)@ }),
                    self.pixels@.len() == CHIP8_WIDTH * CHIP8_HEIGHT,
                    self.registers@.len() == NUM_REGISTERS,
                    forall|r: int| 0 <= r < NUM_REGISTERS && r != 15 ==> self.registers@[r]
                        == old(self)@.regs[r],
                    self.registers@[15] == 0 || self.registers@[15] == 1,
                    self.registers@[15] == 1 <==> exists|a: int, b: int|
                        0 <= a < CHIP8_WIDTH && 0 <= b < CHIP8_HEIGHT && #[trigger] draw_cover(
                            m, ind, vx0, vy0, n, a, b,
                        ) && old(self)@.fb[b * CHIP8_WIDTH as int + a] && draw_done(
                            x0 as int, y0 as int, i as int, j as int, a, b,
                        ),
                    forall|k: int| 0 <= k < CHIP8_WIDTH * CHIP8_HEIGHT ==> self.pixels@[k] == (
                        old(self)@.fb[k] != (draw_cover(
                            m, ind, vx0, vy0, n, k % CHIP8_WIDTH as int, k / CHIP8_WIDTH as int,
                        ) && draw_done(
                            x0 as int, y0 as int, i as int, j as int,
                            k % CHIP8_WIDTH as int, k / CHIP8_WIDTH as int,
                        ))),
                decreases 8 - j,
            {
                let shift: u8 = (7 - j) as u8;
                let bit_set = (row >> shift) & 1 == 1;
                assert(bit_set == byte_bit(row, j as u8));
                let px = x0 + j;
                let py = y0 + i;
                if bit_set && px < CHIP8_WIDTH && py < CHIP8_HEIGHT {
                    proof {
                        assert(draw_cover(m, ind, vx0, vy0, n, px as int, py as int));
                    }
                    let k = py * CHIP8_WIDTH + px;
                    assert(k < CHIP8_WIDTH * CHIP8_HEIGHT);
                    proof {
                        assert(k as int % CHIP8_WIDTH as int == px && k as int / CHIP8_WIDTH as int
                            == py) by (nonlinear_arith)
                            requires
                                k == py * CHIP8_WIDTH + px,
                                0 <= px < CHIP8_WIDTH,
                                0 <= py,
                        ;
                        assert(!draw_done(x0 as int, y0 as int, i as int, j as int,
                            px as int, py as int));
                    }
                    if self.pixels[k] {
                        self.pixels.set(k, false);
                        self.registers[0xf] = 1;
                        proof {
                            assert(old(self)@.fb[k as int]);
                            assert(draw_cover(m, ind, vx0, vy0, n, px as int, py as int)
                                && old(self)@.fb[py as int * CHIP8_WIDTH as int + px as int]
                                && draw_done(x0 as int, y0 as int, i as int, j as int + 1,
                                    px as int, py as int));
                        }
                    } else {
                        self.pixels.set(k, true);
                        proof {
                            assert(!old(self)@.fb[k as int]);
                        }
                    }
                } else {
                    proof {
                        assert(!draw_cover(m, ind, vx0, vy0, n, px as int, py as int));
                    }
                }
                proof {
                    assert(forall|a: int, b: int| (#[trigger] draw_cover(m, ind, vx0, vy0, n, a, b))
                        && draw_done(x0 as int, y0 as int, i as int, j as int, a, b)
                        ==> draw_done(x0 as int, y0 as int, i as int, j as int + 1, a, b));
                    assert(forall|a: int, b: int| (#[trigger] draw_cover(m, ind, vx0, vy0, n, a, b))
                        && draw_done(x0 as int, y0 as int, i as int, j as int + 1, a, b)
                        && !draw_done(x0 as int, y0 as int, i as int, j as int, a, b)
                        ==> a == x0 + j && b == y0 + i);
                }
                j = j + 1;
            }
            proof {
                assert(forall|a: int, b: int| (#[trigger] draw_cover(m, ind, vx0, vy0, n, a, b))
                    ==> (draw_done(x0 as int, y0 as int, i as int, 8, a, b) == draw_done(
                        x0 as int, y0 as int, i as int + 1, 0, a, b,
                    )));
            }
            i = i + 1;
        }
        proof {
            assert(forall|a: int, b: int| (#[trigger] draw_cover(m, ind, vx0, vy0, n, a, b))
                ==> draw_done(x0 as int, y0 as int, n as int, 0, a, b));
            assert(self.pixels@ =~= draw_fb(old(self)@, x, y, n));
            assert(self.registers@[15] == 1 <==> draw_hit(old(self)@, x, y, n));
            assert(self.registers@ =~= old(self)@.regs.update(
                15,
                if draw_hit(old(self)@, x, y, n) { 1u8 } else { 0u8 },
            ));
            assert(self@ =~= (VmState {
                fb: draw_fb(old(self)@, x, y, n),
                regs: old(self)@.regs.update(
                    15,
                    if draw_hit(old(self)@, x, y, n) { 1u8 } else { 0u8 },
                ),
                ..old(self)@
            }));
        }
    }

    /// fx55: store registers V0..Vx inclusive into memory at I.
    #[verifier::loop_isolation(false)]
    fn _fx55(&mut self, x: Nibble)
        requires
            old(self).wf(),
            x < 16,
            old(self)@.index + x + 1 <= RAM_SIZE,
        ensures
            final(self).wf(),
            final(self)@ == (VmState {
                mem: store_regs_mem(old(self)@.mem, old(self)@.index, old(self)@.regs, x),
                ..old(self)@
            }),
    {
        let base = self.index as usize;
        let mut i: usize = 0;
        while i <= x as usize
            invariant
                i <= x + 1,
                self.memory@.len() == RAM_SIZE,
                self@ == (VmState { mem: self.memory@, ..old(self)@ }),
                forall|a: int|
                    0 <= a < RAM_SIZE ==> self.memory@[a] == (if base <= a < base + i {
                        old(self)@.regs[a - base]
                    } else {
                        old(self)@.mem[a]
                    }),
            decreases x + 1 - i,
        {
            self.memory.set(base + i, self.registers[i]);
            i = i + 1;
        }
        proof {
            assert(self@ =~= (VmState {
                mem: store_regs_mem(old(self)@.mem, old(self)@.index, old(self)@.regs, x),
                ..old(self)@
            }));
        }
    }

    /// fx65: load registers V0..Vx inclusive from memory at I.
    #[verifier::loop_isolation(false)]
    fn _fx65(&mut self, x: Nibble)
        requires
            old(self).wf(),
            x < 16,
            old(self)@.index + x + 1 <= RAM_SIZE,
        ensures
            final(self).wf(),
            final(self)@ == (VmState {
                regs: load_regs(old(self)@.regs, old(self)@.mem, old(self)@.index, x),
                ..old(self)@
            }),
    {
        let base = self.index as usize;
        let mut i: usize = 0;
        while i <= x as usize
            invariant
                i <= x + 1,
                self@ == (VmState { regs: self.registers@, ..old(self)@ }),
                forall|r: int|
                    0 <= r < NUM_REGISTERS ==> self.registers@[r] == (if r < i {
                        old(self)@.mem[base + r]
                    } else {
                        old(self)@.regs[r]
                    }),
            decreases x + 1 - i,
        {
            self.registers[i] = self.memory[base + i];
            i = i + 1;
        }
        proof {
            assert(self@ =~= (VmState {
                regs: load_regs(old(self)@.regs, old(self)@.mem, old(self)@.index, x),
                ..old(self)@
            }));
        }
    }
}

} // verus!
