//! The instruction-set semantics: a single fetch-decode-execute step as
//! a mathematical function over `VmState`, together with the fault
//! conditions under which a step is refused.
//!
//! Conventions pinned down here (the reference behaviour has historical
//! variants): shifts `8xy6`/`8xyE` operate on Vx in place; SUB/SUBN set
//! VF to 1 exactly when the minuend is at least the subtrahend (no
//! borrow); sprite rows and columns that fall off the screen edge are
//! clipped, while the origin wraps by modulo; key numbers are taken from
//! the low nibble of Vx; the key-wait instruction leaves the program
//! counter in place while no key is pressed, so the host sees an
//! explicit spin-wait rather than a blocking call.

use vstd::prelude::*;

use crate::decode::{hi_nib, lo_nib, spec_addr12};
use crate::state::{Fault, VmState, vm_wf, NUM_REGISTERS, RAM_SIZE, STACK_SIZE, CHIP8_WIDTH,
    CHIP8_HEIGHT, FONT_START};

verus! {

/// True when both instruction bytes at the program counter lie in memory.
pub open spec fn fetch_ok(s: VmState) -> bool {
    s.pc + 1 < RAM_SIZE
}

/// Key `k` (0..16) is pressed in the snapshot `keys`.
pub open spec fn key_pressed(keys: u16, k: u16) -> bool {
    (keys >> k) & 1 == 1
}

/// The lowest-numbered pressed key at or above `k`, or 15 if none is.
pub open spec fn first_key_from(keys: u16, k: u16) -> u16
    decreases 16 - k,
{
    if k >= 15 {
        15
    } else if key_pressed(keys, k) {
        k
    } else {
        first_key_from(keys, (k + 1) as u16)
    }
}

/// Bit `j` of byte `b`, most-significant bit first.
pub open spec fn byte_bit(b: u8, j: u8) -> bool
    recommends
        j < 8,
{
    (b >> ((7 - j) as u8)) & 1 == 1
}

/// A blank framebuffer: every pixel off.
pub open spec fn blank_fb() -> Seq<bool> {
    Seq::new((CHIP8_WIDTH * CHIP8_HEIGHT) as nat, |i: int| false)
}

/// The draw instruction touches pixel `(px, py)`: the pixel lies inside
/// the sprite's 8-wide, `n`-tall box anchored at the wrapped origin, it
/// is not clipped by the screen edge, and its sprite bit is set.
pub open spec fn draw_cover(
    mem: Seq<u8>,
    index: u16,
    vx: u8,
    vy: u8,
    n: u8,
    px: int,
    py: int,
) -> bool {
    let x0 = vx as int % CHIP8_WIDTH as int;
    let y0 = vy as int % CHIP8_HEIGHT as int;
    &&& x0 <= px < x0 + 8
    &&& px < CHIP8_WIDTH
    &&& y0 <= py < y0 + n
    &&& py < CHIP8_HEIGHT
    &&& byte_bit(mem[index + (py - y0)], (px - x0) as u8)
}

/// The framebuffer after drawing: every covered pixel is toggled.
pub open spec fn draw_fb(s: VmState, x: u8, y: u8, n: u8) -> Seq<bool>
    recommends
        vm_wf(s),
        x < 16,
        y < 16,
{
    Seq::new(
        s.fb.len(),
        |k: int|
            s.fb[k] != draw_cover(
                s.mem,
                s.index,
                s.regs[x as int],
                s.regs[y as int],
                n,
                k % CHIP8_WIDTH as int,
                k / CHIP8_WIDTH as int,
            ),
    )
}

/// The draw collides: some covered pixel was already set, so the toggle
/// turns it off and VF must report 1.
pub open spec fn draw_hit(s: VmState, x: u8, y: u8, n: u8) -> bool
    recommends
        vm_wf(s),
        x < 16,
        y < 16,
{
    exists|px: int, py: int|
        0 <= px < CHIP8_WIDTH && 0 <= py < CHIP8_HEIGHT && #[trigger] draw_cover(
            s.mem,
            s.index,
            s.regs[x as int],
            s.regs[y as int],
            n,
            px,
            py,
        ) && s.fb[py * CHIP8_WIDTH as int + px]
}

/// Register file after an `8xy?` arithmetic/logic opcode.  Vx is written
/// first; where the opcode also writes the flag, VF is overwritten last,
/// so the flag survives even when `x` is 15.
pub open spec fn alu_regs(regs: Seq<u8>, x: u8, y: u8, n4: u8) -> Seq<u8>
    recommends
        regs.len() == NUM_REGISTERS,
        x < 16,
        y < 16,
{
    let vx = regs[x as int];
    let vy = regs[y as int];
    if n4 == 0 {
        regs.update(x as int, vy)
    } else if n4 == 1 {
        regs.update(x as int, vx | vy)
    } else if n4 == 2 {
        regs.update(x as int, vx & vy)
    } else if n4 == 3 {
        regs.update(x as int, vx ^ vy)
    } else if n4 == 4 {
        regs.update(x as int, ((vx + vy) % 256) as u8).update(
            15,
            if vx + vy > 255 { 1u8 } else { 0u8 },
        )
    } else if n4 == 5 {
        regs.update(x as int, if vx >= vy { (vx - vy) as u8 } else { (vx - vy + 256) as u8 }).update(
            15,
            if vx >= vy { 1u8 } else { 0u8 },
        )
    } else if n4 == 6 {
        regs.update(x as int, (vx / 2) as u8).update(15, (vx % 2) as u8)
    } else if n4 == 7 {
        regs.update(x as int, if vy >= vx { (vy - vx) as u8 } else { (vy - vx + 256) as u8 }).update(
            15,
            if vy >= vx { 1u8 } else { 0u8 },
        )
    } else if n4 == 0xE {
        regs.update(x as int, ((vx * 2) % 256) as u8).update(15, (vx / 128) as u8)
    } else {
        regs
    }
}

/// Memory after `Fx55`: registers V0..Vx inclusive stored at the index
/// register; every other byte unchanged.
pub open spec fn store_regs_mem(mem: Seq<u8>, index: u16, regs: Seq<u8>, x: u8) -> Seq<u8> {
    Seq::new(
        mem.len(),
        |a: int| if index <= a <= index + x { regs[a - index] } else { mem[a] },
    )
}

/// Register file after `Fx65`: V0..Vx inclusive loaded from memory at
/// the index register; higher registers unchanged.
pub open spec fn load_regs(regs: Seq<u8>, mem: Seq<u8>, index: u16, x: u8) -> Seq<u8> {
    Seq::new(regs.len(), |r: int| if r <= x { mem[index + r] } else { regs[r] })
}

/// Memory after `Fx33`: the three decimal digits of `v` at the index
/// register, hundreds first.
pub open spec fn bcd_mem(mem: Seq<u8>, index: u16, v: u8) -> Seq<u8> {
    mem.update(index as int, (v / 100) as u8).update(
        index as int + 1,
        ((v / 10) % 10) as u8,
    ).update(index as int + 2, (v % 10) as u8)
}

/// State transition for the `Fx??` opcode group.
pub open spec fn f_group_step(s: VmState, x: u8, n3: u8, n4: u8, pc2: u16) -> VmState
    recommends
        vm_wf(s),
        x < 16,
{
    let vx = s.regs[x as int];
    if n3 == 0 && n4 == 7 {
        VmState { regs: s.regs.update(x as int, s.delay), pc: pc2, ..s }
    } else if n3 == 0 && n4 == 0xA {
        if s.keys == 0 {
            s
        } else {
            VmState {
                regs: s.regs.update(x as int, first_key_from(s.keys, 0) as u8),
                pc: pc2,
                ..s
            }
        }
    } else if n3 == 1 && n4 == 5 {
        VmState { delay: vx, pc: pc2, ..s }
    } else if n3 == 1 && n4 == 8 {
        VmState { sound: vx, pc: pc2, ..s }
    } else if n3 == 1 && n4 == 0xE {
        VmState { index: ((s.index + vx) % 0x10000) as u16, pc: pc2, ..s }
    } else if n3 == 2 {
        VmState { index: (FONT_START + 5 * (vx % 16)) as u16, pc: pc2, ..s }
    } else if n3 == 3 {
        VmState { mem: bcd_mem(s.mem, s.index, vx), pc: pc2, ..s }
    } else if n3 == 5 {
        VmState { mem: store_regs_mem(s.mem, s.index, s.regs, x), pc: pc2, ..s }
    } else if n3 == 6 {
        VmState { regs: load_regs(s.regs, s.mem, s.index, x), pc: pc2, ..s }
    } else {
        VmState { pc: pc2, ..s }
    }
}

/// The fault, if any, that one step from `s` raises.  A fault is a
/// function of the pre-state alone; a faulting step leaves the state
/// unchanged.
pub open spec fn spec_fault(s: VmState) -> Option<Fault> {
    if !fetch_ok(s) {
        Some(Fault::MemoryOutOfBounds)
    } else {
        let hi = s.mem[s.pc as int];
        let lo = s.mem[s.pc as int + 1];
        let n1 = hi_nib(hi);
        let x = lo_nib(hi);
        let n3 = hi_nib(lo);
        let n4 = lo_nib(lo);
        if n1 == 0 && n4 == 0xE && s.sp == 0 {
            Some(Fault::StackUnderflow)
        } else if n1 == 2 && s.sp == STACK_SIZE {
            Some(Fault::StackOverflow)
        } else if n1 == 0xD && s.index + n4 > RAM_SIZE {
            Some(Fault::MemoryOutOfBounds)
        } else if n1 == 0xF && n3 == 3 && s.index + 3 > RAM_SIZE {
            Some(Fault::MemoryOutOfBounds)
        } else if n1 == 0xF && (n3 == 5 || n3 == 6) && s.index + x + 1 > RAM_SIZE {
            Some(Fault::MemoryOutOfBounds)
        } else {
            None
        }
    }
}

/// The instruction about to execute consults the random source, so the
/// post-state of a step depends on the drawn byte.
pub open spec fn is_rand_op(s: VmState) -> bool {
    fetch_ok(s) && hi_nib(s.mem[s.pc as int]) == 0xC
}

/// One complete fetch-decode-execute step: the state after executing the
/// instruction at the program counter, where `rnd` is the byte the
/// random source produced (only a `Cxnn` opcode reads it).
pub open spec fn spec_step(s: VmState, rnd: u8) -> VmState
    recommends
        vm_wf(s),
        spec_fault(s) is None,
{
    let hi = s.mem[s.pc as int];
    let lo = s.mem[s.pc as int + 1];
    let n1 = hi_nib(hi);
    let x = lo_nib(hi);
    let n3 = hi_nib(lo);
    let n4 = lo_nib(lo);
    let nnn = spec_addr12(hi, lo);
    let pc2 = (s.pc + 2) as u16;
    let pc4 = (s.pc + 4) as u16;
    let vx = s.regs[x as int];
    let vy = s.regs[n3 as int];
    if n1 == 0 {
        if n4 == 0 {
            VmState { fb: blank_fb(), pc: pc2, ..s }
        } else if n4 == 0xE {
            VmState { pc: s.stack[s.sp - 1], sp: (s.sp - 1) as nat, ..s }
        } else {
            VmState { pc: pc2, ..s }
        }
    } else if n1 == 1 {
        VmState { pc: nnn, ..s }
    } else if n1 == 2 {
        VmState { stack: s.stack.update(s.sp as int, pc2), sp: s.sp + 1, pc: nnn, ..s }
    } else if n1 == 3 {
        VmState { pc: if vx == lo { pc4 } else { pc2 }, ..s }
    } else if n1 == 4 {
        VmState { pc: if vx != lo { pc4 } else { pc2 }, ..s }
    } else if n1 == 5 {
        VmState { pc: if vx == vy { pc4 } else { pc2 }, ..s }
    } else if n1 == 6 {
        VmState { regs: s.regs.update(x as int, lo), pc: pc2, ..s }
    } else if n1 == 7 {
        VmState { regs: s.regs.update(x as int, ((vx + lo) % 256) as u8), pc: pc2, ..s }
    } else if n1 == 8 {
        VmState { regs: alu_regs(s.regs, x, n3, n4), pc: pc2, ..s }
    } else if n1 == 9 {
        VmState { pc: if vx != vy { pc4 } else { pc2 }, ..s }
    } else if n1 == 0xA {
        VmState { index: nnn, pc: pc2, ..s }
    } else if n1 == 0xB {
        VmState { pc: (nnn + s.regs[0]) as u16, ..s }
    } else if n1 == 0xC {
        VmState { regs: s.regs.update(x as int, rnd & lo), pc: pc2, ..s }
    } else if n1 == 0xD {
        VmState {
            fb: draw_fb(s, x, n3, n4),
            regs: s.regs.update(15, if draw_hit(s, x, n3, n4) { 1u8 } else { 0u8 }),
            pc: pc2,
            ..s
        }
    } else if n1 == 0xE {
        if n3 == 9 {
            VmState { pc: if key_pressed(s.keys, (vx % 16) as u16) { pc4 } else { pc2 }, ..s }
        } else if n3 == 0xA {
            VmState { pc: if !key_pressed(s.keys, (vx % 16) as u16) { pc4 } else { pc2 }, ..s }
        } else {
            VmState { pc: pc2, ..s }
        }
    } else {
        f_group_step(s, x, n3, n4, pc2)
    }
}

/// A non-faulting step preserves well-formedness.
pub proof fn lemma_step_wf(s: VmState, rnd: u8)
    requires
        vm_wf(s),
        spec_fault(s) is None,
    ensures
        vm_wf(spec_step(s, rnd)),
{
}

} // verus!
