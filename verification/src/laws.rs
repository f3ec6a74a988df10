//! Laws of the instruction set, stated over the single-step semantics
//! and proved once and for all.  `Chip8::tick` guarantees that the
//! machine's post-view is exactly `spec_step` of its pre-view (with the
//! drawn byte as the second argument, which only the random opcode
//! reads), so each law below describes one observable tick.

use vstd::prelude::*;

use crate::decode::{hi_nib, lo_nib};
use crate::state::{VmState, vm_wf, RAM_SIZE, STACK_SIZE};
use crate::step::{fetch_ok, spec_step, draw_cover, draw_hit};

verus! {

/// For every opcode `6xNN`: after one tick, register Vx holds NN and the
/// program counter has advanced by two.
pub proof fn lemma_set_immediate(s: VmState, x: u8, nn: u8)
    requires
        vm_wf(s),
        fetch_ok(s),
        x < 16,
        s.mem[s.pc as int] == 0x60 + x,
        s.mem[s.pc as int + 1] == nn,
    ensures
        spec_step(s, 0).regs[x as int] == nn,
        spec_step(s, 0).pc == s.pc + 2,
{
    assert(hi_nib((0x60 + x) as u8) == 6 && lo_nib((0x60 + x) as u8) == x);
}

/// For every opcode `7xNN`: register Vx wraps modulo 256 on overflow,
/// the program counter advances by two, and no flag is set: VF is
/// untouched (whenever VF is not itself the destination).
pub proof fn lemma_add_immediate_wraps(s: VmState, x: u8, nn: u8)
    requires
        vm_wf(s),
        fetch_ok(s),
        x < 16,
        s.mem[s.pc as int] == 0x70 + x,
        s.mem[s.pc as int + 1] == nn,
    ensures
        spec_step(s, 0).regs[x as int] == (s.regs[x as int] + nn) % 256,
        spec_step(s, 0).pc == s.pc + 2,
        x != 15 ==> spec_step(s, 0).regs[15] == s.regs[15],
{
    assert(hi_nib((0x70 + x) as u8) == 7 && lo_nib((0x70 + x) as u8) == x);
}

/// For every opcode `3xNN`: the skip adds 4 to the program counter when
/// Vx equals NN and 2 when it does not.
pub proof fn lemma_skip_eq_immediate(s: VmState, x: u8, nn: u8)
    requires
        vm_wf(s),
        fetch_ok(s),
        x < 16,
        s.mem[s.pc as int] == 0x30 + x,
        s.mem[s.pc as int + 1] == nn,
    ensures
        spec_step(s, 0).pc == if s.regs[x as int] == nn { s.pc + 4 } else { s.pc + 2 },
{
    assert(hi_nib((0x30 + x) as u8) == 3 && lo_nib((0x30 + x) as u8) == x);
}

/// For every opcode `4xNN`: the skip adds 4 to the program counter when
/// Vx differs from NN and 2 when it does not.
pub proof fn lemma_skip_ne_immediate(s: VmState, x: u8, nn: u8)
    requires
        vm_wf(s),
        fetch_ok(s),
        x < 16,
        s.mem[s.pc as int] == 0x40 + x,
        s.mem[s.pc as int + 1] == nn,
    ensures
        spec_step(s, 0).pc == if s.regs[x as int] != nn { s.pc + 4 } else { s.pc + 2 },
{
    assert(hi_nib((0x40 + x) as u8) == 4 && lo_nib((0x40 + x) as u8) == x);
}

/// For every opcode `5xy0`: the skip adds 4 to the program counter when
/// Vx equals Vy and 2 when it does not.
pub proof fn lemma_skip_eq_register(s: VmState, x: u8, y: u8)
    requires
        vm_wf(s),
        fetch_ok(s),
        x < 16,
        y < 16,
        s.mem[s.pc as int] == 0x50 + x,
        s.mem[s.pc as int + 1] == 0x10 * y,
    ensures
        spec_step(s, 0).pc == if s.regs[x as int] == s.regs[y as int] {
            s.pc + 4
        } else {
            s.pc + 2
        },
{
    assert(hi_nib((0x50 + x) as u8) == 5 && lo_nib((0x50 + x) as u8) == x);
    assert(hi_nib((0x10 * y) as u8) == y && lo_nib((0x10 * y) as u8) == 0);
}

/// Call/return round trip.  A CALL `2nnn` pushes the return address —
/// the address of the instruction *after* the two-byte CALL — and jumps;
/// when the subroutine at the target begins with RETURN `00ee`, the
/// following tick pops exactly that address into the program counter and
/// the stack pointer returns to its pre-call depth.
pub proof fn lemma_call_return_round_trip(s: VmState, target: u16)
    requires
        vm_wf(s),
        fetch_ok(s),
        s.sp < STACK_SIZE,
        target < 0x1000,
        target + 1 < RAM_SIZE,
        s.mem[s.pc as int] == 0x20 + target / 0x100,
        s.mem[s.pc as int + 1] == target % 0x100,
        s.mem[target as int] == 0x00,
        s.mem[target as int + 1] == 0xEE,
    ensures
        spec_step(s, 0).pc == target,
        spec_step(s, 0).sp == s.sp + 1,
        spec_step(s, 0).stack[s.sp as int] == s.pc + 2,
        spec_step(spec_step(s, 0), 0).pc == s.pc + 2,
        spec_step(spec_step(s, 0), 0).sp == s.sp,
{
    let hi = s.mem[s.pc as int];
    assert(hi_nib(hi) == 2 && lo_nib(hi) == target / 0x100);
    assert(lo_nib(hi) * 0x100 + target % 0x100 == target);
    let s1 = spec_step(s, 0);
    assert(hi_nib(0x00u8) == 0 && lo_nib(0xEEu8) == 0xE);
    assert(s1.stack[s1.sp - 1] == s.pc + 2);
}

/// Store/load round trip.  `Fx55` writes registers V0..Vx inclusive to
/// memory at I; a later `Fx65` tick on any state `t` that carries that
/// memory and the same index register — whatever its register file then
/// holds, for instance all zeroes — reproduces the original V0..Vx
/// exactly, inclusive of Vx, and advances the program counter by two.
pub proof fn lemma_store_load_round_trip(s: VmState, t: VmState, x: u8)
    requires
        vm_wf(s),
        fetch_ok(s),
        x < 16,
        s.mem[s.pc as int] == 0xF0 + x,
        s.mem[s.pc as int + 1] == 0x55,
        s.index + x + 1 <= RAM_SIZE,
        vm_wf(t),
        fetch_ok(t),
        t.mem == spec_step(s, 0).mem,
        t.index == s.index,
        t.mem[t.pc as int] == 0xF0 + x,
        t.mem[t.pc as int + 1] == 0x65,
    ensures
        forall|r: int| 0 <= r <= x ==> spec_step(s, 0).mem[s.index + r] == s.regs[r],
        forall|r: int| 0 <= r <= x ==> spec_step(t, 0).regs[r] == s.regs[r],
        forall|r: int| x < r < 16 ==> spec_step(t, 0).regs[r] == t.regs[r],
        spec_step(t, 0).pc == t.pc + 2,
{
    assert(hi_nib((0xF0 + x) as u8) == 0xF && lo_nib((0xF0 + x) as u8) == x);
    assert(hi_nib(0x55u8) == 5);
    assert(hi_nib(0x65u8) == 6);
}

/// Draw idempotence.  Two successive `Dxyn` instructions with the same
/// operands (and x, y not the flag register, so the collision result of
/// the first draw cannot change the origin of the second) cancel: the
/// second draw clears exactly the pixels the first set and restores the
/// ones it cleared, so the framebuffer returns to its initial contents;
/// and VF after the second tick reports precisely whether the second
/// draw collided with the image the first draw left behind.
pub proof fn lemma_draw_twice_cancels(s: VmState, x: u8, y: u8, n: u8)
    requires
        vm_wf(s),
        x < 16,
        y < 16,
        n < 16,
        x != 15,
        y != 15,
        s.pc + 3 < RAM_SIZE,
        s.mem[s.pc as int] == 0xD0 + x,
        s.mem[s.pc as int + 1] == 0x10 * y + n,
        s.mem[s.pc as int + 2] == 0xD0 + x,
        s.mem[s.pc as int + 3] == 0x10 * y + n,
        s.index + n <= RAM_SIZE,
    ensures
        spec_step(spec_step(s, 0), 0).fb == s.fb,
        spec_step(spec_step(s, 0), 0).regs[15] == (if draw_hit(spec_step(s, 0), x, y, n) {
            1u8
        } else {
            0u8
        }),
{
    let hi = s.mem[s.pc as int];
    let lo = s.mem[s.pc as int + 1];
    assert(hi_nib(hi) == 0xD && lo_nib(hi) == x);
    assert(hi_nib(lo) == y && lo_nib(lo) == n);
    let s1 = spec_step(s, 0);
    assert(s1.regs[x as int] == s.regs[x as int] && s1.regs[y as int] == s.regs[y as int]);
    let s2 = spec_step(s1, 0);
    assert(s2.fb =~= s.fb) by {
        assert(forall|k: int| 0 <= k < s.fb.len() ==> s2.fb[k] == s.fb[k]);
    }
}

/// Coordinate wrap.  The draw origin column is Vx modulo 64 (and the
/// origin row Vy modulo 32): replacing Vx by its remainder — for
/// instance 70 by 6 — changes neither the drawn image nor the collision
/// flag.
pub proof fn lemma_draw_origin_wraps(s1: VmState, s2: VmState, x: u8, y: u8, n: u8)
    requires
        vm_wf(s1),
        vm_wf(s2),
        x < 16,
        y < 16,
        n < 16,
        fetch_ok(s1),
        s1.mem[s1.pc as int] == 0xD0 + x,
        s1.mem[s1.pc as int + 1] == 0x10 * y + n,
        s1.index + n <= RAM_SIZE,
        s2.mem == s1.mem,
        s2.index == s1.index,
        s2.fb == s1.fb,
        s2.pc == s1.pc,
        s2.regs == s1.regs.update(x as int, (s1.regs[x as int] % 64) as u8),
    ensures
        spec_step(s1, 0).fb == spec_step(s2, 0).fb,
        spec_step(s1, 0).regs[15] == spec_step(s2, 0).regs[15],
{
    let hi = s1.mem[s1.pc as int];
    let lo = s1.mem[s1.pc as int + 1];
    assert(hi_nib(hi) == 0xD && lo_nib(hi) == x);
    assert(hi_nib(lo) == y && lo_nib(lo) == n);
    let vx1 = s1.regs[x as int];
    let vx2 = s2.regs[x as int];
    let vy1 = s1.regs[y as int];
    let vy2 = s2.regs[y as int];
    assert(vx2 == vx1 % 64);
    assert((vx1 % 64) % 64 == vx1 % 64) by (bit_vector);
    assert((vx1 % 64) % 32 == vx1 % 32) by (bit_vector);
    assert(vy2 as int % 32 == vy1 as int % 32);
    assert(vx2 as int % 64 == vx1 as int % 64);
    assert(forall|a: int, b: int|
        #![trigger draw_cover(s1.mem, s1.index, vx1, vy1, n, a, b)]
        #![trigger draw_cover(s2.mem, s2.index, vx2, vy2, n, a, b)]
        draw_cover(s1.mem, s1.index, vx1, vy1, n, a, b) == draw_cover(
            s2.mem, s2.index, vx2, vy2, n, a, b,
        ));
    assert(spec_step(s1, 0).fb =~= spec_step(s2, 0).fb);
    assert(draw_hit(s1, x, y, n) == draw_hit(s2, x, y, n));
}

} // verus!

