use vstd::prelude::*;

use crate::cpu::{run_instr, state_wf, State, VF};
use crate::instr::Instr;
use crate::keypad::Key;
use crate::memory::{glyph_addr, MEM_SIZE};
use crate::screen::{at, blank, collides, covers, drawn, on_screen};
use crate::timer::{timer_after, timer_step};

verus! {

/// `7xkk` adds modulo 256, writes no register but Vx (so never the carry flag of
/// another register) and moves on to the next instruction.
pub proof fn add_immediate_wraps(s: State, x: u8, kk: u8, incoming: Option<Key>, timer: u8, rnd: u8)
    requires
        state_wf(s),
        s.cpu.pc + 1 < MEM_SIZE,
        x < 16,
    ensures
        run_instr(s, Instr::AddByte(x, kk), incoming, timer, rnd) is Ok,
        ({
            let s2 = run_instr(s, Instr::AddByte(x, kk), incoming, timer, rnd)->Ok_0.0;
            &&& s2.cpu.v[x as int] == (s.cpu.v[x as int] + kk) % 256
            &&& forall|j: int| 0 <= j < 16 && j != x ==> s2.cpu.v[j] == s.cpu.v[j]
            &&& s2.cpu.pc == s.cpu.pc + 2
        }),
{
}

/// `8xy4` with Vx not the flags register: VF is 1 exactly when Vx + Vy exceeds 255, and Vx
/// becomes (Vx + Vy) mod 256.
pub proof fn add_registers_carry(s: State, x: u8, y: u8, incoming: Option<Key>, timer: u8, rnd: u8)
    requires
        state_wf(s),
        x < 15,
        y < 16,
    ensures
        run_instr(s, Instr::AddReg(x, y), incoming, timer, rnd) is Ok,
        ({
            let s2 = run_instr(s, Instr::AddReg(x, y), incoming, timer, rnd)->Ok_0.0;
            let (vx, vy) = (s.cpu.v[x as int], s.cpu.v[y as int]);
            &&& (s2.cpu.v[VF as int] == 1) == (vx + vy > 255)
            &&& s2.cpu.v[VF as int] <= 1
            &&& s2.cpu.v[x as int] == (vx + vy) % 256
        }),
{
}

/// `8xy5` and `8xy7` with Vx not the flags register follow one convention: VF is 1 exactly
/// when the subtraction does not borrow, and the difference is taken mod 256.
pub proof fn subtract_not_borrow(s: State, x: u8, y: u8, incoming: Option<Key>, timer: u8, rnd: u8)
    requires
        state_wf(s),
        x < 15,
        y < 16,
    ensures
        run_instr(s, Instr::Sub(x, y), incoming, timer, rnd) is Ok,
        run_instr(s, Instr::Subn(x, y), incoming, timer, rnd) is Ok,
        ({
            let a = run_instr(s, Instr::Sub(x, y), incoming, timer, rnd)->Ok_0.0;
            let b = run_instr(s, Instr::Subn(x, y), incoming, timer, rnd)->Ok_0.0;
            let (vx, vy) = (s.cpu.v[x as int], s.cpu.v[y as int]);
            &&& (a.cpu.v[VF as int] == 1) == (vx >= vy)
            &&& a.cpu.v[VF as int] <= 1
            &&& a.cpu.v[x as int] == (vx - vy + 256) % 256
            &&& (b.cpu.v[VF as int] == 1) == (vy >= vx)
            &&& b.cpu.v[VF as int] <= 1
            &&& b.cpu.v[x as int] == (vy - vx + 256) % 256
        }),
{
}

/// A call followed by a return leaves the stack pointer where it was and resumes at the
/// instruction after the call; during the call the stack holds one more address.
pub proof fn call_then_return(s: State, a: u16, incoming: Option<Key>, timer: u8, rnd: u8)
    requires
        state_wf(s),
        s.cpu.sp < 16,
        s.cpu.pc + 1 < MEM_SIZE,
        a < 0x1000,
    ensures
        run_instr(s, Instr::Call(a), incoming, timer, rnd) is Ok,
        ({
            let s1 = run_instr(s, Instr::Call(a), incoming, timer, rnd)->Ok_0.0;
            &&& state_wf(s1)
            &&& s1.cpu.sp == s.cpu.sp + 1
            &&& s1.cpu.pc == a
            &&& run_instr(s1, Instr::Ret, None, timer, rnd) is Ok
            &&& run_instr(s1, Instr::Ret, None, timer, rnd)->Ok_0.0.cpu.sp == s.cpu.sp
            &&& run_instr(s1, Instr::Ret, None, timer, rnd)->Ok_0.0.cpu.pc == s.cpu.pc + 2
        }),
{
    let s1 = run_instr(s, Instr::Call(a), incoming, timer, rnd)->Ok_0.0;
    assert(s1.cpu.stack[s.cpu.sp as int] == s.cpu.pc);
    assert forall|j: int| 0 <= j < 16 implies #[trigger] s1.cpu.stack[j] < MEM_SIZE - 1 by {
        if j != s.cpu.sp {
            assert(s1.cpu.stack[j] == s.cpu.stack[j]);
        }
    }
}

/// `Fx29` with a digit d in Vx points the index register at address d * 5.
pub proof fn font_glyph_address(s: State, x: u8, incoming: Option<Key>, timer: u8, rnd: u8)
    requires
        state_wf(s),
        x < 16,
        s.cpu.v[x as int] < 16,
    ensures
        run_instr(s, Instr::LdF(x), incoming, timer, rnd) is Ok,
        run_instr(s, Instr::LdF(x), incoming, timer, rnd)->Ok_0.0.cpu.i == glyph_addr(
            s.cpu.v[x as int] as int,
        ),
        glyph_addr(s.cpu.v[x as int] as int) == s.cpu.v[x as int] * 5,
{
}

/// Drawing a sprite twice at the same place restores the display.
pub proof fn redraw_restores(pixels: Seq<bool>, x: int, y: int, rows: Seq<u8>)
    ensures
        drawn(drawn(pixels, x, y, rows), x, y, rows) == pixels,
{
    assert(drawn(drawn(pixels, x, y, rows), x, y, rows) =~= pixels);
}

/// On a dark display a sprite collides with nothing; drawn again at the same place, it
/// collides as soon as one of its lit bits falls on the display.
pub proof fn redraw_collides(x: int, y: int, rows: Seq<u8>, px: int, py: int)
    requires
        on_screen(px, py),
        covers(x, y, rows, px, py),
    ensures
        !collides(blank(), x, y, rows),
        collides(drawn(blank(), x, y, rows), x, y, rows),
{
    assert(0 <= at(px, py) < 2048) by (nonlinear_arith)
        requires
            on_screen(px, py),
    ;
    assert(at(px, py) % 64 == px && at(px, py) / 64 == py) by (nonlinear_arith)
        requires
            on_screen(px, py),
    ;
    assert(drawn(blank(), x, y, rows)[at(px, py)]);
    assert forall|qx: int, qy: int| on_screen(qx, qy) implies !blank()[#[trigger] at(qx, qy)] by {
        assert(0 <= at(qx, qy) < 2048) by (nonlinear_arith)
            requires
                on_screen(qx, qy),
        ;
    }
}

/// `Dxyn` twice in a row at the same registers, from a dark display, reports no collision
/// and then a collision, and leaves the display dark, when the sprite lights a pixel.
pub proof fn draw_twice(s: State, x: u8, y: u8, n: u8, px: int, py: int, timer: u8, rnd: u8)
    requires
        state_wf(s),
        x < 15,
        y < 15,
        n < 16,
        s.cpu.i + n <= MEM_SIZE,
        s.screen == blank(),
        on_screen(px, py),
        covers(
            s.cpu.v[x as int] as int,
            s.cpu.v[y as int] as int,
            s.mem.subrange(s.cpu.i as int, s.cpu.i + n),
            px,
            py,
        ),
    ensures
        run_instr(s, Instr::Drw(x, y, n), None, timer, rnd) is Ok,
        ({
            let s1 = run_instr(s, Instr::Drw(x, y, n), None, timer, rnd)->Ok_0.0;
            let s2 = run_instr(s1, Instr::Drw(x, y, n), None, timer, rnd)->Ok_0.0;
            &&& s1.cpu.v[VF as int] == 0
            &&& run_instr(s1, Instr::Drw(x, y, n), None, timer, rnd) is Ok
            &&& s2.cpu.v[VF as int] == 1
            &&& s2.screen == blank()
        }),
{
    let rows = s.mem.subrange(s.cpu.i as int, s.cpu.i + n);
    let (vx, vy) = (s.cpu.v[x as int] as int, s.cpu.v[y as int] as int);
    redraw_collides(vx, vy, rows, px, py);
    redraw_restores(blank(), vx, vy, rows);
}

/// The delay timer, set to `v` and left alone, reads zero after `v` ticks and stays there.
pub proof fn timer_drains(v: u8, k: nat)
    requires
        k >= v,
    ensures
        timer_after(v, k) == 0,
    decreases k,
{
    if k > 0 {
        timer_drains(timer_step(v), (k - 1) as nat);
    }
}

} // verus!
