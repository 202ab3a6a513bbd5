use vstd::prelude::*;

use crate::error::Error;
use crate::instr::{decode, decode_spec, fields_ok, Instr};
use crate::keypad::Key;
use crate::memory::{fontaddr, Ram, MEM_SIZE, PROGRAM_START};
use crate::screen::{blank, collides, drawn, Screen};
use crate::timer::DelayTimer;

verus! {

/// Relies on rand::random: a value drawn from the thread-local generator; nothing is
/// promised of it.
pub assume_specification<T>[ rand::random::<T> ]() -> (r: T)
    where
        rand::distributions::Standard: rand::distributions::Distribution<T>,
;

/// Number of general-purpose registers.
pub const NUM_REGS: usize = 16;

/// Number of return addresses the stack holds.
pub const STACK_DEPTH: usize = 16;

/// Index of the flags register VF.
pub const VF: usize = 0xF;

/// What an instruction does to the program counter.
#[derive(Debug, Clone, Copy, PartialEq, Eq, Structural)]
pub enum Res {
    /// Advance by one instruction (2 bytes).
    Next,
    /// Advance by two instructions (4 bytes).
    Skip,
    /// Go to the given address.
    Jump(u16),
}

/// The registers, stack and pending key of the interpreter, as values.
pub struct CpuView {
    pub v: Seq<u8>,
    pub i: u16,
    pub stack: Seq<u16>,
    pub sp: u16,
    pub pc: u16,
    pub key: Option<Key>,
}

/// The whole machine as values: interpreter, memory and display.
pub struct State {
    pub cpu: CpuView,
    pub mem: Seq<u8>,
    pub screen: Seq<bool>,
}

pub open spec fn cpu_wf(c: CpuView) -> bool {
    &&& c.v.len() == NUM_REGS
    &&& c.stack.len() == STACK_DEPTH
    &&& c.sp <= STACK_DEPTH
    &&& forall|j: int| 0 <= j < STACK_DEPTH ==> #[trigger] c.stack[j] < MEM_SIZE - 1
}

pub open spec fn state_wf(s: State) -> bool {
    &&& cpu_wf(s.cpu)
    &&& s.mem.len() == MEM_SIZE
    &&& s.screen.len() == 2048
}

/// The program counter after an instruction at `pc` that yielded `res`.
pub open spec fn next_pc(pc: u16, res: Res) -> int {
    match res {
        Res::Next => pc + 2,
        Res::Skip => pc + 4,
        Res::Jump(a) => a as int,
    }
}

/// The fault that executing `ins` in `s` raises, if any.
pub open spec fn fault(s: State, ins: Instr) -> Option<Error> {
    let i = s.cpu.i as int;
    match ins {
        Instr::Ret => if s.cpu.sp == 0 {
            Some(Error::StackUnderflow)
        } else {
            None
        },
        Instr::Call(_) => if s.cpu.sp >= STACK_DEPTH {
            Some(Error::StackOverflow)
        } else {
            None
        },
        Instr::Drw(_, _, n) => if i + n > MEM_SIZE {
            Some(Error::Addressing(s.cpu.i))
        } else {
            None
        },
        Instr::LdB(_) => if i + 3 > MEM_SIZE {
            Some(Error::Addressing(s.cpu.i))
        } else {
            None
        },
        Instr::LdIVx(x) | Instr::LdVxI(x) => if i + x + 1 > MEM_SIZE {
            Some(Error::Addressing(s.cpu.i))
        } else {
            None
        },
        _ => None,
    }
}

/// `s` with register `x` set to `val`.
pub open spec fn set_reg(s: State, x: int, val: u8) -> State {
    State { cpu: CpuView { v: s.cpu.v.update(x, val), ..s.cpu }, ..s }
}

/// `s` with the flags register set to `flag`, then register `x` set to `val`.
pub open spec fn set_reg_flag(s: State, x: int, val: u8, flag: u8) -> State {
    State { cpu: CpuView { v: s.cpu.v.update(VF as int, flag).update(x, val), ..s.cpu }, ..s }
}

pub open spec fn set_i(s: State, i: u16) -> State {
    State { cpu: CpuView { i, ..s.cpu }, ..s }
}

pub open spec fn set_key(s: State, key: Option<Key>) -> State {
    State { cpu: CpuView { key, ..s.cpu }, ..s }
}

pub open spec fn set_pc(s: State, pc: u16) -> State {
    State { cpu: CpuView { pc, ..s.cpu }, ..s }
}

pub open spec fn skip_if(c: bool) -> Res {
    if c {
        Res::Skip
    } else {
        Res::Next
    }
}

/// What executing `ins` does in `s`, where no fault arises: the new state before the
/// program counter moves, how it moves, and the value written to the delay timer, if
/// any. `timer` is the delay timer's value and `rnd` the random byte drawn.
pub open spec fn effect(s: State, ins: Instr, timer: u8, rnd: u8) -> (State, Res, Option<u8>) {
    let v = s.cpu.v;
    let i = s.cpu.i as int;
    match ins {
        Instr::Cls => (State { screen: blank(), ..s }, Res::Next, None),
        Instr::Ret => (
            State { cpu: CpuView { sp: (s.cpu.sp - 1) as u16, ..s.cpu }, ..s },
            Res::Jump((s.cpu.stack[s.cpu.sp - 1] + 2) as u16),
            None,
        ),
        Instr::Sys(a) => (s, Res::Jump(a), None),
        Instr::Jp(a) => (s, Res::Jump(a), None),
        Instr::Call(a) => (
            State {
                cpu: CpuView {
                    stack: s.cpu.stack.update(s.cpu.sp as int, s.cpu.pc),
                    sp: (s.cpu.sp + 1) as u16,
                    ..s.cpu
                },
                ..s
            },
            Res::Jump(a),
            None,
        ),
        Instr::SeByte(x, kk) => (s, skip_if(v[x as int] == kk), None),
        Instr::SneByte(x, kk) => (s, skip_if(v[x as int] != kk), None),
        Instr::SeReg(x, y) => (s, skip_if(v[x as int] == v[y as int]), None),
        Instr::SneReg(x, y) => (s, skip_if(v[x as int] != v[y as int]), None),
        Instr::LdByte(x, kk) => (set_reg(s, x as int, kk), Res::Next, None),
        Instr::AddByte(x, kk) => (
            set_reg(s, x as int, ((v[x as int] + kk) % 256) as u8),
            Res::Next,
            None,
        ),
        Instr::LdReg(x, y) => (set_reg(s, x as int, v[y as int]), Res::Next, None),
        Instr::Or(x, y) => (set_reg(s, x as int, v[x as int] | v[y as int]), Res::Next, None),
        Instr::And(x, y) => (set_reg(s, x as int, v[x as int] & v[y as int]), Res::Next, None),
        Instr::Xor(x, y) => (set_reg(s, x as int, v[x as int] ^ v[y as int]), Res::Next, None),
        Instr::AddReg(x, y) => (
            set_reg_flag(
                s,
                x as int,
                ((v[x as int] + v[y as int]) % 256) as u8,
                if v[x as int] + v[y as int] > 255 { 1 } else { 0 },
            ),
            Res::Next,
            None,
        ),
        Instr::Sub(x, y) => (
            set_reg_flag(
                s,
                x as int,
                ((v[x as int] - v[y as int] + 256) % 256) as u8,
                if v[x as int] >= v[y as int] { 1 } else { 0 },
            ),
            Res::Next,
            None,
        ),
        Instr::Subn(x, y) => (
            set_reg_flag(
                s,
                x as int,
                ((v[y as int] - v[x as int] + 256) % 256) as u8,
                if v[y as int] >= v[x as int] { 1 } else { 0 },
            ),
            Res::Next,
            None,
        ),
        Instr::Shr(x, _) => (
            set_reg_flag(s, x as int, (v[x as int] / 2) as u8, (v[x as int] % 2) as u8),
            Res::Next,
            None,
        ),
        Instr::Shl(x, _) => (
            set_reg_flag(s, x as int, ((v[x as int] * 2) % 256) as u8, (v[x as int] / 128) as u8),
            Res::Next,
            None,
        ),
        Instr::LdI(a) => (set_i(s, a), Res::Next, None),
        Instr::JpV0(a) => (s, Res::Jump((a + v[0]) as u16), None),
        Instr::Rnd(x, kk) => (set_reg(s, x as int, rnd & kk), Res::Next, None),
        Instr::Drw(x, y, n) => {
            let rows = s.mem.subrange(i, i + n);
            let hit = collides(s.screen, v[x as int] as int, v[y as int] as int, rows);
            (
                State {
                    screen: drawn(s.screen, v[x as int] as int, v[y as int] as int, rows),
                    cpu: CpuView { v: v.update(VF as int, if hit { 1u8 } else { 0u8 }), ..s.cpu },
                    ..s
                },
                Res::Next,
                None,
            )
        },
        Instr::Skp(x) => match s.cpu.key {
            Some(k) => if k.0 == v[x as int] {
                (set_key(s, None), Res::Skip, None)
            } else {
                (s, Res::Next, None)
            },
            None => (s, Res::Next, None),
        },
        Instr::Sknp(x) => match s.cpu.key {
            Some(k) => if k.0 == v[x as int] {
                (set_key(s, None), Res::Next, None)
            } else {
                (s, Res::Skip, None)
            },
            None => (s, Res::Skip, None),
        },
        Instr::LdVxDt(x) => (set_reg(s, x as int, timer), Res::Next, None),
        Instr::LdVxK(x) => match s.cpu.key {
            Some(k) => (set_key(set_reg(s, x as int, k.0), None), Res::Next, None),
            None => (s, Res::Jump(s.cpu.pc), None),
        },
        Instr::LdDtVx(x) => (s, Res::Next, Some(v[x as int])),
        Instr::LdStVx(_) => (s, Res::Next, None),
        Instr::AddI(x) => (set_i(s, ((i + v[x as int]) % 0x10000) as u16), Res::Next, None),
        Instr::LdF(x) => (set_i(s, (v[x as int] * 5) as u16), Res::Next, None),
        Instr::LdB(x) => (
            State {
                mem: s.mem.update(i, v[x as int] / 100).update(i + 1, (v[x as int] / 10) % 10).update(
                    i + 2,
                    v[x as int] % 10,
                ),
                ..s
            },
            Res::Next,
            None,
        ),
        Instr::LdIVx(x) => (
            State {
                mem: Seq::new(
                    s.mem.len(),
                    |a: int|
                        if i <= a <= i + x {
                            v[a - i]
                        } else {
                            s.mem[a]
                        },
                ),
                ..s
            },
            Res::Next,
            None,
        ),
        Instr::LdVxI(x) => (
            State {
                cpu: CpuView {
                    v: Seq::new(
                        v.len(),
                        |j: int|
                            if j <= x {
                                s.mem[i + j]
                            } else {
                                v[j]
                            },
                    ),
                    ..s.cpu
                },
                ..s
            },
            Res::Next,
            None,
        ),
    }
}

/// The key the interpreter sees: a key just pressed, else the one still pending.
pub open spec fn pending(s: State, incoming: Option<Key>) -> Option<Key> {
    if incoming is Some {
        incoming
    } else {
        s.cpu.key
    }
}

/// Executing the instruction `ins` at the program counter of `s`, with `incoming` the
/// key press received since the last step: the fault, or the next state and the value
/// written to the delay timer.
pub open spec fn run_instr(s: State, ins: Instr, incoming: Option<Key>, timer: u8, rnd: u8) -> Result<
    (State, Option<u8>),
    Error,
> {
    match fault(s, ins) {
        Some(e) => Err(e),
        None => {
            let (s1, res, w) = effect(set_key(s, pending(s, incoming)), ins, timer, rnd);
            Ok((set_pc(s1, next_pc(s.cpu.pc, res) as u16), w))
        },
    }
}

/// One fetch-decode-execute cycle from `s`.
pub open spec fn step_spec(s: State, incoming: Option<Key>, timer: u8, rnd: u8) -> Result<
    (State, Option<u8>),
    Error,
> {
    let pc = s.cpu.pc as int;
    if pc + 1 >= MEM_SIZE {
        Err(Error::Addressing(s.cpu.pc))
    } else {
        match decode_spec(s.mem[pc], s.mem[pc + 1]) {
            None => Err(Error::UnknownOpcode((s.mem[pc] * 256 + s.mem[pc + 1]) as u16)),
            Some(ins) => run_instr(s, ins, incoming, timer, rnd),
        }
    }
}

/// Whether executing `ins` from `s` ends in `s2` with outcome `r`: on a fault nothing
/// changes.
pub open spec fn executed(
    s: State,
    ins: Instr,
    incoming: Option<Key>,
    timer: u8,
    rnd: u8,
    s2: State,
    r: Result<Option<u8>, Error>,
) -> bool {
    match run_instr(s, ins, incoming, timer, rnd) {
        Ok((s1, w)) => r == Ok::<Option<u8>, Error>(w) && s2 == s1,
        Err(e) => r == Err::<Option<u8>, Error>(e) && s2 == s,
    }
}

/// Whether fetching at `pc` from memory `mem` gives `r`.
pub open spec fn fetched(pc: u16, mem: Seq<u8>, r: Result<Instr, Error>) -> bool {
    if pc + 1 >= MEM_SIZE {
        r == Err::<Instr, Error>(Error::Addressing(pc))
    } else {
        match decode_spec(mem[pc as int], mem[pc + 1]) {
            None => r == Err::<Instr, Error>(
                Error::UnknownOpcode((mem[pc as int] * 256 + mem[pc + 1]) as u16),
            ),
            Some(ins) => r == Ok::<Instr, Error>(ins) && fields_ok(ins),
        }
    }
}

/// Whether one cycle from `s` ends in `s2` with outcome `r`: on a fault nothing changes.
pub open spec fn stepped(
    s: State,
    incoming: Option<Key>,
    timer: u8,
    rnd: u8,
    s2: State,
    r: Result<Option<u8>, Error>,
) -> bool {
    match step_spec(s, incoming, timer, rnd) {
        Ok((s1, w)) => r == Ok::<Option<u8>, Error>(w) && s2 == s1,
        Err(e) => r == Err::<Option<u8>, Error>(e) && s2 == s,
    }
}

/// Whether one cycle without key input, begun below the top of memory, may take `s`
/// to `s2` without a fault.
pub open spec fn ticked(s: State, s2: State) -> bool {
    &&& s.cpu.pc + 1 < MEM_SIZE
    &&& exists|timer: u8, rnd: u8| steps_to(s, None, timer, rnd, s2, Ok(()))
}

/// Whether a cycle without key input, begun below the top of memory in `s`, may fault
/// with `e` (leaving `s` as it was).
pub open spec fn faults(s: State, e: Error) -> bool {
    &&& s.cpu.pc + 1 < MEM_SIZE
    &&& exists|timer: u8, rnd: u8| steps_to(s, None, timer, rnd, s, Err(e))
}

/// Whether `k` cycles without key input, each begun below the top of memory and none
/// faulting, may take `s` to `s2`.
pub open spec fn runs(s: State, k: nat, s2: State) -> bool
    decreases k,
{
    if k == 0 {
        s2 == s
    } else {
        exists|s1: State| runs(s, (k - 1) as nat, s1) && #[trigger] ticked(s1, s2)
    }
}

/// Whether running from `s` with at most `budget` cycles may end in `s2` with outcome `r`:
/// `Ok(n)` after `n` good cycles, stopped early only at the top of memory; `Err(e)` when
/// the cycle after `k < budget` good ones faulted.
pub open spec fn ran(s: State, budget: nat, s2: State, r: Result<usize, Error>) -> bool {
    match r {
        Ok(n) => n <= budget && runs(s, n as nat, s2) && (n < budget ==> s2.cpu.pc + 1 >= MEM_SIZE),
        Err(e) => exists|k: nat| k < budget && runs(s, k, s2) && #[trigger] faults(s2, e),
    }
}

/// Whether a step from `s` may end in `s2` with outcome `r`, for some timer value and
/// random byte: on a fault nothing changes.
pub open spec fn steps_to(
    s: State,
    incoming: Option<Key>,
    timer: u8,
    rnd: u8,
    s2: State,
    r: Result<(), Error>,
) -> bool {
    match step_spec(s, incoming, timer, rnd) {
        Ok((s1, _)) => r is Ok && s2 == s1,
        Err(e) => r == Err::<(), Error>(e) && s2 == s,
    }
}


/// The interpreter: registers, stack, program counter, delay timer and pending key.
pub struct Cpu {
    /// General-purpose registers V0 to VF.
    v: Vec<u8>,
    /// Index register.
    i: u16,
    /// Return addresses.
    stack: Vec<u16>,
    /// Number of return addresses on the stack.
    sp: u16,
    /// Program counter.
    pub pc: u16,
    /// Delay timer.
    pub dt: DelayTimer,
    /// Key pressed and not yet consumed.
    key: Option<Key>,
}

impl View for Cpu {
    type V = CpuView;

    closed spec fn view(&self) -> CpuView {
        CpuView {
            v: self.v@,
            i: self.i,
            stack: self.stack@,
            sp: self.sp,
            pc: self.pc,
            key: self.key,
        }
    }
}

/// The machine state made of an interpreter, a memory and a display.
pub open spec fn state_of(cpu: &Cpu, ram: &Ram, screen: &Screen) -> State {
    State { cpu: cpu@, mem: ram@, screen: screen@ }
}

pub open spec fn machine_wf(cpu: &Cpu, ram: &Ram, screen: &Screen) -> bool {
    state_wf(state_of(cpu, ram, screen))
}

impl Cpu {
    pub open spec fn wf(&self) -> bool {
        cpu_wf(self@)
    }

    /// An interpreter with every register zero, an empty stack, no pending key and the
    /// program counter at the start of the program region.
    pub fn new() -> (r: Cpu)
        ensures
            r.wf(),
            r@.v == Seq::new(16, |j: int| 0u8),
            r@.stack == Seq::new(16, |j: int| 0u16),
            r@.i == 0,
            r@.sp == 0,
            r@.pc == PROGRAM_START,
            r@.key is None,
    {
        let mut v: Vec<u8> = Vec::new();
        let mut stack: Vec<u16> = Vec::new();
        let mut n: usize = 0;
        while n < 16
            invariant
                n <= 16,
                v@.len() == n,
                stack@.len() == n,
                forall|j: int| 0 <= j < n ==> v@[j] == 0 && stack@[j] == 0,
            decreases 16 - n,
        {
            v.push(0);
            stack.push(0);
            n = n + 1;
        }
        assert(v@ =~= Seq::new(16, |j: int| 0u8));
        assert(stack@ =~= Seq::new(16, |j: int| 0u16));
        Cpu { v, i: 0, stack, sp: 0, pc: PROGRAM_START as u16, dt: DelayTimer::new(), key: None }
    }

    /// Register `x`.
    pub fn reg(&self, x: u8) -> (r: u8)
        requires
            self.wf(),
            x < 16,
        ensures
            r == self@.v[x as int],
    {
        self.v[x as usize]
    }

    /// The index register.
    pub fn index(&self) -> (r: u16)
        ensures
            r == self@.i,
    {
        self.i
    }

    /// The stack pointer: how many return addresses the stack holds.
    pub fn sp(&self) -> (r: u16)
        ensures
            r == self@.sp,
    {
        self.sp
    }

    /// The key pressed and not yet consumed.
    pub fn key(&self) -> (r: Option<Key>)
        ensures
            r == self@.key,
    {
        self.key
    }

    /// Executes a control-flow, skip or immediate instruction.
    fn exec_flow(&mut self, ram: &Ram, screen: &Screen, ins: Instr, timer: u8, rnd: u8) -> (r: Res)
        requires
            machine_wf(old(self), ram, screen),
            old(self)@.pc + 1 < MEM_SIZE,
            fields_ok(ins),
            ins is Ret || ins is Sys || ins is Jp || ins is Call || ins is SeByte || ins is SneByte
                || ins is SeReg || ins is SneReg || ins is LdI || ins is JpV0,
            ins is Ret ==> old(self)@.sp > 0,
            ins is Call ==> old(self)@.sp < STACK_DEPTH,
        ensures
            machine_wf(final(self), ram, screen),
            final(self).dt == old(self).dt,
            effect(state_of(old(self), ram, screen), ins, timer, rnd) == (state_of(final(self), ram, screen), r, None::<u8>),
    {
        match ins {
            Instr::Ret => {
                let sp = self.sp - 1;
                let back = self.stack[sp as usize];
                self.sp = sp;
                Res::Jump(back + 2)
            },
            Instr::Sys(a) => Res::Jump(a),
            Instr::Jp(a) => Res::Jump(a),
            Instr::Call(a) => {
                let sp = self.sp;
                self.stack.set(sp as usize, self.pc);
                self.sp = sp + 1;
                Res::Jump(a)
            },
            Instr::SeByte(x, kk) => if self.v[x as usize] == kk {
                Res::Skip
            } else {
                Res::Next
            },
            Instr::SneByte(x, kk) => if self.v[x as usize] != kk {
                Res::Skip
            } else {
                Res::Next
            },
            Instr::SeReg(x, y) => if self.v[x as usize] == self.v[y as usize] {
                Res::Skip
            } else {
                Res::Next
            },
            Instr::SneReg(x, y) => if self.v[x as usize] != self.v[y as usize] {
                Res::Skip
            } else {
                Res::Next
            },
            Instr::LdI(a) => {
                self.i = a;
                Res::Next
            },
            Instr::JpV0(a) => Res::Jump(a + self.v[0] as u16),
            _ => Res::Next,
        }
    }

    /// Executes an instruction that only writes a register or the index register.
    fn exec_reg(&mut self, ram: &Ram, screen: &Screen, ins: Instr, timer: u8, rnd: u8)
        requires
            machine_wf(old(self), ram, screen),
            fields_ok(ins),
            ins is LdByte || ins is AddByte || ins is LdReg || ins is Or || ins is And || ins is Xor
                || ins is AddReg || ins is Sub || ins is Subn || ins is Shr || ins is Shl
                || ins is Rnd || ins is LdVxDt || ins is AddI || ins is LdF,
        ensures
            machine_wf(final(self), ram, screen),
            final(self).dt == old(self).dt,
            effect(state_of(old(self), ram, screen), ins, timer, rnd) == (state_of(final(self), ram, screen), Res::Next, None::<u8>),
    {
        match ins {
            Instr::LdByte(x, kk) => {
                self.v.set(x as usize, kk);
            },
            Instr::AddByte(x, kk) => {
                let vx = self.v[x as usize];
                self.v.set(x as usize, ((vx as u16 + kk as u16) % 256) as u8);
            },
            Instr::LdReg(x, y) => {
                let vy = self.v[y as usize];
                self.v.set(x as usize, vy);
            },
            Instr::Or(x, y) => {
                let r = self.v[x as usize] | self.v[y as usize];
                self.v.set(x as usize, r);
            },
            Instr::And(x, y) => {
                let r = self.v[x as usize] & self.v[y as usize];
                self.v.set(x as usize, r);
            },
            Instr::Xor(x, y) => {
                let r = self.v[x as usize] ^ self.v[y as usize];
                self.v.set(x as usize, r);
            },
            Instr::AddReg(x, y) => {
                let sum = self.v[x as usize] as u16 + self.v[y as usize] as u16;
                self.v.set(VF, if sum > 0xff { 1 } else { 0 });
                self.v.set(x as usize, (sum % 256) as u8);
            },
            Instr::Sub(x, y) => {
                let vx = self.v[x as usize];
                let vy = self.v[y as usize];
                self.v.set(VF, if vx >= vy { 1 } else { 0 });
                self.v.set(x as usize, ((vx as u16 + 256 - vy as u16) % 256) as u8);
            },
            Instr::Subn(x, y) => {
                let vx = self.v[x as usize];
                let vy = self.v[y as usize];
                self.v.set(VF, if vy >= vx { 1 } else { 0 });
                self.v.set(x as usize, ((vy as u16 + 256 - vx as u16) % 256) as u8);
            },
            Instr::Shr(x, _) => {
                let vx = self.v[x as usize];
                self.v.set(VF, vx % 2);
                self.v.set(x as usize, vx / 2);
            },
            Instr::Shl(x, _) => {
                let vx = self.v[x as usize];
                self.v.set(VF, vx / 128);
                self.v.set(x as usize, ((vx as u16 * 2) % 256) as u8);
            },
            Instr::Rnd(x, kk) => {
                self.v.set(x as usize, rnd & kk);
            },
            Instr::LdVxDt(x) => {
                self.v.set(x as usize, timer);
            },
            Instr::AddI(x) => {
                let vx = self.v[x as usize];
                self.i = ((self.i as u32 + vx as u32) % 0x10000) as u16;
            },
            Instr::LdF(x) => {
                let vx = self.v[x as usize];
                self.i = fontaddr(vx);
            },
            _ => {},
        }
    }

    /// Executes an instruction that touches memory or the display.
    fn exec_mem(&mut self, ram: &mut Ram, screen: &mut Screen, ins: Instr, timer: u8, rnd: u8)
        requires
            machine_wf(old(self), old(ram), old(screen)),
            fields_ok(ins),
            ins is Cls || ins is Drw || ins is LdB || ins is LdIVx || ins is LdVxI,
            fault(state_of(old(self), old(ram), old(screen)), ins) is None,
        ensures
            machine_wf(final(self), final(ram), final(screen)),
            final(self).dt == old(self).dt,
            effect(state_of(old(self), old(ram), old(screen)), ins, timer, rnd) == (state_of(final(self), final(ram), final(screen)), Res::Next, None::<u8>),
    {
        let i = self.i as usize;
        match ins {
            Instr::Cls => {
                screen.clear();
            },
            Instr::Drw(x, y, n) => {
                let rows = ram.read_block(i, n as usize);
                let hit = screen.draw(self.v[x as usize], self.v[y as usize], &rows);
                self.v.set(VF, hit);
            },
            Instr::LdB(x) => {
                let vx = self.v[x as usize];
                ram.write(i, vx / 100);
                ram.write(i + 1, (vx / 10) % 10);
                ram.write(i + 2, vx % 10);
            },
            Instr::LdIVx(x) => {
                let ghost m0 = ram@;
                let mut n: usize = 0;
                while n <= x as usize
                    invariant
                        self.wf(),
                        ram.wf(),
                        x < 16,
                        i + x + 1 <= MEM_SIZE,
                        n <= x + 1,
                        m0.len() == MEM_SIZE,
                        forall|a: int|
                            0 <= a < MEM_SIZE ==> #[trigger] ram@[a] == if i <= a < i + n {
                                self@.v[a - i]
                            } else {
                                m0[a]
                            },
                    decreases x + 1 - n,
                {
                    ram.write(i + n, self.v[n]);
                    n = n + 1;
                }
                let ghost target = effect(state_of(old(self), old(ram), old(screen)), ins, timer, rnd).0.mem;
                assert(ram@ =~= target);
            },
            Instr::LdVxI(x) => {
                let ghost v0 = self@.v;
                let mut n: usize = 0;
                while n <= x as usize
                    invariant
                        self.wf(),
                        ram.wf(),
                        self@.i == i,
                        self@.sp == old(self)@.sp,
                        self@.stack == old(self)@.stack,
                        self@.pc == old(self)@.pc,
                        self@.key == old(self)@.key,
                        self.dt == old(self).dt,
                        ram@ == old(ram)@,
                        x < 16,
                        i + x + 1 <= MEM_SIZE,
                        n <= x + 1,
                        v0.len() == 16,
                        forall|j: int|
                            0 <= j < 16 ==> #[trigger] self@.v[j] == if j < n {
                                ram@[i + j]
                            } else {
                                v0[j]
                            },
                    decreases x + 1 - n,
                {
                    let b = ram.read(i + n);
                    self.v.set(n, b);
                    n = n + 1;
                }
                let ghost target = effect(state_of(old(self), old(ram), old(screen)), ins, timer, rnd).0.cpu.v;
                assert(self@.v =~= target);
            },
            _ => {},
        }
    }

    /// The fault that `ins` would raise, checked before anything changes.
    fn check(&self, ins: Instr) -> (r: Option<Error>)
        requires
            self.wf(),
            fields_ok(ins),
        ensures
            r == fault(State { cpu: self@, mem: Seq::empty(), screen: Seq::empty() }, ins),
    {
        let i = self.i as usize;
        match ins {
            Instr::Ret => if self.sp == 0 {
                Some(Error::StackUnderflow)
            } else {
                None
            },
            Instr::Call(_) => if self.sp as usize >= STACK_DEPTH {
                Some(Error::StackOverflow)
            } else {
                None
            },
            Instr::Drw(_, _, n) => if i + n as usize > MEM_SIZE {
                Some(Error::Addressing(self.i))
            } else {
                None
            },
            Instr::LdB(_) => if i + 3 > MEM_SIZE {
                Some(Error::Addressing(self.i))
            } else {
                None
            },
            Instr::LdIVx(x) => if i + x as usize + 1 > MEM_SIZE {
                Some(Error::Addressing(self.i))
            } else {
                None
            },
            Instr::LdVxI(x) => if i + x as usize + 1 > MEM_SIZE {
                Some(Error::Addressing(self.i))
            } else {
                None
            },
            _ => None,
        }
    }

    /// Executes the instruction `ins`, which stands at the program counter. `incoming` is
    /// the key pressed since the last cycle, if any, `timer` the value of the delay
    /// timer and `rnd` a random byte. On success returns the value to write to the delay
    /// timer, if the instruction writes it; on a fault nothing changes.
    pub fn execute(
        &mut self,
        ram: &mut Ram,
        screen: &mut Screen,
        ins: Instr,
        incoming: Option<Key>,
        timer: u8,
        rnd: u8,
    ) -> (r: Result<Option<u8>, Error>)
        requires
            machine_wf(old(self), old(ram), old(screen)),
            old(self)@.pc + 1 < MEM_SIZE,
            fields_ok(ins),
        ensures
            machine_wf(final(self), final(ram), final(screen)),
            executed(
                state_of(old(self), old(ram), old(screen)),
                ins,
                incoming,
                timer,
                rnd,
                state_of(final(self), final(ram), final(screen)),
                r,
            ),
    {
        let ghost s0 = state_of(self, ram, screen);
        if let Some(e) = self.check(ins) {
            return Err(e);
        }
        assert(fault(s0, ins) == fault(State { cpu: s0.cpu, mem: Seq::empty(), screen: Seq::empty() }, ins));
        if incoming.is_some() {
            self.key = incoming;
        }
        let ghost s1 = state_of(self, ram, screen);
        assert(s1 == set_key(s0, pending(s0, incoming)));
        let pc = self.pc;
        let (res, write) = self.dispatch(ram, screen, ins, timer, rnd);
        self.advance(pc, res);
        Ok(write)
    }

    /// Executes `ins` in full but for the move of the program counter.
    fn dispatch(&mut self, ram: &mut Ram, screen: &mut Screen, ins: Instr, timer: u8, rnd: u8) -> (r: (Res, Option<u8>))
        requires
            machine_wf(old(self), old(ram), old(screen)),
            old(self)@.pc + 1 < MEM_SIZE,
            fields_ok(ins),
            fault(state_of(old(self), old(ram), old(screen)), ins) is None,
        ensures
            machine_wf(final(self), final(ram), final(screen)),
            final(self)@.pc == old(self)@.pc,
            effect(state_of(old(self), old(ram), old(screen)), ins, timer, rnd) == (state_of(final(self), final(ram), final(screen)), r.0, r.1),
            (r.0 matches Res::Jump(a) ==> a <= 0x10FF),
    {
        match ins {
            Instr::Cls | Instr::Drw(..) | Instr::LdB(_) | Instr::LdIVx(_) | Instr::LdVxI(_) => {
                self.exec_mem(ram, screen, ins, timer, rnd);
                (Res::Next, None)
            },
            Instr::Skp(_) | Instr::Sknp(_) | Instr::LdVxK(_) | Instr::LdDtVx(_) | Instr::LdStVx(_) => {
                self.exec_key(ram, screen, ins, timer, rnd)
            },
            Instr::LdByte(..) | Instr::AddByte(..) | Instr::LdReg(..) | Instr::Or(..) | Instr::And(..)
            | Instr::Xor(..) | Instr::AddReg(..) | Instr::Sub(..) | Instr::Subn(..) | Instr::Shr(..)
            | Instr::Shl(..) | Instr::Rnd(..) | Instr::LdVxDt(_) | Instr::AddI(_) | Instr::LdF(_) => {
                self.exec_reg(ram, screen, ins, timer, rnd);
                (Res::Next, None)
            },
            _ => (self.exec_flow(ram, screen, ins, timer, rnd), None),
        }
    }

    /// Reads and decodes the instruction at the program counter.
    pub fn fetch(&self, ram: &Ram) -> (r: Result<Instr, Error>)
        requires
            self.wf(),
            ram.wf(),
        ensures
            fetched(self@.pc, ram@, r),
    {
        let pc = self.pc as usize;
        if pc + 1 >= MEM_SIZE {
            return Err(Error::Addressing(self.pc));
        }
        let hi = ram.read(pc);
        let lo = ram.read(pc + 1);
        match decode(hi, lo) {
            Some(ins) => Ok(ins),
            None => Err(Error::UnknownOpcode(hi as u16 * 256 + lo as u16)),
        }
    }

    /// One fetch-decode-execute cycle, given the key pressed since the last cycle, the
    /// value of the delay timer and a random byte. Returns the value to write to the
    /// delay timer, if the instruction writes it; on a fault nothing changes.
    pub fn cycle_with(
        &mut self,
        ram: &mut Ram,
        screen: &mut Screen,
        incoming: Option<Key>,
        timer: u8,
        rnd: u8,
    ) -> (r: Result<Option<u8>, Error>)
        requires
            machine_wf(old(self), old(ram), old(screen)),
        ensures
            machine_wf(final(self), final(ram), final(screen)),
            stepped(
                state_of(old(self), old(ram), old(screen)),
                incoming,
                timer,
                rnd,
                state_of(final(self), final(ram), final(screen)),
                r,
            ),
    {
        match self.fetch(ram) {
            Err(e) => Err(e),
            Ok(ins) => self.execute(ram, screen, ins, incoming, timer, rnd),
        }
    }

    /// One fetch-decode-execute cycle. The delay timer is read for `Fx07` and written for
    /// `Fx15`; a random byte is drawn for `Cxkk`. `incoming` is the key pressed since the
    /// last cycle, if any. On a fault nothing changes.
    pub fn tick(&mut self, ram: &mut Ram, screen: &mut Screen, incoming: Option<Key>) -> (r: Result<(), Error>)
        requires
            machine_wf(old(self), old(ram), old(screen)),
        ensures
            machine_wf(final(self), final(ram), final(screen)),
            exists|timer: u8, rnd: u8|
                steps_to(
                    state_of(old(self), old(ram), old(screen)),
                    incoming,
                    timer,
                    rnd,
                    state_of(final(self), final(ram), final(screen)),
                    r,
                ),
    {
        let ins = match self.fetch(ram) {
            Err(e) => {
                assert(steps_to(state_of(self, ram, screen), incoming, 0, 0, state_of(self, ram, screen), Err(e)));
                return Err(e);
            },
            Ok(ins) => ins,
        };
        let timer: u8 = match ins {
            Instr::LdVxDt(_) => self.dt.get(),
            _ => 0,
        };
        let rnd: u8 = match ins {
            Instr::Rnd(..) => rand::random::<u8>(),
            _ => 0,
        };
        let ghost s0 = state_of(self, ram, screen);
        match self.execute(ram, screen, ins, incoming, timer, rnd) {
            Ok(w) => {
                if let Some(val) = w {
                    self.dt.set(val);
                }
                assert(steps_to(s0, incoming, timer, rnd, state_of(self, ram, screen), Ok(())));
                Ok(())
            },
            Err(e) => {
                assert(steps_to(s0, incoming, timer, rnd, state_of(self, ram, screen), Err(e)));
                Err(e)
            },
        }
    }

    /// Runs cycles, with no key input, until the program counter reaches the top of
    /// memory, a fault arises or `budget` cycles have run. Returns how many ran; on a
    /// fault, the state is the one in which the faulting cycle began.
    pub fn run(&mut self, ram: &mut Ram, screen: &mut Screen, budget: usize) -> (r: Result<usize, Error>)
        requires
            machine_wf(old(self), old(ram), old(screen)),
        ensures
            machine_wf(final(self), final(ram), final(screen)),
            ran(
                state_of(old(self), old(ram), old(screen)),
                budget as nat,
                state_of(final(self), final(ram), final(screen)),
                r,
            ),
    {
        let ghost s0 = state_of(self, ram, screen);
        let mut n: usize = 0;
        while n < budget
            invariant
                machine_wf(self, ram, screen),
                n <= budget,
                s0 == state_of(old(self), old(ram), old(screen)),
                runs(s0, n as nat, state_of(self, ram, screen)),
            decreases budget - n,
        {
            if self.pc as usize + 1 >= MEM_SIZE {
                return Ok(n);
            }
            let ghost before = state_of(self, ram, screen);
            let r = self.tick(ram, screen, None);
            let ghost after = state_of(self, ram, screen);
            assert(exists|timer: u8, rnd: u8| steps_to(before, None, timer, rnd, after, r));
            match r {
                Ok(()) => {
                    let ghost (t, n8) = choose|timer: u8, rnd: u8| steps_to(before, None, timer, rnd, after, r);
                    assert(steps_to(before, None, t, n8, after, Ok(())));
                    assert(ticked(before, after));
                    assert(runs(s0, (n + 1) as nat, state_of(self, ram, screen)));
                },
                Err(e) => {
                    let ghost (t, n8) = choose|timer: u8, rnd: u8| steps_to(before, None, timer, rnd, after, r);
                    assert(steps_to(after, None, t, n8, after, Err(e)));
                    assert(faults(after, e));
                    return Err(e);
                },
            }
            n = n + 1;
        }
        Ok(n)
    }

    /// Moves the program counter of the instruction at `pc` on by its outcome `res`: the
    /// one place where control flow takes effect.
    fn advance(&mut self, pc: u16, res: Res)
        requires
            pc + 1 < MEM_SIZE,
            (res matches Res::Jump(a) ==> a <= 0x10FF),
        ensures
            final(self)@ == (CpuView { pc: next_pc(pc, res) as u16, ..old(self)@ }),
            final(self).dt == old(self).dt,
    {
        self.pc = match res {
            Res::Next => pc + 2,
            Res::Skip => pc + 4,
            Res::Jump(a) => a,
        };
    }

    /// Executes an instruction that reads the pending key.
    fn exec_key(&mut self, ram: &Ram, screen: &Screen, ins: Instr, timer: u8, rnd: u8) -> (r: (Res, Option<u8>))
        requires
            machine_wf(old(self), ram, screen),
            fields_ok(ins),
            ins is Skp || ins is Sknp || ins is LdVxK || ins is LdDtVx || ins is LdStVx,
        ensures
            machine_wf(final(self), ram, screen),
            final(self).dt == old(self).dt,
            effect(state_of(old(self), ram, screen), ins, timer, rnd) == (state_of(final(self), ram, screen), r.0, r.1),
    {
        match ins {
            Instr::Skp(x) => match self.key {
                Some(k) => if k.0 == self.v[x as usize] {
                    self.key = None;
                    (Res::Skip, None)
                } else {
                    (Res::Next, None)
                },
                None => (Res::Next, None),
            },
            Instr::Sknp(x) => match self.key {
                Some(k) => if k.0 == self.v[x as usize] {
                    self.key = None;
                    (Res::Next, None)
                } else {
                    (Res::Skip, None)
                },
                None => (Res::Skip, None),
            },
            Instr::LdVxK(x) => match self.key {
                Some(k) => {
                    self.v.set(x as usize, k.0);
                    self.key = None;
                    (Res::Next, None)
                },
                None => (Res::Jump(self.pc), None),
            },
            Instr::LdDtVx(x) => (Res::Next, Some(self.v[x as usize])),
            _ => (Res::Next, None),
        }
    }
}

} // verus!
