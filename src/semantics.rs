//! What one cycle of the machine does, stated over [`MachineState`].
use vstd::prelude::*;

use crate::cpu::{blank_display, Fault, MachineState, DISP_X, DISP_Y, MEM_SIZE, STACK_DEPTH, TIMER_DIVISOR};
use crate::instruction::{decode_spec, Instruction};

verus! {

impl MachineState {
    /// Every part has its fixed size and the stack pointer is within the stack.
    pub open spec fn wf(self) -> bool {
        &&& self.memory.len() == MEM_SIZE
        &&& self.v.len() == 16
        &&& self.stack.len() == 16
        &&& self.keyboard.len() == 16
        &&& self.display.len() == DISP_Y
        &&& forall|r: int| 0 <= r < DISP_Y ==> (#[trigger] self.display[r]).len() == DISP_X
        &&& self.sp <= STACK_DEPTH
    }
}

/// A completed instruction.
pub open spec fn done(s: MachineState) -> (MachineState, Result<(), Fault>) {
    (s, Ok(()))
}

/// The state with `Vx` set to `val`.
pub open spec fn set_v(s: MachineState, x: u8, val: u8) -> MachineState {
    MachineState { v: s.v.update(x as int, val), ..s }
}

/// The state with the flag register `VF` set to `val`.
pub open spec fn set_vf(s: MachineState, val: u8) -> MachineState {
    set_v(s, 15, val)
}

/// The state with the next instruction skipped when `cond` holds.
pub open spec fn skip_if(s: MachineState, cond: bool) -> MachineState {
    if cond {
        MachineState { pc: (s.pc + 2) as u16, ..s }
    } else {
        s
    }
}

/// The tick counter advanced by one cycle; every ninth cycle each nonzero
/// timer goes down by one.
pub open spec fn tick_spec(s: MachineState) -> MachineState {
    let t = ((s.ticks + 1) % 0x1_0000_0000) as u32;
    if t % TIMER_DIVISOR == 0 {
        MachineState {
            ticks: t,
            dt: if s.dt > 0 { (s.dt - 1) as u8 } else { 0 },
            st: if s.st > 0 { (s.st - 1) as u8 } else { 0 },
            ..s
        }
    } else {
        MachineState { ticks: t, ..s }
    }
}

/// How many steps past `base` the cell `cell` lies on an axis of `m` cells
/// that wraps around.
pub open spec fn wrap_offset(cell: int, base: int, m: int) -> int {
    (cell - base) % m
}

/// Column `k` (0 is leftmost) of a sprite row byte is set.
pub open spec fn sprite_bit(row: u8, k: u8) -> bool {
    (row >> ((7 - k) as u8)) & 1 == 1
}

/// The sprite pixel that a draw of `n` rows from `mem[i..]` at `(x0, y0)`
/// lays over screen cell `(r, c)`, the sprite wrapping around both edges.
pub open spec fn sprite_pixel(mem: Seq<u8>, i: u16, x0: int, y0: int, n: u8, r: int, c: int) -> bool {
    let dy = wrap_offset(r, y0, DISP_Y as int);
    let dx = wrap_offset(c, x0, DISP_X as int);
    dy < n && dx < 8 && sprite_bit(mem[i + dy], dx as u8)
}

/// Sprite row `dy`, column `dx` is set and lands on a lit screen cell.
pub open spec fn hit(s: MachineState, x0: int, y0: int, dy: int, dx: int) -> bool {
    sprite_bit(s.memory[s.i + dy], dx as u8)
        && s.display[(y0 + dy) % (DISP_Y as int)][(x0 + dx) % (DISP_X as int)]
}

/// Some set pixel of the sprite lands on a lit cell.
pub open spec fn collides(s: MachineState, x0: int, y0: int, n: u8) -> bool {
    exists|dy: int, dx: int| 0 <= dy < n && 0 <= dx < 8 && #[trigger] hit(s, x0, y0, dy, dx)
}

/// `Dxyn`: XOR the sprite onto the screen; `VF` tells whether a lit pixel
/// went dark. Fails, changing nothing, when the sprite has rows and they
/// run past memory.
pub open spec fn draw_spec(s: MachineState, x: u8, y: u8, n: u8) -> (MachineState, Result<(), Fault>) {
    if n > 0 && s.i + n > MEM_SIZE {
        (s, Err(Fault::OutOfBounds))
    } else {
        let x0 = s.v[x as int] as int % DISP_X as int;
        let y0 = s.v[y as int] as int % DISP_Y as int;
        done(MachineState {
            display: Seq::new(DISP_Y as nat, |r: int| Seq::new(DISP_X as nat, |c: int|
                s.display[r][c] != sprite_pixel(s.memory, s.i, x0, y0, n, r, c))),
            v: s.v.update(15, if collides(s, x0, y0, n) { 1u8 } else { 0u8 }),
            redraw: true,
            ..s
        })
    }
}

/// Key `k` is the lowest-numbered key that is pressed.
pub open spec fn is_first_pressed(keyboard: Seq<bool>, k: int) -> bool {
    0 <= k < 16 && keyboard[k] && forall|j: int| 0 <= j < k ==> !#[trigger] keyboard[j]
}

/// Some key is pressed.
pub open spec fn any_pressed(keyboard: Seq<bool>) -> bool {
    exists|k: int| 0 <= k < 16 && #[trigger] keyboard[k]
}

/// The lowest-numbered pressed key.
pub open spec fn first_pressed(keyboard: Seq<bool>) -> int {
    choose|k: int| is_first_pressed(keyboard, k)
}

/// Memory with `V0..=Vx` stored from address `I`.
pub open spec fn stored_regs(s: MachineState, x: u8) -> Seq<u8> {
    Seq::new(MEM_SIZE as nat, |a: int|
        if s.i <= a <= s.i + x { s.v[a - s.i] } else { s.memory[a] })
}

/// Registers with `V0..=Vx` loaded from address `I`.
pub open spec fn loaded_regs(s: MachineState, x: u8) -> Seq<u8> {
    Seq::new(16, |r: int| if r <= x { s.memory[s.i + r] } else { s.v[r] })
}

/// The effect of an instruction on a state whose `PC` already points past it.
/// The result state and the fault, if any; after a fault the state is left
/// as it was. `rnd` is the random byte that `Cxnn` masks.
pub open spec fn apply(s: MachineState, ins: Instruction, rnd: u8) -> (MachineState, Result<(), Fault>) {
    match ins {
        Instruction::Cls => done(MachineState { display: blank_display(), redraw: true, ..s }),
        Instruction::Ret => if s.sp == 0 {
            (s, Err(Fault::StackUnderflow))
        } else {
            done(MachineState { sp: (s.sp - 1) as u8, pc: s.stack[s.sp - 1], ..s })
        },
        Instruction::Jp { addr } => done(MachineState { pc: addr, ..s }),
        Instruction::Call { addr } => if s.sp >= STACK_DEPTH {
            (s, Err(Fault::StackOverflow))
        } else {
            done(MachineState {
                stack: s.stack.update(s.sp as int, s.pc),
                sp: (s.sp + 1) as u8,
                pc: addr,
                ..s
            })
        },
        Instruction::SeVx { x, nn } => done(skip_if(s, s.v[x as int] == nn)),
        Instruction::SneVx { x, nn } => done(skip_if(s, s.v[x as int] != nn)),
        Instruction::SeVxVy { x, y } => done(skip_if(s, s.v[x as int] == s.v[y as int])),
        Instruction::LdVx { x, nn } => done(set_v(s, x, nn)),
        Instruction::AddVx { x, nn } => done(set_v(s, x, ((s.v[x as int] + nn) % 256) as u8)),
        Instruction::LdVxVy { x, y } => done(set_v(s, x, s.v[y as int])),
        Instruction::OrVxVy { x, y } => done(set_vf(set_v(s, x, s.v[x as int] | s.v[y as int]), 0)),
        Instruction::AndVxVy { x, y } => done(set_vf(set_v(s, x, s.v[x as int] & s.v[y as int]), 0)),
        Instruction::XorVxVy { x, y } => done(set_vf(set_v(s, x, s.v[x as int] ^ s.v[y as int]), 0)),
        Instruction::AddVxVy { x, y } => {
            let sum = s.v[x as int] + s.v[y as int];
            done(set_vf(set_v(s, x, (sum % 256) as u8), if sum > 255 { 1 } else { 0 }))
        },
        Instruction::SubVxVy { x, y } => {
            let (a, b) = (s.v[x as int], s.v[y as int]);
            done(set_vf(set_v(s, x, ((a - b) % 256) as u8), if a >= b { 1 } else { 0 }))
        },
        Instruction::ShrVx { x } => {
            let a = s.v[x as int];
            done(set_vf(set_v(s, x, a / 2), a % 2))
        },
        Instruction::SubnVxVy { x, y } => {
            let (a, b) = (s.v[x as int], s.v[y as int]);
            done(set_vf(set_v(s, x, ((b - a) % 256) as u8), if b >= a { 1 } else { 0 }))
        },
        Instruction::ShlVx { x } => {
            let a = s.v[x as int];
            done(set_vf(set_v(s, x, ((a * 2) % 256) as u8), a / 128))
        },
        Instruction::SneVxVy { x, y } => done(skip_if(s, s.v[x as int] != s.v[y as int])),
        Instruction::LdI { addr } => done(MachineState { i: addr, ..s }),
        Instruction::JpV0 { addr } => done(MachineState { pc: (addr + s.v[0]) as u16, ..s }),
        Instruction::RndVx { x, nn } => done(set_v(s, x, rnd & nn)),
        Instruction::DrwVxVy { x, y, n } => draw_spec(s, x, y, n),
        Instruction::SkpVx { x } => {
            let k = s.v[x as int];
            done(skip_if(s, k < 16 && s.keyboard[k as int]))
        },
        Instruction::SknpVx { x } => {
            let k = s.v[x as int];
            done(skip_if(s, k < 16 && !s.keyboard[k as int]))
        },
        Instruction::LdVxDt { x } => done(set_v(s, x, s.dt)),
        Instruction::LdVxK { x } => if any_pressed(s.keyboard) {
            done(set_v(s, x, first_pressed(s.keyboard) as u8))
        } else {
            done(MachineState { pc: (s.pc - 2) as u16, ..s })
        },
        Instruction::LdDtVx { x } => done(MachineState { dt: s.v[x as int], ..s }),
        Instruction::LdStVx { x } => done(MachineState { st: s.v[x as int], ..s }),
        Instruction::AddIVx { x } => done(MachineState { i: ((s.i + s.v[x as int]) % 0x1_0000) as u16, ..s }),
        Instruction::LdFVx { x } => {
            let d = s.v[x as int];
            done(if d < 16 { MachineState { i: (d * 5) as u16, ..s } } else { s })
        },
        Instruction::LdBVx { x } => if s.i + 2 >= MEM_SIZE {
            (s, Err(Fault::OutOfBounds))
        } else {
            let d = s.v[x as int];
            done(MachineState {
                memory: s.memory.update(s.i as int, d / 100).update(s.i + 1, (d / 10) % 10).update(
                    s.i + 2,
                    d % 10,
                ),
                ..s
            })
        },
        Instruction::StoreRegs { x } => if s.i + x >= MEM_SIZE {
            (s, Err(Fault::OutOfBounds))
        } else {
            done(MachineState { memory: stored_regs(s, x), ..s })
        },
        Instruction::LoadRegs { x } => if s.i + x >= MEM_SIZE {
            (s, Err(Fault::OutOfBounds))
        } else {
            done(MachineState { v: loaded_regs(s, x), ..s })
        },
        Instruction::Nop => done(s),
    }
}

/// The state after the fetch and the tick of a cycle.
pub open spec fn fetched(s: MachineState) -> MachineState {
    tick_spec(MachineState { pc: (s.pc + 2) as u16, ..s })
}

/// One full cycle: fetch, tick, decode, execute. A fetch past the end of
/// memory fails and changes nothing.
pub open spec fn step_spec(s: MachineState, rnd: u8) -> (MachineState, Result<(), Fault>) {
    if !s.can_fetch() {
        (s, Err(Fault::OutOfBounds))
    } else {
        apply(fetched(s), decode_spec(s.word_at_pc()), rnd)
    }
}

} // verus!
