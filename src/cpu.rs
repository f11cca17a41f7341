use vstd::prelude::*;

use vstd::arithmetic::div_mod::{
    lemma_mod_add_multiples_vanish, lemma_mod_sub_multiples_vanish, lemma_small_mod,
};

use crate::instruction::Instruction;
use crate::random::{new_rng, random_byte};
use crate::semantics::{
    apply, draw_spec, hit, is_first_pressed, loaded_regs, sprite_bit, sprite_pixel, step_spec,
    stored_regs, tick_spec, wrap_offset,
};

verus! {

pub type Byte = u8;

pub type Word = u16;

/// Bytes of addressable memory.
pub const MEM_SIZE: usize = 4096;

/// Width of the screen in pixels.
pub const DISP_X: usize = 64;

/// Height of the screen in pixels.
pub const DISP_Y: usize = 32;

/// Address at which programs are loaded and execution starts.
pub const PROGRAM_START: Word = 0x200;

/// Number of stack slots.
pub const STACK_DEPTH: u8 = 16;

/// Cycles between two decrements of the delay and sound timers.
pub const TIMER_DIVISOR: u32 = 9;

/// Bytes per font glyph.
pub const GLYPH_SIZE: u16 = 5;

/// The hexadecimal digit glyphs `0`..`F`, five rows each.
pub const FONT: [Byte; 80] = [
    0xF0, 0x90, 0x90, 0x90, 0xF0,  // 0
    0x20, 0x60, 0x20, 0x20, 0x70,  // 1
    0xF0, 0x10, 0xF0, 0x80, 0xF0,  // 2
    0xF0, 0x10, 0xF0, 0x10, 0xF0,  // 3
    0x90, 0x90, 0xF0, 0x10, 0x10,  // 4
    0xF0, 0x80, 0xF0, 0x10, 0xF0,  // 5
    0xF0, 0x80, 0xF0, 0x90, 0xF0,  // 6
    0xF0, 0x10, 0x20, 0x40, 0x40,  // 7
    0xF0, 0x90, 0xF0, 0x90, 0xF0,  // 8
    0xF0, 0x90, 0xF0, 0x10, 0xF0,  // 9
    0xF0, 0x90, 0xF0, 0x90, 0x90,  // A
    0xE0, 0x90, 0xE0, 0x90, 0xE0,  // B
    0xF0, 0x80, 0x80, 0x80, 0xF0,  // C
    0xE0, 0x90, 0x90, 0x90, 0xE0,  // D
    0xF0, 0x80, 0xF0, 0x80, 0xF0,  // E
    0xF0, 0x80, 0xF0, 0x80, 0x80,  // F
];

/// A fatal condition that stops execution.
#[derive(Clone, Copy, Debug, PartialEq, Eq, Structural)]
pub enum Fault {
    /// `CALL` with all sixteen stack slots in use.
    StackOverflow,
    /// `RET` with an empty stack.
    StackUnderflow,
    /// A fetch or a memory access past the last address.
    OutOfBounds,
}

/// The machine state as mathematical values; the view of a [`CPU`].
#[verifier::ext_equal]
pub struct MachineState {
    pub memory: Seq<u8>,
    pub v: Seq<u8>,
    pub stack: Seq<u16>,
    pub display: Seq<Seq<bool>>,
    pub i: u16,
    pub pc: u16,
    pub sp: u8,
    pub dt: u8,
    pub st: u8,
    pub ticks: u32,
    pub redraw: bool,
    pub keyboard: Seq<bool>,
}

/// A screen with every pixel off.
pub open spec fn blank_display() -> Seq<Seq<bool>> {
    Seq::new(DISP_Y as nat, |_r: int| Seq::new(DISP_X as nat, |_c: int| false))
}

impl MachineState {
    /// The state right after `reset`-style initialisation of a fresh machine.
    pub open spec fn is_initial(self) -> bool {
        &&& self.memory =~= Seq::new(MEM_SIZE as nat, |_a: int| 0u8)
        &&& self.v =~= Seq::new(16, |_r: int| 0u8)
        &&& self.stack =~= Seq::new(16, |_r: int| 0u16)
        &&& self.display =~= blank_display()
        &&& self.i == 0 && self.pc == PROGRAM_START && self.sp == 0
        &&& self.dt == 0 && self.st == 0 && self.ticks == 0 && !self.redraw
        &&& self.keyboard =~= Seq::new(16, |_k: int| false)
    }

    /// Whether the two bytes at `pc` can be fetched.
    pub open spec fn can_fetch(self) -> bool {
        self.pc as int + 1 < MEM_SIZE as int
    }

    /// The big-endian word at `pc`.
    pub open spec fn word_at_pc(self) -> u16 {
        (self.memory[self.pc as int] as int * 256 + self.memory[self.pc as int + 1] as int) as u16
    }
}

/// A state after `reset`: `PC` at the program start, `SP`, `I`, the
/// registers and the timers zero, the screen blank; all else kept.
pub open spec fn reset_state(s: MachineState) -> MachineState {
    MachineState {
        pc: PROGRAM_START,
        sp: 0,
        i: 0,
        v: Seq::new(16, |_r: int| 0u8),
        dt: 0,
        st: 0,
        display: blank_display(),
        ..s
    }
}

/// The CHIP-8 machine: memory, registers, stack, timers, screen and keys.
pub struct CPU {
    pub memory: [Byte; 4096],
    pub v: [Byte; 16],
    pub stack: [Word; 16],
    pub display: [[bool; 64]; 32],
    pub i: Word,
    pub pc: Word,
    pub sp: Byte,
    pub dt: Byte,
    pub st: Byte,
    pub ticks: u32,
    pub redraw: bool,
    pub keyboard: [bool; 16],
    pub rng: rand::rngs::ThreadRng,
}

impl View for CPU {
    type V = MachineState;

    open spec fn view(&self) -> MachineState {
        MachineState {
            memory: self.memory@,
            v: self.v@,
            stack: self.stack@,
            display: self.display@.map_values(|row: [bool; 64]| row@),
            i: self.i,
            pc: self.pc,
            sp: self.sp,
            dt: self.dt,
            st: self.st,
            ticks: self.ticks,
            redraw: self.redraw,
            keyboard: self.keyboard@,
        }
    }
}

impl CPU {
    /// The stack pointer stays within the sixteen slots.
    pub open spec fn wf(&self) -> bool {
        self@.wf()
    }

    /// A machine with zeroed memory and registers, a blank screen, no key
    /// pressed and `PC` at the program start.
    pub fn default() -> (r: CPU)
        ensures
            r@.is_initial(),
            r.wf(),
    {
        let r = CPU {
            memory: [0; 4096],
            v: [0; 16],
            stack: [0; 16],
            display: [[false; 64]; 32],
            i: 0,
            pc: PROGRAM_START,
            sp: 0,
            dt: 0,
            st: 0,
            ticks: 0,
            redraw: false,
            keyboard: [false; 16],
            rng: new_rng(),
        };
        assert(r@.display =~~= blank_display());
        r
    }

    /// Puts `PC` at the program start, empties the stack, zeroes `I`, the
    /// registers and the timers, and blanks the screen. Memory, the stack
    /// slots, the keys and the tick counter are kept.
    pub fn reset(&mut self)
        ensures
            final(self)@ == reset_state(old(self)@),
            final(self).wf(),
    {
        self.pc = PROGRAM_START;
        self.sp = 0;
        self.i = 0;
        self.v = [0; 16];
        self.dt = 0;
        self.st = 0;
        self.reset_display();
        assert(self@.v =~= Seq::new(16, |_r: int| 0u8));
    }

    /// Reads the big-endian word at `PC` and advances `PC` by two; fails,
    /// leaving the machine as it was, when `PC + 1` is past the last address.
    pub fn fetch(&mut self) -> (r: Result<Word, Fault>)
        ensures
            old(self)@.can_fetch() ==> r == Ok::<Word, Fault>(old(self)@.word_at_pc())
                && final(self)@ == (MachineState { pc: (old(self).pc + 2) as u16, ..old(self)@ }),
            !old(self)@.can_fetch() ==> r == Err::<Word, Fault>(Fault::OutOfBounds)
                && final(self)@ == old(self)@,
    {
        if self.pc as usize + 1 >= MEM_SIZE {
            return Err(Fault::OutOfBounds);
        }
        let hi: Byte = self.memory[self.pc as usize];
        let lo: Byte = self.memory[self.pc as usize + 1];
        self.pc = self.pc + 2;
        Ok((hi as Word) * 256 + lo as Word)
    }

    /// Draws a uniformly random byte from the machine's generator.
    pub fn rand_byte(&mut self) -> (r: Byte)
        ensures
            final(self)@ == old(self)@,
    {
        random_byte(&mut self.rng)
    }

    /// Copies a program image into memory from the program start address;
    /// fails, changing nothing, when it does not fit.
    pub fn load_program(&mut self, rom: &[Byte]) -> (r: Result<(), Fault>)
        ensures
            rom@.len() <= MEM_SIZE - PROGRAM_START ==> r is Ok && final(self)@ == (MachineState {
                memory: old(self)@.memory.update_subrange_with(PROGRAM_START as int, rom@),
                ..old(self)@
            }),
            rom@.len() > MEM_SIZE - PROGRAM_START ==> r == Err::<(), Fault>(Fault::OutOfBounds)
                && final(self)@ == old(self)@,
    {
        let start: usize = PROGRAM_START as usize;
        if rom.len() > MEM_SIZE - start {
            return Err(Fault::OutOfBounds);
        }
        let mut k: usize = 0;
        while k < rom.len()
            invariant
                k <= rom@.len() <= MEM_SIZE - start,
                start == PROGRAM_START,
                self@ == (MachineState {
                    memory: old(self)@.memory.update_subrange_with(start as int, rom@.subrange(0, k as int)),
                    ..old(self)@
                }),
            decreases rom@.len() - k,
        {
            self.memory[start + k] = rom[k];
            k = k + 1;
            assert(self@.memory =~= old(self)@.memory.update_subrange_with(
                start as int,
                rom@.subrange(0, k as int),
            ));
        }
        assert(rom@.subrange(0, k as int) =~= rom@);
        Ok(())
    }

    /// Copies the font glyphs into memory from address 0.
    pub fn load_sprites(&mut self)
        ensures
            final(self)@ == (MachineState {
                memory: old(self)@.memory.update_subrange_with(0, FONT@),
                ..old(self)@
            }),
    {
        let mut k: usize = 0;
        while k < 80
            invariant
                k <= 80,
                self@ == (MachineState {
                    memory: old(self)@.memory.update_subrange_with(0, FONT@.subrange(0, k as int)),
                    ..old(self)@
                }),
            decreases 80 - k,
        {
            self.memory[k] = FONT[k];
            k = k + 1;
        }
    }

    /// Turns every pixel of the screen off.
    pub fn reset_display(&mut self)
        ensures
            final(self)@ == (MachineState { display: blank_display(), ..old(self)@ }),
    {
        self.display = [[false; 64]; 32];
        assert(self@.display =~~= blank_display());
    }

    /// Counts one cycle; every ninth cycle each nonzero timer goes down by one.
    fn tick(&mut self)
        ensures
            final(self)@ == tick_spec(old(self)@),
    {
        self.ticks = if self.ticks == u32::MAX { 0 } else { self.ticks + 1 };
        if self.ticks % TIMER_DIVISOR == 0 {
            if self.dt > 0 {
                self.dt = self.dt - 1;
            }
            if self.st > 0 {
                self.st = self.st - 1;
            }
        }
    }

    /// Executes one cycle: fetch, tick, decode and execute. A random byte is
    /// drawn for `Cxnn`; the outcome is that of [`CPU::execute_with`] for
    /// some byte.
    pub fn execute(&mut self) -> (r: Result<(), Fault>)
        requires
            old(self).wf(),
        ensures
            final(self).wf(),
            exists|rnd: u8| step_spec(old(self)@, rnd) == (final(self)@, r),
    {
        let rnd = self.rand_byte();
        self.execute_with(rnd)
    }

    /// Executes one cycle with `rnd` as the random byte of `Cxnn`.
    pub fn execute_with(&mut self, rnd: Byte) -> (r: Result<(), Fault>)
        requires
            old(self).wf(),
        ensures
            final(self).wf(),
            step_spec(old(self)@, rnd) == (final(self)@, r),
    {
        let w = match self.fetch() {
            Ok(w) => w,
            Err(e) => return Err(e),
        };
        self.tick();
        let ins = Instruction::decode(w);
        self.run(ins, rnd)
    }

    /// Executes a decoded instruction; `PC` already points past it.
    #[verifier::rlimit(50)]
    pub fn run(&mut self, ins: Instruction, rnd: Byte) -> (r: Result<(), Fault>)
        requires
            old(self).wf(),
            ins.wf(),
            2 <= old(self).pc <= MEM_SIZE,
        ensures
            final(self).wf(),
            apply(old(self)@, ins, rnd) == (final(self)@, r),
    {
        match ins {
            Instruction::Cls => {
                self.redraw = true;
                self.reset_display();
            },
            Instruction::Ret => {
                if self.sp == 0 {
                    return Err(Fault::StackUnderflow);
                }
                self.sp = self.sp - 1;
                self.pc = self.stack[self.sp as usize];
            },
            Instruction::Jp { addr } => {
                self.pc = addr;
            },
            Instruction::Call { addr } => {
                if self.sp >= STACK_DEPTH {
                    return Err(Fault::StackOverflow);
                }
                self.stack[self.sp as usize] = self.pc;
                self.sp = self.sp + 1;
                self.pc = addr;
            },
            Instruction::SeVx { x, nn } => {
                if self.v[x as usize] == nn {
                    self.pc = self.pc + 2;
                }
            },
            Instruction::SneVx { x, nn } => {
                if self.v[x as usize] != nn {
                    self.pc = self.pc + 2;
                }
            },
            Instruction::SeVxVy { x, y } => {
                if self.v[x as usize] == self.v[y as usize] {
                    self.pc = self.pc + 2;
                }
            },
            Instruction::LdVx { x, nn } => {
                self.v[x as usize] = nn;
            },
            Instruction::AddVx { x, nn } => {
                self.v[x as usize] = ((self.v[x as usize] as u16 + nn as u16) % 256) as u8;
            },
            Instruction::LdVxVy { x, y } => {
                self.v[x as usize] = self.v[y as usize];
            },
            Instruction::OrVxVy { x, y } => {
                self.v[x as usize] = self.v[x as usize] | self.v[y as usize];
                self.v[15] = 0;
            },
            Instruction::AndVxVy { x, y } => {
                self.v[x as usize] = self.v[x as usize] & self.v[y as usize];
                self.v[15] = 0;
            },
            Instruction::XorVxVy { x, y } => {
                self.v[x as usize] = self.v[x as usize] ^ self.v[y as usize];
                self.v[15] = 0;
            },
            Instruction::AddVxVy { x, y } => {
                let sum: u16 = self.v[x as usize] as u16 + self.v[y as usize] as u16;
                self.v[x as usize] = (sum % 256) as u8;
                self.v[15] = if sum > 255 { 1 } else { 0 };
            },
            Instruction::SubVxVy { x, y } => {
                let a: u8 = self.v[x as usize];
                let b: u8 = self.v[y as usize];
                self.v[x as usize] = ((a as u16 + 256 - b as u16) % 256) as u8;
                self.v[15] = if a >= b { 1 } else { 0 };
            },
            Instruction::ShrVx { x } => {
                let a: u8 = self.v[x as usize];
                self.v[x as usize] = a / 2;
                self.v[15] = a % 2;
            },
            Instruction::SubnVxVy { x, y } => {
                let a: u8 = self.v[x as usize];
                let b: u8 = self.v[y as usize];
                self.v[x as usize] = ((b as u16 + 256 - a as u16) % 256) as u8;
                self.v[15] = if b >= a { 1 } else { 0 };
            },
            Instruction::ShlVx { x } => {
                let a: u8 = self.v[x as usize];
                self.v[x as usize] = ((a as u16 * 2) % 256) as u8;
                self.v[15] = a / 128;
            },
            Instruction::SneVxVy { x, y } => {
                if self.v[x as usize] != self.v[y as usize] {
                    self.pc = self.pc + 2;
                }
            },
            Instruction::LdI { addr } => {
                self.i = addr;
            },
            Instruction::JpV0 { addr } => {
                self.pc = addr + self.v[0] as u16;
            },
            Instruction::RndVx { x, nn } => {
                self.v[x as usize] = rnd & nn;
            },
            Instruction::DrwVxVy { x, y, n } => {
                return self.draw(x, y, n);
            },
            Instruction::SkpVx { x } => {
                let k: u8 = self.v[x as usize];
                if k < 16 && self.keyboard[k as usize] {
                    self.pc = self.pc + 2;
                }
            },
            Instruction::SknpVx { x } => {
                let k: u8 = self.v[x as usize];
                if k < 16 && !self.keyboard[k as usize] {
                    self.pc = self.pc + 2;
                }
            },
            Instruction::LdVxDt { x } => {
                self.v[x as usize] = self.dt;
            },
            Instruction::LdVxK { x } => {
                self.wait_key(x);
            },
            Instruction::LdDtVx { x } => {
                self.dt = self.v[x as usize];
            },
            Instruction::LdStVx { x } => {
                self.st = self.v[x as usize];
            },
            Instruction::AddIVx { x } => {
                self.i = ((self.i as u32 + self.v[x as usize] as u32) % 0x1_0000) as u16;
            },
            Instruction::LdFVx { x } => {
                let d: u8 = self.v[x as usize];
                if d < 16 {
                    self.i = d as u16 * GLYPH_SIZE;
                }
            },
            Instruction::LdBVx { x } => {
                if self.i as usize + 2 >= MEM_SIZE {
                    return Err(Fault::OutOfBounds);
                }
                let d: u8 = self.v[x as usize];
                let at: usize = self.i as usize;
                self.memory[at] = d / 100;
                self.memory[at + 1] = (d / 10) % 10;
                self.memory[at + 2] = d % 10;
            },
            Instruction::StoreRegs { x } => {
                return self.store_regs(x);
            },
            Instruction::LoadRegs { x } => {
                return self.load_regs(x);
            },
            Instruction::Nop => {},
        }
        Ok(())
    }

    /// `Fx0A`: stores the lowest pressed key in `Vx`, or, with no key
    /// pressed, moves `PC` back so that the instruction runs again.
    fn wait_key(&mut self, x: u8)
        requires
            old(self).wf(),
            x < 16,
            2 <= old(self).pc,
        ensures
            final(self)@ == apply(old(self)@, Instruction::LdVxK { x }, 0).0,
    {
        let mut k: usize = 0;
        while k < 16
            invariant
                k <= 16,
                x < 16,
                self@ == old(self)@,
                forall|j: int| 0 <= j < k ==> !#[trigger] self.keyboard@[j],
            decreases 16 - k,
        {
            if self.keyboard[k] {
                assert(is_first_pressed(self.keyboard@, k as int));
                self.v[x as usize] = k as u8;
                return;
            }
            k = k + 1;
        }
        self.pc = self.pc - 2;
    }

    /// `Fx55`: stores `V0..=Vx` at `I..=I+x`.
    fn store_regs(&mut self, x: u8) -> (r: Result<(), Fault>)
        requires
            old(self).wf(),
            x < 16,
        ensures
            final(self).wf(),
            apply(old(self)@, Instruction::StoreRegs { x }, 0) == (final(self)@, r),
    {
        if self.i as usize + x as usize >= MEM_SIZE {
            return Err(Fault::OutOfBounds);
        }
        let base: usize = self.i as usize;
        let mut k: usize = 0;
        while k <= x as usize
            invariant
                k <= x + 1,
                x < 16,
                old(self).wf(),
                base == old(self).i,
                base + x < MEM_SIZE,
                self@ == (MachineState { memory: self@.memory, ..old(self)@ }),
                forall|a: int| 0 <= a < MEM_SIZE ==> #[trigger] self@.memory[a] == (
                    if base <= a < base + k { old(self)@.v[a - base] } else { old(self)@.memory[a] }),
            decreases x + 1 - k,
        {
            self.memory[base + k] = self.v[k];
            k = k + 1;
        }
        assert(self@.memory =~= stored_regs(old(self)@, x));
        Ok(())
    }

    /// `Fx65`: loads `V0..=Vx` from `I..=I+x`.
    fn load_regs(&mut self, x: u8) -> (r: Result<(), Fault>)
        requires
            old(self).wf(),
            x < 16,
        ensures
            final(self).wf(),
            apply(old(self)@, Instruction::LoadRegs { x }, 0) == (final(self)@, r),
    {
        if self.i as usize + x as usize >= MEM_SIZE {
            return Err(Fault::OutOfBounds);
        }
        let base: usize = self.i as usize;
        let mut k: usize = 0;
        while k <= x as usize
            invariant
                k <= x + 1,
                x < 16,
                old(self).wf(),
                base == old(self).i,
                base + x < MEM_SIZE,
                self@ == (MachineState { v: self@.v, ..old(self)@ }),
                forall|r: int| 0 <= r < 16 ==> #[trigger] self@.v[r] == (
                    if r < k { old(self)@.memory[base + r] } else { old(self)@.v[r] }),
            decreases x + 1 - k,
        {
            self.v[k] = self.memory[base + k];
            k = k + 1;
        }
        assert(self@.v =~= loaded_regs(old(self)@, x));
        Ok(())
    }

    /// `Dxyn`: XORs the `n`-row sprite at `I` onto the screen at
    /// `(Vx mod 64, Vy mod 32)`, wrapping at both edges, and sets `VF` to
    /// whether some lit pixel went dark.
    fn draw(&mut self, x: u8, y: u8, n: u8) -> (r: Result<(), Fault>)
        requires
            old(self).wf(),
            x < 16,
            y < 16,
            n < 16,
        ensures
            final(self).wf(),
            draw_spec(old(self)@, x, y, n) == (final(self)@, r),
    {
        if n > 0 && self.i as usize + n as usize > MEM_SIZE {
            return Err(Fault::OutOfBounds);
        }
        let ghost s = self@;
        let x0: usize = self.v[x as usize] as usize % DISP_X;
        let y0: usize = self.v[y as usize] as usize % DISP_Y;
        self.redraw = true;
        self.v[15] = 0;
        let mut row: usize = 0;
        while row < n as usize
            invariant
                s == old(self)@,
                s.wf(),
                row <= n < 16,
                x < 16,
                y < 16,
                n > 0 ==> s.i + n <= MEM_SIZE,
                x0 == s.v[x as int] as int % DISP_X as int,
                y0 == s.v[y as int] as int % DISP_Y as int,
                self@ == (MachineState {
                    display: self@.display,
                    v: s.v.update(15, self@.v[15]),
                    redraw: true,
                    ..s
                }),
                self@.wf(),
                forall|r: int, c: int|
                    0 <= r < DISP_Y && 0 <= c < DISP_X ==> #[trigger] self@.display[r][c] == (
                    s.display[r][c] != (sprite_pixel(s.memory, s.i, x0 as int, y0 as int, n, r, c)
                        && drawn(wrap_offset(r, y0 as int, DISP_Y as int), wrap_offset(c, x0 as int, DISP_X as int), row as int, 0))),
                self@.v[15] == if exists|dy: int, dx: int|
                    0 <= dy < n && 0 <= dx < 8 && drawn(dy, dx, row as int, 0) && #[trigger] hit(s, x0 as int, y0 as int, dy, dx) {
                    1u8
                } else {
                    0u8
                },
            decreases n - row,
        {
            let bits: u8 = self.memory[self.i as usize + row];
            let sy: usize = (y0 + row) % DISP_Y;
            let mut k: usize = 0;
            while k < 8
                invariant
                    s == old(self)@,
                    s.wf(),
                    row < n < 16,
                    x < 16,
                    y < 16,
                    k <= 8,
                    s.i + n <= MEM_SIZE,
                    bits == s.memory[s.i + row],
                    sy == (y0 + row) % (DISP_Y as int),
                    x0 == s.v[x as int] as int % DISP_X as int,
                    y0 == s.v[y as int] as int % DISP_Y as int,
                    self@ == (MachineState {
                        display: self@.display,
                        v: s.v.update(15, self@.v[15]),
                        redraw: true,
                        ..s
                    }),
                    self@.wf(),
                    forall|r: int, c: int|
                        0 <= r < DISP_Y && 0 <= c < DISP_X ==> #[trigger] self@.display[r][c] == (
                        s.display[r][c] != (sprite_pixel(s.memory, s.i, x0 as int, y0 as int, n, r, c)
                            && drawn(wrap_offset(r, y0 as int, DISP_Y as int), wrap_offset(c, x0 as int, DISP_X as int), row as int, k as int))),
                    self@.v[15] == if exists|dy: int, dx: int|
                        0 <= dy < n && 0 <= dx < 8 && drawn(dy, dx, row as int, k as int) && #[trigger] hit(s, x0 as int, y0 as int, dy, dx) {
                        1u8
                    } else {
                        0u8
                    },
                decreases 8 - k,
            {
                let pixel: bool = (bits >> (7 - k as u8)) & 1 == 1;
                let sx: usize = (x0 + k) % DISP_X;
                proof {
                    lemma_wrap(y0 as int, row as int, sy as int, DISP_Y as int);
                    lemma_wrap(x0 as int, k as int, sx as int, DISP_X as int);
                    assert forall|r: int| 0 <= r < DISP_Y implies
                        (#[trigger] wrap_offset(r, y0 as int, DISP_Y as int) == row <==> r == sy) by {
                        lemma_wrap(y0 as int, row as int, r, DISP_Y as int);
                    }
                    assert forall|c: int| 0 <= c < DISP_X implies
                        (#[trigger] wrap_offset(c, x0 as int, DISP_X as int) == k <==> c == sx) by {
                        lemma_wrap(x0 as int, k as int, c, DISP_X as int);
                    }
                    assert(pixel == sprite_bit(bits, k as u8));
                    assert(self@.display[sy as int][sx as int] == s.display[sy as int][sx as int]);
                }
                let lit: bool = self.display[sy][sx];
                let ghost before = self@;
                if pixel && lit {
                    self.v[15] = 1;
                }
                self.display[sy][sx] = lit != pixel;
                proof {
                    assert(sprite_pixel(s.memory, s.i, x0 as int, y0 as int, n, sy as int, sx as int) == pixel);
                    assert(hit(s, x0 as int, y0 as int, row as int, k as int) == (pixel && lit));
                    assert(self@.display[sy as int][sx as int] == (lit != pixel));
                    assert(forall|r: int, c: int| 0 <= r < DISP_Y && 0 <= c < DISP_X && (r != sy || c != sx)
                        ==> #[trigger] self@.display[r][c] == before.display[r][c]);
                }
                k = k + 1;
            }
            row = row + 1;
        }
        assert(self@.display =~~= draw_spec(s, x, y, n).0.display);
        assert(self@.v =~= draw_spec(s, x, y, n).0.v);
        Ok(())
    }
}

/// Sprite cell `(dy, dx)` comes before cell `(row, k)` in drawing order.
pub open spec fn drawn(dy: int, dx: int, row: int, k: int) -> bool {
    dy < row || (dy == row && dx < k)
}

/// On a screen of size `m`, the cell `off` steps past `base` (wrapping) is
/// the one cell whose wrapped distance from `base` is `off`.
proof fn lemma_wrap(base: int, off: int, cell: int, m: int)
    requires
        m == DISP_X || m == DISP_Y,
        0 <= base < m,
        0 <= off < m,
        0 <= cell < m,
    ensures
        wrap_offset(cell, base, m) == off <==> cell == (base + off) % m,
{
    if base + off < m {
        lemma_small_mod((base + off) as nat, m as nat);
    } else {
        lemma_mod_sub_multiples_vanish(base + off, m);
        lemma_small_mod((base + off - m) as nat, m as nat);
    }
    if cell >= base {
        lemma_small_mod((cell - base) as nat, m as nat);
    } else {
        lemma_mod_add_multiples_vanish(cell - base, m);
        lemma_small_mod((cell - base + m) as nat, m as nat);
    }
}

} // verus!
