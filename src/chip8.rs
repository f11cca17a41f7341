//! The interpreter as a host drives it: one call per cycle, a copy of the
//! screen taken after each, and the key states handed in as bytes.
use vstd::prelude::*;

use crate::cpu::{blank_display, reset_state, Fault, MachineState, CPU};
use crate::semantics::step_spec;

verus! {

/// A machine together with the last screen a host may show.
pub struct Chip8 {
    pub cpu: CPU,
    pub display: [[bool; 64]; 32],
}

impl Chip8 {
    /// The screen copy as rows of pixels.
    pub open spec fn screen(&self) -> Seq<Seq<bool>> {
        self.display@.map_values(|row: [bool; 64]| row@)
    }

    /// A fresh machine and a blank screen copy.
    pub fn new() -> (r: Chip8)
        ensures
            r.cpu@.is_initial(),
            r.cpu.wf(),
            r.screen() == blank_display(),
    {
        let r = Chip8 { cpu: CPU::default(), display: [[false; 64]; 32] };
        assert(r.screen() =~~= blank_display());
        r
    }

    /// Resets the machine (see [`CPU::reset`]) and loads the font glyphs.
    pub fn init(&mut self)
        ensures
            final(self).cpu@ == (MachineState {
                memory: old(self).cpu@.memory.update_subrange_with(0, crate::cpu::FONT@),
                ..reset_state(old(self).cpu@)
            }),
            final(self).cpu.wf(),
            final(self).display == old(self).display,
    {
        self.cpu.reset();
        self.cpu.load_sprites();
    }

    /// Runs one cycle and then copies the machine's screen.
    pub fn step(&mut self) -> (r: Result<(), Fault>)
        requires
            old(self).cpu.wf(),
        ensures
            final(self).cpu.wf(),
            exists|rnd: u8| step_spec(old(self).cpu@, rnd) == (final(self).cpu@, r),
            final(self).display == final(self).cpu.display,
    {
        let r = self.cpu.execute();
        self.display = self.cpu.display;
        r
    }

    /// Sets key `k` pressed exactly when `key_states[k]` is nonzero, for the
    /// first sixteen entries; keys past the end of `key_states` keep their state.
    pub fn update_keyboard(&mut self, key_states: &[u8])
        ensures
            final(self).cpu@ == (MachineState {
                keyboard: Seq::new(16, |k: int|
                    if k < key_states@.len() { key_states@[k] != 0 } else { old(self).cpu@.keyboard[k] }),
                ..old(self).cpu@
            }),
            final(self).display == old(self).display,
    {
        let mut k: usize = 0;
        while k < 16 && k < key_states.len()
            invariant
                k <= 16,
                k <= key_states@.len(),
                self.display == old(self).display,
                self.cpu@ == (MachineState {
                    keyboard: Seq::new(16, |j: int|
                        if j < k { key_states@[j] != 0 } else { old(self).cpu@.keyboard[j] }),
                    ..old(self).cpu@
                }),
            decreases 16 - k,
        {
            self.cpu.keyboard[k] = key_states[k] != 0;
            k = k + 1;
            assert(self.cpu@.keyboard =~= Seq::new(16, |j: int|
                if j < k { key_states@[j] != 0 } else { old(self).cpu@.keyboard[j] }));
        }
        assert(self.cpu@.keyboard =~= Seq::new(16, |j: int|
            if j < key_states@.len() { key_states@[j] != 0 } else { old(self).cpu@.keyboard[j] }));
    }
}

} // verus!
