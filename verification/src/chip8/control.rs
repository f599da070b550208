//! Subroutines, the display reset and the keypad skips.

use vstd::prelude::*;
use crate::chip8::Chip8;
use crate::instruction::{call, carried_out, keypad, system};
use crate::machine::{fetchable, Fault};

verus! {

impl Chip8 {
    /// Executes a family-0 instruction with last digit `n`: clear the display,
    /// or return from a subroutine.
    pub(super) fn exec_system(&mut self, n: usize) -> (result: Result<(), Fault>)
        requires
            fetchable(old(self)@.pc),
            !old(self)@.waiting(),
        ensures
            carried_out(system(old(self)@, n as int), old(self)@, final(self)@, result),
    {
        proof {
            use_type_invariant(&*self);
        }
        if n == 0x0 {
            self.clear_screenbuf();
            self.next_instruction();
        } else if n == 0xE {
            if self.sp == 0 {
                return Err(Fault::StackUnderflow);
            }
            self.pc = self.stack[self.sp] + 2;
            self.sp = self.sp - 1;
        } else {
            self.next_instruction();
        }
        Ok(())
    }

    /// Saves the address of the current instruction and jumps to `nnn`.
    pub(super) fn exec_call(&mut self, nnn: u16) -> (result: Result<(), Fault>)
        requires
            fetchable(old(self)@.pc),
            !old(self)@.waiting(),
        ensures
            carried_out(call(old(self)@, nnn), old(self)@, final(self)@, result),
    {
        proof {
            use_type_invariant(&*self);
        }
        if self.sp + 1 >= 16 {
            return Err(Fault::StackOverflow);
        }
        self.stack[self.sp + 1] = self.pc;
        self.sp = self.sp + 1;
        self.pc = nnn;
        Ok(())
    }

    /// Key `k` is held down.
    pub(super) fn key_down(&self, k: u8) -> (down: bool)
        ensures
            down == self@.pressed(k),
    {
        k < 16 && self.key[k as usize] != 0
    }

    /// Executes a family-E instruction: skip on the state of the key whose
    /// number is in register `x`.
    pub(super) fn exec_keypad(&mut self, x: usize, kk: u8)
        requires
            x < 16,
            fetchable(old(self)@.pc),
            !old(self)@.waiting(),
        ensures
            final(self)@ == keypad(old(self)@, x as int, kk),
    {
        if kk == 0x9E {
            let down: bool = self.key_down(self.get_v(x));
            self.skip_if(down);
        } else if kk == 0xA1 {
            let down: bool = self.key_down(self.get_v(x));
            self.skip_if(!down);
        } else {
            self.next_instruction();
        }
    }
}

} // verus!
