//! Fetch, decode, execute, tick: one cycle of the machine.

use vstd::prelude::*;
use crate::chip8::Chip8;
use crate::entropy::random_byte;
use crate::instruction::{carried_out, draws_random, execute, report, resume, step};
use crate::machine::{fetchable, Cycle, Fault, Status, MEMORY_SIZE};
use crate::opcode::{
    family_field, is_recognized, kk_field, n_field, nnn_field, x_field, y_field,
};

verus! {

impl Chip8 {
    /// Decodes and executes the instruction word `op`, with `random` as the
    /// byte that a random-number instruction draws.
    fn execute(&mut self, op: u16, random: u8) -> (result: Result<(), Fault>)
        requires
            !old(self)@.waiting(),
        ensures
            carried_out(execute(old(self)@, op, random), old(self)@, final(self)@, result),
    {
        proof {
            use_type_invariant(&*self);
        }
        if self.pc as usize + 1 >= MEMORY_SIZE {
            return Err(Fault::PcOutOfRange);
        }
        let f: u8 = family_field(op);
        let x: usize = x_field(op);
        let y: usize = y_field(op);
        let n: usize = n_field(op);
        let kk: u8 = kk_field(op);
        let nnn: u16 = nnn_field(op);
        if f == 0x0 {
            return self.exec_system(n);
        } else if f == 0x1 {
            self.pc = nnn;
        } else if f == 0x2 {
            return self.exec_call(nnn);
        } else if f == 0x3 {
            self.skip_if(self.get_v(x) == kk);
        } else if f == 0x4 {
            self.skip_if(self.get_v(x) != kk);
        } else if f == 0x5 {
            self.skip_if(self.get_v(x) == self.get_v(y));
        } else if f == 0x6 {
            self.set_v(x, kk);
            self.next_instruction();
        } else if f == 0x7 {
            self.set_v(x, self.get_v(x).wrapping_add(kk));
            self.next_instruction();
        } else if f == 0x8 {
            self.exec_alu(x, y, n);
            self.next_instruction();
        } else if f == 0x9 {
            self.skip_if(self.get_v(x) != self.get_v(y));
        } else if f == 0xA {
            self.i = nnn;
            self.next_instruction();
        } else if f == 0xB {
            self.pc = nnn + self.get_v(0) as u16;
        } else if f == 0xC {
            self.set_v(x, random & kk);
            self.next_instruction();
        } else if f == 0xD {
            return self.exec_draw(x, y, n);
        } else if f == 0xE {
            self.exec_keypad(x, kk);
        } else {
            return self.exec_misc(x, kk);
        }
        Ok(())
    }

    /// The instruction at the program counter draws a random byte.
    fn needs_random(&self) -> (needed: bool)
        ensures
            needed == draws_random(self@),
    {
        if self.is_halted() || self.pc as usize + 1 >= MEMORY_SIZE {
            false
        } else {
            family_field(self.read_opcode()) == 0xC
        }
    }

    /// The machine is waiting for a key.
    pub fn is_halted(&self) -> (halted: bool)
        ensures
            halted == self@.waiting(),
    {
        match self.status {
            Status::Running => false,
            Status::WaitingForKey { .. } => true,
        }
    }

    /// Runs one cycle with `random` as the byte that a random-number
    /// instruction draws: fetches the instruction at the program counter,
    /// executes it and lets the timers tick. While the machine waits for a key
    /// nothing happens, and on a fault nothing changes.
    pub fn step(&mut self, random: u8) -> (result: Result<Cycle, Fault>)
        ensures
            final(self)@ == step(old(self)@, random),
            result == report(old(self)@, random),
    {
        if self.is_halted() {
            return Ok(Cycle { ran: false, beep: false, unknown: false });
        }
        if self.pc as usize + 1 >= MEMORY_SIZE {
            return Err(Fault::PcOutOfRange);
        }
        let op: u16 = self.read_opcode();
        match self.execute(op, random) {
            Ok(()) => {
                let beep: bool = self.update_timers();
                Ok(Cycle { ran: true, beep, unknown: !is_recognized(op) })
            },
            Err(fault) => Err(fault),
        }
    }

    /// Runs one cycle, drawing the random byte itself when the instruction
    /// asks for one. Whatever byte is drawn, the cycle is the one that
    /// [`Chip8::step`] runs with that byte; for every other instruction it is
    /// the cycle that `step` runs with any byte.
    pub fn emulate_cycle(&mut self) -> (result: Result<Cycle, Fault>)
        ensures
            exists|random: u8|
                (draws_random(old(self)@) || random == 0) && final(self)@ == #[trigger] step(
                    old(self)@,
                    random,
                ) && result == report(old(self)@, random),
    {
        let random: u8 = if self.needs_random() {
            random_byte()
        } else {
            0
        };
        self.step(random)
    }

    /// Hands the key `value` to a machine that waits for one: the waiting
    /// register receives it and execution resumes after the instruction that
    /// waited. On a running machine nothing happens. Tells whether the machine
    /// was waiting.
    pub fn resolve_key(&mut self, value: u8) -> (resumed: bool)
        ensures
            final(self)@ == resume(old(self)@, value),
            resumed == old(self)@.waiting(),
    {
        proof {
            use_type_invariant(&*self);
        }
        match self.status {
            Status::Running => false,
            Status::WaitingForKey { register } => {
                self.status = Status::Running;
                self.v[register as usize] = value;
                self.pc = self.pc + 2;
                true
            },
        }
    }
}

} // verus!
