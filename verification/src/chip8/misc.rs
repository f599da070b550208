//! Timers, the wait for a key, and memory through the index register.

use vstd::prelude::*;
use crate::chip8::Chip8;
use crate::instruction::{carried_out, misc};
use crate::machine::{fetchable, Fault, Machine, Status, MEMORY_SIZE, REGISTER_COUNT};

verus! {

impl Chip8 {
    /// Writes the hundreds, tens and units of `value` to the three bytes at
    /// the index register.
    fn store_bcd(&mut self, value: u8)
        requires
            old(self)@.index + 2 < MEMORY_SIZE,
        ensures
            final(self)@ == (Machine {
                memory: old(self)@.memory.update(old(self)@.index as int, value / 100).update(
                    old(self)@.index + 1,
                    (value / 10) % 10,
                ).update(old(self)@.index + 2, value % 10),
                ..old(self)@
            }),
    {
        proof {
            use_type_invariant(&*self);
        }
        let at: usize = self.i as usize;
        self.memory[at] = value / 100;
        self.memory[at + 1] = (value / 10) % 10;
        self.memory[at + 2] = value % 10;
    }

    /// Copies registers 0 to `x`, both included, to memory at the index
    /// register.
    fn store_registers(&mut self, x: usize)
        requires
            x < 16,
            old(self)@.index + x < MEMORY_SIZE,
        ensures
            final(self)@ == (Machine {
                memory: Seq::new(
                    MEMORY_SIZE as nat,
                    |a: int|
                        if old(self)@.index <= a <= old(self)@.index + x {
                            old(self)@.registers[a - old(self)@.index]
                        } else {
                            old(self)@.memory[a]
                        },
                ),
                ..old(self)@
            }),
    {
        proof {
            use_type_invariant(&*self);
        }
        let at: usize = self.i as usize;
        let mut r: usize = 0;
        while r <= x
            invariant
                r <= x + 1,
                x < 16,
                at == old(self)@.index,
                at + x < MEMORY_SIZE,
                self@.wf(),
                self@ == (Machine {
                    memory: Seq::new(
                        MEMORY_SIZE as nat,
                        |a: int|
                            if at <= a < at + r {
                                old(self)@.registers[a - at]
                            } else {
                                old(self)@.memory[a]
                            },
                    ),
                    ..old(self)@
                }),
            decreases x + 1 - r,
        {
            self.memory[at + r] = self.v[r];
            r += 1;
        }
    }

    /// Copies memory at the index register to registers 0 to `x`, both
    /// included.
    fn load_registers(&mut self, x: usize)
        requires
            x < 16,
            old(self)@.index + x < MEMORY_SIZE,
        ensures
            final(self)@ == (Machine {
                registers: Seq::new(
                    REGISTER_COUNT as nat,
                    |r: int|
                        if r <= x {
                            old(self)@.memory[old(self)@.index + r]
                        } else {
                            old(self)@.registers[r]
                        },
                ),
                ..old(self)@
            }),
    {
        proof {
            use_type_invariant(&*self);
        }
        let at: usize = self.i as usize;
        let mut r: usize = 0;
        while r <= x
            invariant
                r <= x + 1,
                x < 16,
                at == old(self)@.index,
                at + x < MEMORY_SIZE,
                self@.wf(),
                self@ == (Machine {
                    registers: Seq::new(
                        REGISTER_COUNT as nat,
                        |k: int|
                            if k < r {
                                old(self)@.memory[at + k]
                            } else {
                                old(self)@.registers[k]
                            },
                    ),
                    ..old(self)@
                }),
            decreases x + 1 - r,
        {
            self.v[r] = self.memory[at + r];
            r += 1;
        }
    }

    /// Executes the family-F instruction with low byte `kk` on register `x`.
    pub(super) fn exec_misc(&mut self, x: usize, kk: u8) -> (result: Result<(), Fault>)
        requires
            x < 16,
            fetchable(old(self)@.pc),
            !old(self)@.waiting(),
        ensures
            carried_out(misc(old(self)@, x as int, kk), old(self)@, final(self)@, result),
    {
        proof {
            use_type_invariant(&*self);
        }
        let value: u8 = self.get_v(x);
        if kk == 0x07 {
            self.set_v(x, self.delay_timer);
        } else if kk == 0x0A {
            self.status = Status::WaitingForKey { register: x as u8 };
            return Ok(());
        } else if kk == 0x15 {
            self.delay_timer = value;
        } else if kk == 0x18 {
            self.sound_timer = value;
        } else if kk == 0x1E {
            self.i = self.i.wrapping_add(value as u16);
        } else if kk == 0x29 {
            self.i = value as u16 * 5;
        } else if kk == 0x33 {
            if self.i as usize + 2 >= MEMORY_SIZE {
                return Err(Fault::AddressOutOfRange);
            }
            self.store_bcd(value);
        } else if kk == 0x55 {
            if self.i as usize + x >= MEMORY_SIZE {
                return Err(Fault::AddressOutOfRange);
            }
            self.store_registers(x);
        } else if kk == 0x65 {
            if self.i as usize + x >= MEMORY_SIZE {
                return Err(Fault::AddressOutOfRange);
            }
            self.load_registers(x);
        }
        self.next_instruction();
        Ok(())
    }
}

} // verus!
