//! What each instruction does to the machine, and what one cycle is.
//!
//! Everything here is mathematics on [`Machine`] values; the executable
//! interpreter is proved to compute exactly these functions.

use vstd::prelude::*;
use crate::machine::{
    fetchable, Cycle, Fault, Machine, Status, FLAG_REGISTER, MEMORY_SIZE, REGISTER_COUNT,
    SCREEN_CELLS, STACK_SIZE,
};
use crate::opcode::{family, kk_of, n_of, nnn_of, recognized, x_of, y_of};
use crate::sprite::{blit, collides};

verus! {

impl Machine {
    /// The value of register `x`.
    pub open spec fn reg(self, x: int) -> u8
        recommends
            0 <= x < REGISTER_COUNT,
    {
        self.registers[x]
    }

    /// The machine with `value` in register `x`.
    pub open spec fn with_register(self, x: int, value: u8) -> Machine
        recommends
            0 <= x < REGISTER_COUNT,
    {
        Machine { registers: self.registers.update(x, value), ..self }
    }

    /// The machine with the flag register at 1 if `raised`, else at 0.
    pub open spec fn with_flag(self, raised: bool) -> Machine {
        self.with_register(
            FLAG_REGISTER as int,
            if raised {
                1u8
            } else {
                0u8
            },
        )
    }

    /// The machine with the program counter moved to the next instruction.
    pub open spec fn advance(self) -> Machine {
        Machine { pc: (self.pc + 2) as u16, ..self }
    }

    /// The machine after a conditional skip: one advance past the instruction
    /// itself and, if `cond` holds, a second one past its successor.
    pub open spec fn skip_if(self, cond: bool) -> Machine {
        if cond {
            self.advance().advance()
        } else {
            self.advance()
        }
    }

    /// The machine with both timers one step closer to zero.
    pub open spec fn tick(self) -> Machine {
        Machine {
            delay_timer: if self.delay_timer > 0 {
                (self.delay_timer - 1) as u8
            } else {
                0u8
            },
            sound_timer: if self.sound_timer > 0 {
                (self.sound_timer - 1) as u8
            } else {
                0u8
            },
            ..self
        }
    }

    /// The `n` bytes of memory from the index register on, as sprite rows.
    pub open spec fn sprite(self, n: int) -> Seq<u8> {
        Seq::new(n as nat, |r: int| self.memory[self.index + r])
    }
}

/// Family 0: clear the display (last digit 0) or return from a subroutine
/// (last digit E).
///
/// A return resumes at the instruction after the call whose address is on top
/// of the stack.
pub open spec fn system(m: Machine, n: int) -> Result<Machine, Fault> {
    if n == 0x0 {
        Ok(Machine { screen: Seq::new(SCREEN_CELLS as nat, |p: int| 0u8), ..m }.advance())
    } else if n == 0xE {
        if m.sp == 0 {
            Err(Fault::StackUnderflow)
        } else {
            Ok(Machine { pc: (m.stack[m.sp as int] + 2) as u16, sp: (m.sp - 1) as nat, ..m })
        }
    } else {
        Ok(m.advance())
    }
}

/// Family 2: save the address of this instruction on the stack and go to `nnn`.
pub open spec fn call(m: Machine, nnn: u16) -> Result<Machine, Fault> {
    if m.sp + 1 >= STACK_SIZE {
        Err(Fault::StackOverflow)
    } else {
        Ok(Machine { stack: m.stack.update(m.sp as int + 1, m.pc), sp: m.sp + 1, pc: nnn, ..m })
    }
}

/// Family 8: register-to-register arithmetic, selected by the last digit.
///
/// Addition writes its carry after the sum. Subtraction and the shifts write
/// the flag first and then compute from the registers as they then stand, so
/// that with the flag register as an operand the new flag is what is read.
pub open spec fn alu(m: Machine, x: int, y: int, n: int) -> Machine {
    if n == 0x0 {
        m.with_register(x, m.reg(y))
    } else if n == 0x1 {
        m.with_register(x, m.reg(x) | m.reg(y))
    } else if n == 0x2 {
        m.with_register(x, m.reg(x) & m.reg(y))
    } else if n == 0x3 {
        m.with_register(x, m.reg(x) ^ m.reg(y))
    } else if n == 0x4 {
        let sum = m.reg(x) + m.reg(y);
        m.with_register(x, (sum % 256) as u8).with_flag(sum >= 256)
    } else if n == 0x5 {
        let f = m.with_flag(m.reg(x) > m.reg(y));
        f.with_register(x, ((f.reg(x) - f.reg(y)) % 256) as u8)
    } else if n == 0x6 {
        let f = m.with_flag(m.reg(x) >= 128);
        f.with_register(x, f.reg(x) / 2)
    } else if n == 0x7 {
        let f = m.with_flag(m.reg(y) > m.reg(x));
        f.with_register(x, ((f.reg(y) - f.reg(x)) % 256) as u8)
    } else if n == 0xE {
        let f = m.with_flag(m.reg(x) % 2 == 1);
        f.with_register(x, ((f.reg(x) * 2) % 256) as u8)
    } else {
        m
    }
}

/// Family D: draw the `n`-row sprite at the index register with its top left
/// corner at the cell whose column is in register `x` and whose row is in
/// register `y`; the flag reports whether a lit cell was turned off.
pub open spec fn draw(m: Machine, x: int, y: int, n: int) -> Result<Machine, Fault> {
    if n > 0 && m.index + n > MEMORY_SIZE {
        Err(Fault::AddressOutOfRange)
    } else {
        let rows = m.sprite(n);
        let x0 = m.reg(x) as int;
        let y0 = m.reg(y) as int;
        Ok(
            Machine { screen: blit(m.screen, rows, x0, y0), dirty: true, ..m }.with_flag(
                collides(m.screen, rows, x0, y0),
            ).advance(),
        )
    }
}

/// Family E: skip the next instruction if the key whose number is in register
/// `x` is down (`kk` 9E) or is not down (`kk` A1).
pub open spec fn keypad(m: Machine, x: int, kk: u8) -> Machine {
    if kk == 0x9E {
        m.skip_if(m.pressed(m.reg(x)))
    } else if kk == 0xA1 {
        m.skip_if(!m.pressed(m.reg(x)))
    } else {
        m.advance()
    }
}

/// Family F: timers, the wait for a key, and memory through the index register.
pub open spec fn misc(m: Machine, x: int, kk: u8) -> Result<Machine, Fault> {
    let v = m.reg(x);
    let i = m.index as int;
    if kk == 0x07 {
        Ok(m.with_register(x, m.delay_timer).advance())
    } else if kk == 0x0A {
        Ok(Machine { status: Status::WaitingForKey { register: x as u8 }, ..m })
    } else if kk == 0x15 {
        Ok(Machine { delay_timer: v, ..m }.advance())
    } else if kk == 0x18 {
        Ok(Machine { sound_timer: v, ..m }.advance())
    } else if kk == 0x1E {
        Ok(Machine { index: ((i + v) % 0x10000) as u16, ..m }.advance())
    } else if kk == 0x29 {
        Ok(Machine { index: (v * 5) as u16, ..m }.advance())
    } else if kk == 0x33 {
        if i + 2 >= MEMORY_SIZE {
            Err(Fault::AddressOutOfRange)
        } else {
            Ok(
                Machine {
                    memory: m.memory.update(i, v / 100).update(i + 1, (v / 10) % 10).update(
                        i + 2,
                        v % 10,
                    ),
                    ..m
                }.advance(),
            )
        }
    } else if kk == 0x55 {
        if i + x >= MEMORY_SIZE {
            Err(Fault::AddressOutOfRange)
        } else {
            Ok(
                Machine {
                    memory: Seq::new(
                        MEMORY_SIZE as nat,
                        |a: int|
                            if i <= a <= i + x {
                                m.registers[a - i]
                            } else {
                                m.memory[a]
                            },
                    ),
                    ..m
                }.advance(),
            )
        }
    } else if kk == 0x65 {
        if i + x >= MEMORY_SIZE {
            Err(Fault::AddressOutOfRange)
        } else {
            Ok(
                Machine {
                    registers: Seq::new(
                        REGISTER_COUNT as nat,
                        |r: int|
                            if r <= x {
                                m.memory[i + r]
                            } else {
                                m.registers[r]
                            },
                    ),
                    ..m
                }.advance(),
            )
        }
    } else {
        Ok(m.advance())
    }
}

/// The machine after executing the instruction word `op` at the program
/// counter, with `random` as the byte that a random-number instruction draws;
/// or the fault that stops it, in which case nothing changes.
pub open spec fn execute(m: Machine, op: u16, random: u8) -> Result<Machine, Fault> {
    let f = family(op);
    let x = x_of(op);
    let y = y_of(op);
    let n = n_of(op);
    let kk = kk_of(op);
    let nnn = nnn_of(op);
    if !fetchable(m.pc) {
        Err(Fault::PcOutOfRange)
    } else if f == 0x0 {
        system(m, n)
    } else if f == 0x1 {
        Ok(Machine { pc: nnn, ..m })
    } else if f == 0x2 {
        call(m, nnn)
    } else if f == 0x3 {
        Ok(m.skip_if(m.reg(x) == kk))
    } else if f == 0x4 {
        Ok(m.skip_if(m.reg(x) != kk))
    } else if f == 0x5 {
        Ok(m.skip_if(m.reg(x) == m.reg(y)))
    } else if f == 0x6 {
        Ok(m.with_register(x, kk).advance())
    } else if f == 0x7 {
        Ok(m.with_register(x, ((m.reg(x) + kk) % 256) as u8).advance())
    } else if f == 0x8 {
        Ok(alu(m, x, y, n).advance())
    } else if f == 0x9 {
        Ok(m.skip_if(m.reg(x) != m.reg(y)))
    } else if f == 0xA {
        Ok(Machine { index: nnn, ..m }.advance())
    } else if f == 0xB {
        Ok(Machine { pc: (nnn + m.reg(0)) as u16, ..m })
    } else if f == 0xC {
        Ok(m.with_register(x, random & kk).advance())
    } else if f == 0xD {
        draw(m, x, y, n)
    } else if f == 0xE {
        Ok(keypad(m, x, kk))
    } else {
        misc(m, x, kk)
    }
}

/// An operation that was to give `expected` has done so: on success the
/// machine went from `before` to the expected state, and on a fault it
/// reported that fault and left the machine as it was.
pub open spec fn carried_out(
    expected: Result<Machine, Fault>,
    before: Machine,
    after: Machine,
    result: Result<(), Fault>,
) -> bool {
    match expected {
        Ok(next) => result is Ok && after == next,
        Err(fault) => result == Err::<(), Fault>(fault) && after == before,
    }
}

/// The instruction at the program counter draws a random byte.
pub open spec fn draws_random(m: Machine) -> bool {
    !m.waiting() && fetchable(m.pc) && family(m.opcode()) == 0xC
}

/// The machine after one cycle. A machine that waits for a key, or that
/// faults, stays as it is; otherwise the instruction at the program counter is
/// executed and then the timers tick.
pub open spec fn step(m: Machine, random: u8) -> Machine {
    if m.waiting() {
        m
    } else {
        match execute(m, m.opcode(), random) {
            Ok(next) => next.tick(),
            Err(_) => m,
        }
    }
}

/// What one cycle reports: the fault that stopped it, or its signals.
pub open spec fn report(m: Machine, random: u8) -> Result<Cycle, Fault> {
    if m.waiting() {
        Ok(Cycle { ran: false, beep: false, unknown: false })
    } else {
        match execute(m, m.opcode(), random) {
            Ok(next) => Ok(
                Cycle { ran: true, beep: next.sound_timer == 1, unknown: !recognized(m.opcode()) },
            ),
            Err(fault) => Err(fault),
        }
    }
}

/// The machine after the key `value` has arrived: the waiting register holds
/// it and execution resumes after the instruction that waited. A machine that
/// was not waiting stays as it is.
pub open spec fn resume(m: Machine, value: u8) -> Machine {
    match m.status {
        Status::Running => m,
        Status::WaitingForKey { register } => Machine {
            status: Status::Running,
            ..m.with_register(register as int, value).advance()
        },
    }
}

} // verus!
