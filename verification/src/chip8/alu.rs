//! Register-to-register arithmetic.

use vstd::prelude::*;
use crate::chip8::Chip8;
use crate::instruction::alu;
use crate::machine::FLAG_REGISTER;

verus! {

impl Chip8 {
    /// Sets the flag register to 1 if `raised`, else to 0.
    pub(super) fn set_flag(&mut self, raised: bool)
        ensures
            final(self)@ == old(self)@.with_flag(raised),
    {
        proof {
            use_type_invariant(&*self);
        }
        if raised {
            self.v[FLAG_REGISTER] = 1;
        } else {
            self.v[FLAG_REGISTER] = 0;
        }
    }

    /// Writes `value` to register `x`.
    pub(super) fn set_v(&mut self, x: usize, value: u8)
        requires
            x < 16,
        ensures
            final(self)@ == old(self)@.with_register(x as int, value),
    {
        proof {
            use_type_invariant(&*self);
        }
        self.v[x] = value;
    }

    /// Reads register `x`.
    pub(super) fn get_v(&self, x: usize) -> (value: u8)
        requires
            x < 16,
        ensures
            value == self@.reg(x as int),
    {
        proof {
            use_type_invariant(self);
        }
        self.v[x]
    }

    /// Adds register `y` to register `x`; the flag is the carry.
    fn alu_add(&mut self, x: usize, y: usize)
        requires
            x < 16,
            y < 16,
        ensures
            final(self)@ == alu(old(self)@, x as int, y as int, 0x4),
    {
        let a: u8 = self.get_v(x);
        let b: u8 = self.get_v(y);
        let sum: u8 = a.wrapping_add(b);
        assert(sum == (a + b) % 256);
        self.set_v(x, sum);
        self.set_flag(a > 255 - b);
    }

    /// Raises the flag if `minuend` exceeds `subtrahend`, then stores their
    /// difference, as the registers then stand, in register `x`.
    fn alu_sub(&mut self, x: usize, minuend: usize, subtrahend: usize)
        requires
            x < 16,
            minuend < 16,
            subtrahend < 16,
        ensures
            final(self)@ == ({
                let f = old(self)@.with_flag(
                    old(self)@.reg(minuend as int) > old(self)@.reg(subtrahend as int),
                );
                f.with_register(
                    x as int,
                    ((f.reg(minuend as int) - f.reg(subtrahend as int)) % 256) as u8,
                )
            }),
    {
        let raised: bool = self.get_v(minuend) > self.get_v(subtrahend);
        self.set_flag(raised);
        let a: u8 = self.get_v(minuend);
        let b: u8 = self.get_v(subtrahend);
        let difference: u8 = a.wrapping_sub(b);
        assert(difference == (a - b) % 256);
        self.set_v(x, difference);
    }

    /// Copies the top bit of register `x` to the flag, then halves the register.
    fn alu_shr(&mut self, x: usize)
        requires
            x < 16,
        ensures
            final(self)@ == alu(old(self)@, x as int, 0, 0x6),
    {
        let before: u8 = self.get_v(x);
        assert(before & 0x80 != 0 <==> before >= 128) by (bit_vector);
        self.set_flag(before & 0x80 != 0);
        let now: u8 = self.get_v(x);
        assert(now >> 1 == now / 2) by (bit_vector);
        self.set_v(x, now >> 1);
    }

    /// Copies the bottom bit of register `x` to the flag, then doubles the
    /// register, dropping what does not fit.
    fn alu_shl(&mut self, x: usize)
        requires
            x < 16,
        ensures
            final(self)@ == alu(old(self)@, x as int, 0, 0xE),
    {
        let before: u8 = self.get_v(x);
        assert(before & 0x01 != 0 <==> before % 2 == 1) by (bit_vector);
        self.set_flag(before & 0x01 != 0);
        let now: u8 = self.get_v(x);
        assert(now << 1 == (now * 2) % 256) by (bit_vector);
        self.set_v(x, now << 1);
    }

    /// Executes the arithmetic instruction with last digit `n` on registers
    /// `x` and `y`.
    pub(super) fn exec_alu(&mut self, x: usize, y: usize, n: usize)
        requires
            x < 16,
            y < 16,
        ensures
            final(self)@ == alu(old(self)@, x as int, y as int, n as int),
    {
        if n == 0x0 {
            self.set_v(x, self.get_v(y));
        } else if n == 0x1 {
            self.set_v(x, self.get_v(x) | self.get_v(y));
        } else if n == 0x2 {
            self.set_v(x, self.get_v(x) & self.get_v(y));
        } else if n == 0x3 {
            self.set_v(x, self.get_v(x) ^ self.get_v(y));
        } else if n == 0x4 {
            self.alu_add(x, y);
        } else if n == 0x5 {
            self.alu_sub(x, x, y);
        } else if n == 0x6 {
            self.alu_shr(x);
        } else if n == 0x7 {
            self.alu_sub(x, y, x);
        } else if n == 0xE {
            self.alu_shl(x);
        }
    }
}

} // verus!
