//! Reading the machine from outside, and the few things that the outside may
//! set: keys, the program counter and the display's dirty flag.

use std::ops::Range;
use vstd::prelude::*;
use crate::chip8::Chip8;
use crate::display::{lit, lit_cells};
use crate::machine::{
    Fault, Machine, Status, FLAG_REGISTER, MEMORY_SIZE, SCREEN_CELLS, SCREEN_HEIGHT, SCREEN_WIDTH,
};

verus! {

impl Chip8 {
    /// Records that key `key` is down (`value` non-zero) or up (`value` zero).
    pub fn set_key(&mut self, key: u8, value: u8)
        requires
            key < 16,
        ensures
            final(self)@ == (Machine {
                keys: old(self)@.keys.update(key as int, value),
                ..old(self)@
            }),
    {
        proof {
            use_type_invariant(&*self);
        }
        self.key[key as usize] = value;
    }

    /// Sets the program counter to `address`, which must lie in memory; an
    /// address beyond it is refused and nothing changes.
    pub fn set_program_counter(&mut self, address: u16) -> (result: Result<(), Fault>)
        ensures
            result is Ok <==> address < MEMORY_SIZE,
            result is Ok ==> final(self)@ == (Machine { pc: address, ..old(self)@ }),
            result is Err ==> result == Err::<(), Fault>(Fault::PcOutOfRange) && final(self)@
                == old(self)@,
    {
        proof {
            use_type_invariant(&*self);
        }
        if address as usize >= MEMORY_SIZE {
            return Err(Fault::PcOutOfRange);
        }
        self.pc = address;
        Ok(())
    }

    /// Tells whether a draw instruction ran since the last call, and clears
    /// that record.
    pub fn take_draw_flag(&mut self) -> (dirty: bool)
        ensures
            dirty == old(self)@.dirty,
            final(self)@ == (Machine { dirty: false, ..old(self)@ }),
    {
        proof {
            use_type_invariant(&*self);
        }
        let dirty: bool = self.draw_flag;
        self.draw_flag = false;
        dirty
    }

    /// The lit cells of the display, row by row from the top and each row
    /// from the left, each as its column and its row.
    pub fn draw(&self) -> (cells: Vec<(u8, u8)>)
        ensures
            cells@ == lit_cells(self@.screen, SCREEN_CELLS as nat),
    {
        lit(&self.screen)
    }

    /// The bytes of memory in `range`. An empty range gives no bytes; one
    /// that reaches beyond memory gives nothing at all.
    pub fn memory_range(&self, range: Range<usize>) -> (bytes: Option<Vec<u8>>)
        ensures
            bytes is Some <==> range.start >= range.end || range.end <= MEMORY_SIZE,
            bytes matches Some(found) ==> found@ == (if range.start >= range.end {
                Seq::<u8>::empty()
            } else {
                self@.memory.subrange(range.start as int, range.end as int)
            }),
    {
        let mut found: Vec<u8> = Vec::new();
        if range.start >= range.end {
            return Some(found);
        }
        if range.end > MEMORY_SIZE {
            return None;
        }
        let mut at: usize = range.start;
        while at < range.end
            invariant
                range.start <= at <= range.end <= MEMORY_SIZE,
                found@ == self@.memory.subrange(range.start as int, at as int),
            decreases range.end - at,
        {
            found.push(self.memory[at]);
            at += 1;
        }
        Some(found)
    }

    /// The address of the next instruction.
    pub fn program_counter(&self) -> (pc: u16)
        ensures
            pc == self@.pc,
    {
        self.pc
    }

    /// The address register.
    pub fn index_register(&self) -> (index: u16)
        ensures
            index == self@.index,
    {
        self.i
    }

    /// The value of register `x`.
    pub fn register(&self, x: u8) -> (value: u8)
        requires
            x < 16,
        ensures
            value == self@.reg(x as int),
    {
        self.v[x as usize]
    }

    /// The carry, borrow or collision flag: the value of the last register.
    pub fn flag(&self) -> (value: u8)
        ensures
            value == self@.reg(FLAG_REGISTER as int),
    {
        self.v[FLAG_REGISTER]
    }

    /// The delay timer.
    pub fn delay_timer(&self) -> (value: u8)
        ensures
            value == self@.delay_timer,
    {
        self.delay_timer
    }

    /// The sound timer.
    pub fn sound_timer(&self) -> (value: u8)
        ensures
            value == self@.sound_timer,
    {
        self.sound_timer
    }

    /// The number of return addresses on the stack.
    pub fn stack_pointer(&self) -> (sp: usize)
        ensures
            sp == self@.sp,
            sp < 16,
    {
        proof {
            use_type_invariant(self);
        }
        self.sp
    }

    /// Running, or waiting for a key.
    pub fn status(&self) -> (status: Status)
        ensures
            status == self@.status,
    {
        self.status
    }

    /// The cell in column `x` of row `y` is lit.
    pub fn pixel(&self, x: usize, y: usize) -> (lit: bool)
        requires
            x < SCREEN_WIDTH,
            y < SCREEN_HEIGHT,
        ensures
            lit == self@.lit(x as int, y as int),
    {
        self.screen[x + y * SCREEN_WIDTH] == 1
    }

    /// The display as stored: one byte per cell, 0 or 1, row by row.
    pub fn screen(&self) -> (cells: &[u8; 2048])
        ensures
            cells@ == self@.screen,
            forall|p: int| 0 <= p < SCREEN_CELLS ==> #[trigger] cells@[p] <= 1,
    {
        proof {
            use_type_invariant(self);
        }
        &self.screen
    }
}

} // verus!
