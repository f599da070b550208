//! The executable interpreter.

use vstd::prelude::*;
use crate::machine::{
    fetchable, power_on, with_bytes, Fault, Machine, Status, MEMORY_SIZE, PROGRAM_START,
    SCREEN_CELLS,
};
use crate::opcode::join;

mod access;
mod alu;
mod control;
mod cycle;
mod draw;
mod misc;

verus! {

/// The bitmaps of the hexadecimal digits 0 to F, five bytes each, four cells
/// wide in the high half of every byte.
pub const FONT: [u8; 80] = [
    0xF0, 0x90, 0x90, 0x90, 0xF0,
    0x20, 0x60, 0x20, 0x20, 0x70,
    0xF0, 0x10, 0xF0, 0x80, 0xF0,
    0xF0, 0x10, 0xF0, 0x10, 0xF0,
    0x90, 0x90, 0xF0, 0x10, 0x10,
    0xF0, 0x80, 0xF0, 0x10, 0xF0,
    0xF0, 0x80, 0xF0, 0x90, 0xF0,
    0xF0, 0x10, 0x20, 0x40, 0x40,
    0xF0, 0x90, 0xF0, 0x90, 0xF0,
    0xF0, 0x90, 0xF0, 0x10, 0xF0,
    0xF0, 0x90, 0xF0, 0x90, 0x90,
    0xE0, 0x90, 0xE0, 0x90, 0xE0,
    0xF0, 0x80, 0x80, 0x80, 0xF0,
    0xE0, 0x90, 0x90, 0x90, 0xE0,
    0xF0, 0x80, 0xF0, 0x80, 0xF0,
    0xF0, 0x80, 0xF0, 0x80, 0x80,
];

/// One CHIP-8 machine. Its state is private; [`Machine`] is what it looks like
/// to contracts.
pub struct Chip8 {
    memory: [u8; 4096],
    v: [u8; 16],
    i: u16,
    pc: u16,
    screen: [u8; 2048],
    draw_flag: bool,
    status: Status,
    delay_timer: u8,
    sound_timer: u8,
    stack: [u16; 16],
    sp: usize,
    key: [u8; 16],
}

impl View for Chip8 {
    type V = Machine;

    closed spec fn view(&self) -> Machine {
        Machine {
            memory: self.memory@,
            registers: self.v@,
            index: self.i,
            pc: self.pc,
            stack: self.stack@,
            sp: self.sp as nat,
            delay_timer: self.delay_timer,
            sound_timer: self.sound_timer,
            screen: self.screen@,
            dirty: self.draw_flag,
            keys: self.key@,
            status: self.status,
        }
    }
}

impl Chip8 {
    #[verifier::type_invariant]
    spec fn inv(&self) -> bool {
        self@.wf()
    }

    /// A machine with everything at zero, set to run from [`PROGRAM_START`].
    pub fn new() -> (chip: Chip8)
        ensures
            chip@ == power_on(),
            chip@.wf(),
    {
        Chip8 {
            memory: [0; 4096],
            v: [0; 16],
            i: 0,
            pc: PROGRAM_START,
            screen: [0; 2048],
            draw_flag: false,
            status: Status::Running,
            delay_timer: 0,
            sound_timer: 0,
            stack: [0; 16],
            sp: 0,
            key: [0; 16],
        }
    }

    /// Prepares the machine for a program: puts the font in low memory.
    pub fn initialize(&mut self)
        ensures
            final(self)@ == with_bytes(old(self)@, FONT@, 0),
    {
        self.load_font();
    }

    /// Writes the font glyphs to memory from address 0 on, so that the glyph
    /// of digit `d` starts at address `5 * d`.
    pub fn load_font(&mut self)
        ensures
            final(self)@ == with_bytes(old(self)@, FONT@, 0),
    {
        let font: [u8; 80] = FONT;
        let _ = self.load(&font, 0);
    }

    /// Copies `bytes` into memory from address `offset` on. Bytes that do not
    /// fit are refused as a whole: nothing is written then.
    pub fn load(&mut self, bytes: &[u8], offset: usize) -> (result: Result<(), Fault>)
        ensures
            result is Ok <==> offset + bytes@.len() <= MEMORY_SIZE,
            result is Ok ==> final(self)@ == with_bytes(old(self)@, bytes@, offset as int),
            result is Err ==> result == Err::<(), Fault>(Fault::LoadOverflow) && final(self)@
                == old(self)@,
    {
        proof {
            use_type_invariant(&*self);
        }
        if offset > MEMORY_SIZE || bytes.len() > MEMORY_SIZE - offset {
            return Err(Fault::LoadOverflow);
        }
        let mut k: usize = 0;
        while k < bytes.len()
            invariant
                k <= bytes@.len(),
                offset + bytes@.len() <= MEMORY_SIZE,
                self@.wf(),
                self@ == with_bytes(old(self)@, bytes@.take(k as int), offset as int),
            decreases bytes@.len() - k,
        {
            self.memory[offset + k] = bytes[k];
            k += 1;
        }
        assert(bytes@.take(k as int) =~= bytes@);
        Ok(())
    }

    /// Loads a program at [`PROGRAM_START`].
    pub fn load_rom(&mut self, rom: &[u8]) -> (result: Result<(), Fault>)
        ensures
            result is Ok <==> PROGRAM_START + rom@.len() <= MEMORY_SIZE,
            result is Ok ==> final(self)@ == with_bytes(
                old(self)@,
                rom@,
                PROGRAM_START as int,
            ),
            result is Err ==> result == Err::<(), Fault>(Fault::LoadOverflow) && final(self)@
                == old(self)@,
    {
        self.load(rom, PROGRAM_START as usize)
    }

    /// Moves the program counter to the next instruction.
    fn next_instruction(&mut self)
        requires
            fetchable(old(self)@.pc),
            !old(self)@.waiting(),
        ensures
            final(self)@ == old(self)@.advance(),
    {
        proof {
            use_type_invariant(&*self);
        }
        self.pc = self.pc + 2;
    }

    /// Moves past this instruction and, if `cond` holds, past the next one too.
    fn skip_if(&mut self, cond: bool)
        requires
            fetchable(old(self)@.pc),
            !old(self)@.waiting(),
        ensures
            final(self)@ == old(self)@.skip_if(cond),
    {
        proof {
            use_type_invariant(&*self);
        }
        if cond {
            self.pc = self.pc + 2;
        }
        self.pc = self.pc + 2;
    }

    /// Reads the instruction word at the program counter.
    fn read_opcode(&self) -> (op: u16)
        requires
            fetchable(self@.pc),
        ensures
            op == self@.opcode(),
    {
        let at: usize = self.pc as usize;
        join(self.memory[at], self.memory[at + 1])
    }

    /// Turns every cell of the display off.
    fn clear_screenbuf(&mut self)
        ensures
            final(self)@ == (Machine {
                screen: Seq::new(SCREEN_CELLS as nat, |p: int| 0u8),
                ..old(self)@
            }),
    {
        proof {
            use_type_invariant(&*self);
        }
        self.screen = [0; 2048];
    }

    /// Counts both timers down by one, unless at zero. Tells whether the sound
    /// timer ran out in doing so.
    fn update_timers(&mut self) -> (beep: bool)
        ensures
            final(self)@ == old(self)@.tick(),
            beep == (old(self)@.sound_timer == 1),
    {
        proof {
            use_type_invariant(&*self);
        }
        if self.delay_timer > 0 {
            self.delay_timer = self.delay_timer - 1;
        }
        let beep: bool = self.sound_timer == 1;
        if self.sound_timer > 0 {
            self.sound_timer = self.sound_timer - 1;
        }
        beep
    }
}

} // verus!
