//! The mathematical model of the interpreter: every contract in this crate is
//! stated over a [`Machine`], the ghost image of the executable state.

use vstd::prelude::*;

verus! {

/// Number of bytes of addressable memory.
pub const MEMORY_SIZE: usize = 4096;

/// Number of general-purpose registers.
pub const REGISTER_COUNT: usize = 16;

/// Number of slots in the return-address stack.
pub const STACK_SIZE: usize = 16;

/// Number of keys on the hexadecimal keypad.
pub const KEY_COUNT: usize = 16;

/// Width of the display, in cells.
pub const SCREEN_WIDTH: usize = 64;

/// Height of the display, in cells.
pub const SCREEN_HEIGHT: usize = 32;

/// Number of cells of the display.
pub const SCREEN_CELLS: usize = 2048;

/// Address at which programs are conventionally loaded and started.
pub const PROGRAM_START: u16 = 512;

/// Index of the register that doubles as carry, borrow and collision flag.
///
/// Ordinary instructions read and write it like any other register; the
/// arithmetic, shift and draw instructions overwrite it as a side effect.
pub const FLAG_REGISTER: usize = 15;

/// Whether the machine is executing or suspended until a key arrives.
#[derive(Clone, Copy, Debug, PartialEq, Eq, Structural)]
pub enum Status {
    /// Instructions are fetched and executed.
    Running,
    /// Execution is suspended; the next key goes to register `register`.
    WaitingForKey { register: u8 },
}

/// The conditions under which the machine refuses to go on.
#[derive(Clone, Copy, Debug, PartialEq, Eq, Structural)]
pub enum Fault {
    /// The program counter does not address a whole instruction in memory.
    PcOutOfRange,
    /// An instruction would read or write memory past its end.
    AddressOutOfRange,
    /// A block of bytes does not fit in memory at the requested offset.
    LoadOverflow,
    /// A call was made with the return-address stack full.
    StackOverflow,
    /// A return was made with the return-address stack empty.
    StackUnderflow,
}

/// What one cycle signals to the code that drives the machine.
#[derive(Clone, Copy, Debug, PartialEq, Eq, Structural)]
pub struct Cycle {
    /// An instruction was fetched and executed; false while waiting for a key.
    pub ran: bool,
    /// The sound timer ticked from 1 to 0 in this cycle.
    pub beep: bool,
    /// The instruction word was not recognised and was treated as a no-op.
    pub unknown: bool,
}

/// The state of the machine as plain mathematical values.
#[verifier::ext_equal]
pub struct Machine {
    /// The unified address space.
    pub memory: Seq<u8>,
    /// The sixteen general-purpose registers; the last one is also the flag.
    pub registers: Seq<u8>,
    /// The address register used by memory-relative instructions.
    pub index: u16,
    /// Address of the next instruction to fetch.
    pub pc: u16,
    /// Saved return addresses; slots `1..=sp` are in use.
    pub stack: Seq<u16>,
    /// Index of the top of the stack, 0 when it is empty.
    pub sp: nat,
    /// Counts down to zero, one per cycle.
    pub delay_timer: u8,
    /// Counts down to zero, one per cycle.
    pub sound_timer: u8,
    /// The display, row by row, one cell per byte, each 0 or 1.
    pub screen: Seq<u8>,
    /// A draw instruction ran since the flag was last taken.
    pub dirty: bool,
    /// The keypad as last reported; a non-zero entry is a key held down.
    pub keys: Seq<u8>,
    /// Running, or waiting for a key.
    pub status: Status,
}

impl Machine {
    /// The shape every reachable state has.
    pub open spec fn wf(self) -> bool {
        &&& self.memory.len() == MEMORY_SIZE
        &&& self.registers.len() == REGISTER_COUNT
        &&& self.stack.len() == STACK_SIZE
        &&& self.screen.len() == SCREEN_CELLS
        &&& self.keys.len() == KEY_COUNT
        &&& self.sp < STACK_SIZE
        &&& forall|i: int| 1 <= i <= self.sp ==> fetchable(#[trigger] self.stack[i])
        &&& forall|p: int| 0 <= p < SCREEN_CELLS ==> #[trigger] self.screen[p] <= 1
        &&& match self.status {
            Status::Running => true,
            Status::WaitingForKey { register } => register < REGISTER_COUNT && self.pc
                < MEMORY_SIZE,
        }
    }

    /// The machine is suspended until a key arrives.
    pub open spec fn waiting(self) -> bool {
        self.status is WaitingForKey
    }

    /// The instruction word at the program counter, high byte first.
    pub open spec fn opcode(self) -> u16
        recommends
            fetchable(self.pc),
    {
        word(self.memory[self.pc as int], self.memory[self.pc + 1])
    }

    /// Key `k` is held down. There is no key beyond the sixteenth.
    pub open spec fn pressed(self, k: u8) -> bool {
        k < KEY_COUNT && self.keys[k as int] != 0
    }

    /// The cell in column `x` of row `y` is lit.
    pub open spec fn lit(self, x: int, y: int) -> bool
        recommends
            0 <= x < SCREEN_WIDTH,
            0 <= y < SCREEN_HEIGHT,
    {
        self.screen[x + y * SCREEN_WIDTH] == 1
    }
}

/// A whole two-byte instruction can be read at `pc`.
pub open spec fn fetchable(pc: u16) -> bool {
    pc + 1 < MEMORY_SIZE
}

/// The sixteen-bit word with high byte `hi` and low byte `lo`.
pub open spec fn word(hi: u8, lo: u8) -> u16 {
    (hi * 256 + lo) as u16
}

/// The state a machine is created in: everything zero, ready to run at
/// [`PROGRAM_START`].
pub open spec fn power_on() -> Machine {
    Machine {
        memory: Seq::new(MEMORY_SIZE as nat, |a: int| 0u8),
        registers: Seq::new(REGISTER_COUNT as nat, |i: int| 0u8),
        index: 0,
        pc: PROGRAM_START,
        stack: Seq::new(STACK_SIZE as nat, |i: int| 0u16),
        sp: 0,
        delay_timer: 0,
        sound_timer: 0,
        screen: Seq::new(SCREEN_CELLS as nat, |p: int| 0u8),
        dirty: false,
        keys: Seq::new(KEY_COUNT as nat, |k: int| 0u8),
        status: Status::Running,
    }
}

/// `m` with `bytes` copied over its memory from address `offset` on.
pub open spec fn with_bytes(m: Machine, bytes: Seq<u8>, offset: int) -> Machine {
    Machine {
        memory: Seq::new(
            m.memory.len(),
            |a: int|
                if offset <= a < offset + bytes.len() {
                    bytes[a - offset]
                } else {
                    m.memory[a]
                },
        ),
        ..m
    }
}

} // verus!
