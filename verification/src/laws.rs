//! Laws of the machine: what holds of the instruction set in every
//! well-formed state, proved from the definitions in [`crate::instruction`].

use vstd::prelude::*;
use crate::instruction::{
    alu, call, draw, execute, keypad, misc, report, resume, step, system,
};
use crate::machine::{
    fetchable, with_bytes, Cycle, Fault, Machine, Status, FLAG_REGISTER, SCREEN_WIDTH,
};
use crate::opcode::{family, kk_of, n_of, nnn_of, x_of, y_of};
use crate::sprite::{lemma_blit_binary, lemma_blit_twice};

verus! {

/// Moving the program counter keeps a running machine well formed.
proof fn lemma_pc_wf(m: Machine, pc: u16)
    requires
        m.wf(),
        !m.waiting(),
    ensures
        (Machine { pc, ..m }).wf(),
{
}

/// Writing a register keeps the state well formed.
proof fn lemma_register_wf(m: Machine, x: int, value: u8)
    requires
        m.wf(),
        0 <= x < 16,
    ensures
        m.with_register(x, value).wf(),
        m.with_register(x, value).waiting() == m.waiting(),
{
}

/// A family-0 instruction keeps the state well formed.
proof fn lemma_system_wf(m: Machine, n: int)
    requires
        m.wf(),
        !m.waiting(),
    ensures
        system(m, n) matches Ok(next) ==> next.wf(),
{
}

/// A call keeps the state well formed.
proof fn lemma_call_wf(m: Machine, nnn: u16)
    requires
        m.wf(),
        !m.waiting(),
        fetchable(m.pc),
    ensures
        call(m, nnn) matches Ok(next) ==> next.wf(),
{
}

/// An arithmetic instruction keeps the state well formed.
proof fn lemma_alu_wf(m: Machine, x: int, y: int, n: int)
    requires
        m.wf(),
        !m.waiting(),
        0 <= x < 16,
        0 <= y < 16,
    ensures
        alu(m, x, y, n).wf(),
        !alu(m, x, y, n).waiting(),
{
}

/// A draw keeps the state well formed: cells stay 0 or 1.
proof fn lemma_draw_wf(m: Machine, x: int, y: int, n: int)
    requires
        m.wf(),
        !m.waiting(),
        0 <= x < 16,
        0 <= y < 16,
    ensures
        draw(m, x, y, n) matches Ok(next) ==> next.wf(),
{
    lemma_blit_binary(m.screen, m.sprite(n), m.reg(x) as int, m.reg(y) as int);
}

/// A family-F instruction keeps the state well formed.
proof fn lemma_misc_wf(m: Machine, x: int, kk: u8)
    requires
        m.wf(),
        !m.waiting(),
        fetchable(m.pc),
        0 <= x < 16,
    ensures
        misc(m, x, kk) matches Ok(next) ==> next.wf(),
{
}

/// Executing an instruction on a running machine keeps the state well formed.
pub proof fn law_execute_wf(m: Machine, op: u16, random: u8)
    requires
        m.wf(),
        !m.waiting(),
    ensures
        execute(m, op, random) matches Ok(next) ==> next.wf(),
{
    let f = family(op);
    let x = x_of(op);
    let y = y_of(op);
    let n = n_of(op);
    let kk = kk_of(op);
    let nnn = nnn_of(op);
    if !fetchable(m.pc) {
    } else if f == 0x0 {
        lemma_system_wf(m, n);
    } else if f == 0x1 {
        lemma_pc_wf(m, nnn);
    } else if f == 0x2 {
        lemma_call_wf(m, nnn);
    } else if f == 0x3 || f == 0x4 || f == 0x5 || f == 0x9 {
        lemma_pc_wf(m, (m.pc + 2) as u16);
        lemma_pc_wf(m, (m.pc + 4) as u16);
    } else if f == 0x6 {
        lemma_register_wf(m, x, kk);
        lemma_pc_wf(m.with_register(x, kk), (m.pc + 2) as u16);
    } else if f == 0x7 {
        let value = ((m.reg(x) + kk) % 256) as u8;
        lemma_register_wf(m, x, value);
        lemma_pc_wf(m.with_register(x, value), (m.pc + 2) as u16);
    } else if f == 0x8 {
        lemma_alu_wf(m, x, y, n);
        lemma_pc_wf(alu(m, x, y, n), (m.pc + 2) as u16);
    } else if f == 0xA {
        lemma_pc_wf(Machine { index: nnn, ..m }, (m.pc + 2) as u16);
    } else if f == 0xB {
        lemma_pc_wf(m, (nnn + m.reg(0)) as u16);
    } else if f == 0xC {
        lemma_register_wf(m, x, random & kk);
        lemma_pc_wf(m.with_register(x, random & kk), (m.pc + 2) as u16);
    } else if f == 0xD {
        lemma_draw_wf(m, x, y, n);
    } else if f == 0xE {
        lemma_pc_wf(m, (m.pc + 2) as u16);
        lemma_pc_wf(m, (m.pc + 4) as u16);
    } else {
        lemma_misc_wf(m, x, kk);
    }
}

/// A cycle keeps the state well formed.
pub proof fn law_step_wf(m: Machine, random: u8)
    requires
        m.wf(),
    ensures
        step(m, random).wf(),
{
    if !m.waiting() {
        law_execute_wf(m, m.opcode(), random);
    }
}

/// Loading bytes changes memory only, and so keeps the state well formed.
pub proof fn law_load_wf(m: Machine, bytes: Seq<u8>, offset: int)
    requires
        m.wf(),
    ensures
        with_bytes(m, bytes, offset).wf(),
        forall|a: int|
            0 <= a < m.memory.len() && !(offset <= a < offset + bytes.len()) ==> with_bytes(
                m,
                bytes,
                offset,
            ).memory[a] == m.memory[a],
        forall|k: int|
            0 <= k < bytes.len() && 0 <= offset + k < m.memory.len() ==> with_bytes(
                m,
                bytes,
                offset,
            ).memory[offset + k] == bytes[k],
{
}

/// Handing over a key keeps the state well formed.
pub proof fn law_resume_wf(m: Machine, value: u8)
    requires
        m.wf(),
    ensures
        resume(m, value).wf(),
{
}

/// A register that is loaded with a constant holds that constant afterwards:
/// after the instruction `6xkk`, register `x` reads `kk`.
pub proof fn law_load_then_read(m: Machine, random: u8)
    requires
        m.wf(),
        !m.waiting(),
        fetchable(m.pc),
        family(m.opcode()) == 0x6,
    ensures
        step(m, random).reg(x_of(m.opcode())) == kk_of(m.opcode()),
        report(m, random) == Ok::<Cycle, Fault>(
            Cycle { ran: true, beep: m.sound_timer == 1, unknown: false },
        ),
{
}

/// Addition `8xy4` is modulo 256, and the flag is 1 exactly when the true sum
/// does not fit in a byte. The flag is written last, so it is the carry even
/// where the flag register is the destination.
pub proof fn law_add_carry(m: Machine, x: int, y: int)
    requires
        m.wf(),
        0 <= x < 16,
        0 <= y < 16,
    ensures
        alu(m, x, y, 0x4).reg(FLAG_REGISTER as int) == (if m.reg(x) + m.reg(y) >= 256 {
            1u8
        } else {
            0u8
        }),
        x != FLAG_REGISTER ==> alu(m, x, y, 0x4).reg(x) == (m.reg(x) + m.reg(y)) % 256,
        forall|r: int|
            0 <= r < 16 && r != x && r != FLAG_REGISTER ==> alu(m, x, y, 0x4).reg(r) == m.reg(r),
{
}

/// Subtraction `8xy5` raises the flag exactly when register `x` exceeds
/// register `y`, and `8xy7` exactly when register `y` exceeds register `x`;
/// the difference is modulo 256. The flag register itself is left out as
/// destination, where the difference overwrites the flag, and as operand,
/// where the flag is written before it is read.
pub proof fn law_sub_borrow(m: Machine, x: int, y: int)
    requires
        m.wf(),
        0 <= x < 16,
        0 <= y < 16,
        x != FLAG_REGISTER,
    ensures
        alu(m, x, y, 0x5).reg(FLAG_REGISTER as int) == (if m.reg(x) > m.reg(y) {
            1u8
        } else {
            0u8
        }),
        alu(m, x, y, 0x7).reg(FLAG_REGISTER as int) == (if m.reg(y) > m.reg(x) {
            1u8
        } else {
            0u8
        }),
        y != FLAG_REGISTER ==> alu(m, x, y, 0x5).reg(x) == (m.reg(x) - m.reg(y)) % 256,
        y != FLAG_REGISTER ==> alu(m, x, y, 0x7).reg(x) == (m.reg(y) - m.reg(x)) % 256,
{
}

/// The program counter and every saved return address are even.
pub open spec fn aligned(m: Machine) -> bool {
    &&& m.pc % 2 == 0
    &&& forall|i: int| 1 <= i <= m.sp ==> #[trigger] m.stack[i] % 2 == 0
}

/// The instruction at the program counter is a jump, a call or a jump with
/// offset whose target is an odd address.
pub open spec fn jumps_to_odd(m: Machine) -> bool {
    let op = m.opcode();
    ||| (family(op) == 0x1 || family(op) == 0x2) && nnn_of(op) % 2 == 1
    ||| family(op) == 0xB && (nnn_of(op) + m.reg(0)) % 2 == 1
}

/// `next` has the stack of `m` and its program counter `by` bytes further on.
pub open spec fn moved(m: Machine, next: Machine, by: int) -> bool {
    next.stack == m.stack && next.sp == m.sp && next.pc == m.pc + by
}

/// An arithmetic instruction touches neither program counter nor stack.
proof fn lemma_alu_moved(m: Machine, x: int, y: int, n: int)
    ensures
        moved(m, alu(m, x, y, n), 0),
{
}

/// A draw moves on to the next instruction.
proof fn lemma_draw_moved(m: Machine, x: int, y: int, n: int)
    requires
        fetchable(m.pc),
    ensures
        draw(m, x, y, n) matches Ok(next) ==> moved(m, next, 2),
{
}

/// A family-F instruction moves on to the next instruction, or stays to wait
/// for a key.
proof fn lemma_misc_moved(m: Machine, x: int, kk: u8)
    requires
        fetchable(m.pc),
    ensures
        misc(m, x, kk) matches Ok(next) ==> moved(m, next, 0) || moved(m, next, 2),
{
}

/// A keypad skip moves on by one or by two instructions.
proof fn lemma_keypad_moved(m: Machine, x: int, kk: u8)
    requires
        fetchable(m.pc),
    ensures
        moved(m, keypad(m, x, kk), 2) || moved(m, keypad(m, x, kk), 4),
{
}

/// A machine that kept its stack and moved by an even number of bytes, or to
/// an even address, is still aligned.
proof fn lemma_moved_aligned(m: Machine, next: Machine, by: int)
    requires
        aligned(m),
        moved(m, next, by),
        by % 2 == 0,
    ensures
        aligned(next),
        aligned(next.tick()),
{
}

/// Executing an instruction that does not jump to an odd address keeps the
/// machine aligned, and unless it jumps, calls or returns it moves the program
/// counter by 0, 2 or 4.
proof fn lemma_execute_aligned(m: Machine, op: u16, random: u8)
    requires
        m.wf(),
        aligned(m),
        fetchable(m.pc),
        !((family(op) == 0x1 || family(op) == 0x2) && nnn_of(op) % 2 == 1),
        !(family(op) == 0xB && (nnn_of(op) + m.reg(0)) % 2 == 1),
    ensures
        execute(m, op, random) matches Ok(next) ==> {
            &&& aligned(next)
            &&& {
                ||| family(op) == 0x1
                ||| family(op) == 0x2
                ||| family(op) == 0xB
                ||| family(op) == 0x0 && n_of(op) == 0xE
                ||| next.pc == m.pc
                ||| next.pc == m.pc + 2
                ||| next.pc == m.pc + 4
            }
        },
{
    let f = family(op);
    let x = x_of(op);
    let y = y_of(op);
    let n = n_of(op);
    let kk = kk_of(op);
    let nnn = nnn_of(op);
    if f == 0x0 {
        if n == 0xE {
            if m.sp > 0 {
                assert(m.stack[m.sp as int] % 2 == 0);
            }
        }
    } else if f == 0x1 {
    } else if f == 0x2 {
        if call(m, nnn) is Ok {
            let next = call(m, nnn)->Ok_0;
            assert forall|i: int| 1 <= i <= next.sp implies #[trigger] next.stack[i] % 2
                == 0 by {
                if i <= m.sp {
                    assert(m.stack[i] % 2 == 0);
                }
            }
        }
    } else if f == 0x3 || f == 0x4 || f == 0x5 || f == 0x9 || f == 0x6 || f == 0x7 || f == 0xA
        || f == 0xB || f == 0xC {
    } else if f == 0x8 {
        lemma_alu_moved(m, x, y, n);
        lemma_moved_aligned(m, alu(m, x, y, n).advance(), 2);
    } else if f == 0xD {
        lemma_draw_moved(m, x, y, n);
        if draw(m, x, y, n) is Ok {
            let next = draw(m, x, y, n)->Ok_0;
            lemma_moved_aligned(m, next, 2);
        }
    } else if f == 0xE {
        lemma_keypad_moved(m, x, kk);
        if moved(m, keypad(m, x, kk), 2) {
            lemma_moved_aligned(m, keypad(m, x, kk), 2);
        } else {
            lemma_moved_aligned(m, keypad(m, x, kk), 4);
        }
    } else {
        lemma_misc_moved(m, x, kk);
        if misc(m, x, kk) is Ok {
            let next = misc(m, x, kk)->Ok_0;
            if moved(m, next, 0) {
                lemma_moved_aligned(m, next, 0);
            } else {
                lemma_moved_aligned(m, next, 2);
            }
        }
    }
}

/// A cycle never leaves the program counter odd: it moves it by 0, 2 or 4, or
/// sets it to a jump target or a return address. Jumps to odd targets are left
/// out, since they store what the instruction word says.
pub proof fn law_step_aligned(m: Machine, random: u8)
    requires
        m.wf(),
        aligned(m),
        m.waiting() || !fetchable(m.pc) || !jumps_to_odd(m),
    ensures
        aligned(step(m, random)),
        m.waiting() || !fetchable(m.pc) || {
            ||| family(m.opcode()) == 0x1
            ||| family(m.opcode()) == 0x2
            ||| family(m.opcode()) == 0xB
            ||| family(m.opcode()) == 0x0 && n_of(m.opcode()) == 0xE
            ||| step(m, random).pc == m.pc
            ||| step(m, random).pc == m.pc + 2
            ||| step(m, random).pc == m.pc + 4
        },
{
    if !m.waiting() && fetchable(m.pc) {
        lemma_execute_aligned(m, m.opcode(), random);
        if execute(m, m.opcode(), random) is Ok {
            let next = execute(m, m.opcode(), random)->Ok_0;
            lemma_moved_aligned(next, next.tick(), 0);
        }
    }
}

/// Handing over a key never leaves the program counter odd.
pub proof fn law_resume_aligned(m: Machine, value: u8)
    requires
        m.wf(),
        aligned(m),
    ensures
        aligned(resume(m, value)),
{
}

/// Drawing the same sprite twice at the same place restores the display, and
/// a single draw changes no cell outside the rectangle of eight columns and
/// `n` rows that starts at the sprite's corner. The flag register is left out
/// as holder of a coordinate: the first draw would overwrite it and so move
/// the second.
pub proof fn law_draw_twice(m: Machine, op: u16, r1: u8, r2: u8)
    requires
        m.wf(),
        family(op) == 0xD,
        x_of(op) != FLAG_REGISTER,
        y_of(op) != FLAG_REGISTER,
        execute(m, op, r1) is Ok,
        execute(execute(m, op, r1)->Ok_0, op, r2) is Ok,
    ensures
        execute(execute(m, op, r1)->Ok_0, op, r2)->Ok_0.screen == m.screen,
        forall|p: int|
            0 <= p < m.screen.len() && !(m.reg(x_of(op)) <= p % (SCREEN_WIDTH as int) < m.reg(
                x_of(op),
            ) + 8 && m.reg(y_of(op)) <= p / (SCREEN_WIDTH as int) < m.reg(y_of(op)) + n_of(op))
                ==> (#[trigger] execute(m, op, r1)->Ok_0.screen[p]) == m.screen[p],
{
    let once = execute(m, op, r1)->Ok_0;
    let x0 = m.reg(x_of(op)) as int;
    let y0 = m.reg(y_of(op)) as int;
    let n = n_of(op);
    assert(once.sprite(n) =~= m.sprite(n));
    lemma_blit_twice(m.screen, m.sprite(n), x0, y0);
}

/// A call followed by a return resumes at the instruction after the call,
/// with the stack pointer where it was before the call.
pub proof fn law_call_return(m: Machine, call_op: u16, return_op: u16, r1: u8, r2: u8)
    requires
        m.wf(),
        family(call_op) == 0x2,
        family(return_op) == 0x0,
        n_of(return_op) == 0xE,
        execute(m, call_op, r1) is Ok,
        execute(execute(m, call_op, r1)->Ok_0, return_op, r2) is Ok,
    ensures
        execute(execute(m, call_op, r1)->Ok_0, return_op, r2)->Ok_0 == (Machine {
            pc: (m.pc + 2) as u16,
            stack: m.stack.update(m.sp as int + 1, m.pc),
            ..m
        }),
        execute(execute(m, call_op, r1)->Ok_0, return_op, r2)->Ok_0.pc == m.pc + 2,
        execute(execute(m, call_op, r1)->Ok_0, return_op, r2)->Ok_0.sp == m.sp,
{
}

/// After the wait-for-key instruction `Fx0A` the machine is suspended: cycles
/// change nothing, timers included, until a key is handed over. Then register
/// `x` holds the key and execution goes on after the instruction that waited.
pub proof fn law_wait_for_key(m: Machine, random: u8, later: u8, key: u8)
    requires
        m.wf(),
        !m.waiting(),
        fetchable(m.pc),
        family(m.opcode()) == 0xF,
        kk_of(m.opcode()) == 0x0A,
    ensures
        step(m, random).status == (Status::WaitingForKey { register: x_of(m.opcode()) as u8 }),
        step(m, random).pc == m.pc,
        step(step(m, random), later) == step(m, random),
        report(step(m, random), later) == Ok::<Cycle, Fault>(
            Cycle { ran: false, beep: false, unknown: false },
        ),
        resume(step(m, random), key).reg(x_of(m.opcode())) == key,
        resume(step(m, random), key).status == Status::Running,
        resume(step(m, random), key).pc == m.pc + 2,
{
}

} // verus!
