//! Drawing sprites onto the display.

use vstd::prelude::*;
use crate::chip8::Chip8;
use crate::instruction::{carried_out, draw};
use crate::machine::{
    fetchable, Fault, Machine, MEMORY_SIZE, SCREEN_CELLS, SCREEN_HEIGHT, SCREEN_WIDTH,
};
use crate::sprite::{
    blit, blit_before, collides, collides_before, lemma_blit_cell, lemma_blit_end,
    lemma_blit_row_end, lemma_blit_start, lemma_flip,
};

verus! {

impl Chip8 {
    /// XORs the `n`-row sprite at the index register onto the display, its
    /// top left corner in column `x0` of row `y0`. Tells whether a lit cell
    /// was turned off.
    fn xor_sprite(&mut self, x0: usize, y0: usize, n: usize) -> (hit: bool)
        requires
            x0 < 256,
            y0 < 256,
            n < 16,
            n == 0 || old(self)@.index + n <= MEMORY_SIZE,
        ensures
            final(self)@ == (Machine {
                screen: blit(
                    old(self)@.screen,
                    old(self)@.sprite(n as int),
                    x0 as int,
                    y0 as int,
                ),
                ..old(self)@
            }),
            hit == collides(old(self)@.screen, old(self)@.sprite(n as int), x0 as int, y0 as int),
    {
        proof {
            use_type_invariant(&*self);
        }
        let ghost origin = self@.screen;
        let ghost rows = self@.sprite(n as int);
        let at: usize = self.i as usize;
        let mut hit: bool = false;
        let mut r: usize = 0;
        proof {
            lemma_blit_start(origin, rows, x0 as int, y0 as int);
        }
        while r < n
            invariant
                r <= n < 16,
                x0 < 256,
                y0 < 256,
                at == old(self)@.index,
                n == 0 || at + n <= MEMORY_SIZE,
                origin == old(self)@.screen,
                rows == old(self)@.sprite(n as int),
                rows.len() == n,
                self@.wf(),
                self@ == (Machine {
                    screen: blit_before(origin, rows, x0 as int, y0 as int, r as int, 0),
                    ..old(self)@
                }),
                hit == collides_before(origin, rows, x0 as int, y0 as int, r as int, 0),
            decreases n - r,
        {
            let line: u8 = self.memory[at + r];
            assert(line == rows[r as int]);
            let mut c: u8 = 0;
            while c < 8
                invariant
                    c <= 8,
                    r < n < 16,
                    x0 < 256,
                    y0 < 256,
                    origin == old(self)@.screen,
                    origin.len() == SCREEN_CELLS,
                    rows.len() == n,
                    line == rows[r as int],
                    self@.wf(),
                    self@ == (Machine {
                        screen: blit_before(
                            origin,
                            rows,
                            x0 as int,
                            y0 as int,
                            r as int,
                            c as int,
                        ),
                        ..old(self)@
                    }),
                    hit == collides_before(origin, rows, x0 as int, y0 as int, r as int, c as int),
                decreases 8 - c,
            {
                proof {
                    lemma_blit_cell(origin, rows, x0 as int, y0 as int, r as int, c as int);
                }
                if (line >> (7 - c)) & 1 != 0 && x0 + (c as usize) < SCREEN_WIDTH && y0 + r
                    < SCREEN_HEIGHT {
                    let target: usize = x0 + c as usize + (y0 + r) * SCREEN_WIDTH;
                    let cell: u8 = self.screen[target];
                    proof {
                        lemma_flip(cell);
                    }
                    if cell == 1 {
                        hit = true;
                    }
                    self.screen[target] = cell ^ 1;
                }
                c += 1;
            }
            proof {
                lemma_blit_row_end(origin, rows, x0 as int, y0 as int, r as int);
            }
            r += 1;
        }
        proof {
            lemma_blit_end(origin, rows, x0 as int, y0 as int);
        }
        hit
    }

    /// Executes the draw instruction: the `n`-row sprite at the index register
    /// goes to the cell whose column is in register `x` and whose row is in
    /// register `y`.
    pub(super) fn exec_draw(&mut self, x: usize, y: usize, n: usize) -> (result: Result<
        (),
        Fault,
    >)
        requires
            x < 16,
            y < 16,
            n < 16,
            fetchable(old(self)@.pc),
            !old(self)@.waiting(),
        ensures
            carried_out(
                draw(old(self)@, x as int, y as int, n as int),
                old(self)@,
                final(self)@,
                result,
            ),
    {
        proof {
            use_type_invariant(&*self);
        }
        if n > 0 && self.i as usize + n > MEMORY_SIZE {
            return Err(Fault::AddressOutOfRange);
        }
        let x0: usize = self.get_v(x) as usize;
        let y0: usize = self.get_v(y) as usize;
        let hit: bool = self.xor_sprite(x0, y0, n);
        proof {
            use_type_invariant(&*self);
        }
        self.draw_flag = true;
        self.set_flag(hit);
        self.next_instruction();
        Ok(())
    }
}

} // verus!
