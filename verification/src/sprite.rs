//! Sprites and how they are drawn.
//!
//! A sprite is a column of bytes, one per row, each byte eight cells wide with
//! its most significant bit leftmost. Drawing XORs the sprite onto the display:
//! every set bit flips the cell under it. Cells that would fall beyond the
//! right or the bottom edge are dropped; nothing wraps around.

use vstd::prelude::*;
use crate::machine::{SCREEN_CELLS, SCREEN_HEIGHT, SCREEN_WIDTH};

verus! {

/// Bit `col` of a sprite row is set, columns counted from the left.
pub open spec fn row_bit(row: u8, col: int) -> bool
    recommends
        0 <= col < 8,
{
    (row >> ((7 - col) as u8)) & 1u8 != 0u8
}

/// The sprite `rows`, placed with its top left corner in column `x0` of row
/// `y0`, has a set bit over cell `p` of the display.
pub open spec fn paints(rows: Seq<u8>, x0: int, y0: int, p: int) -> bool {
    let col = p % (SCREEN_WIDTH as int) - x0;
    let row = p / (SCREEN_WIDTH as int) - y0;
    &&& 0 <= p < SCREEN_CELLS
    &&& 0 <= col < 8
    &&& 0 <= row < rows.len()
    &&& row_bit(rows[row], col)
}

/// The display after the sprite has been drawn on `screen`.
pub open spec fn blit(screen: Seq<u8>, rows: Seq<u8>, x0: int, y0: int) -> Seq<u8> {
    Seq::new(
        screen.len(),
        |p: int|
            if paints(rows, x0, y0, p) {
                screen[p] ^ 1u8
            } else {
                screen[p]
            },
    )
}

/// Drawing the sprite on `screen` turns off a cell that was lit.
pub open spec fn collides(screen: Seq<u8>, rows: Seq<u8>, x0: int, y0: int) -> bool {
    exists|p: int| #[trigger] paints(rows, x0, y0, p) && screen[p] == 1
}

/// The sprite has a set bit over cell `p`, and that bit comes before bit `c`
/// of row `r` when the sprite is read row by row, each row from the left.
pub open spec fn paints_before(rows: Seq<u8>, x0: int, y0: int, r: int, c: int, p: int) -> bool {
    let col = p % (SCREEN_WIDTH as int) - x0;
    let row = p / (SCREEN_WIDTH as int) - y0;
    paints(rows, x0, y0, p) && (row < r || (row == r && col < c))
}

/// The display after the part of the sprite before bit `c` of row `r` has
/// been drawn on `screen`.
pub open spec fn blit_before(
    screen: Seq<u8>,
    rows: Seq<u8>,
    x0: int,
    y0: int,
    r: int,
    c: int,
) -> Seq<u8> {
    Seq::new(
        screen.len(),
        |p: int|
            if paints_before(rows, x0, y0, r, c, p) {
                screen[p] ^ 1u8
            } else {
                screen[p]
            },
    )
}

/// Drawing the part of the sprite before bit `c` of row `r` on `screen` turns
/// off a cell that was lit.
pub open spec fn collides_before(
    screen: Seq<u8>,
    rows: Seq<u8>,
    x0: int,
    y0: int,
    r: int,
    c: int,
) -> bool {
    exists|p: int| #[trigger] paints_before(rows, x0, y0, r, c, p) && screen[p] == 1
}

/// Before its first bit, no part of the sprite has been drawn.
pub proof fn lemma_blit_start(screen: Seq<u8>, rows: Seq<u8>, x0: int, y0: int)
    ensures
        blit_before(screen, rows, x0, y0, 0, 0) == screen,
        !collides_before(screen, rows, x0, y0, 0, 0),
{
    assert(blit_before(screen, rows, x0, y0, 0, 0) =~= screen);
}

/// What bit `c` of row `r` adds to the drawing: if it is set and lands on the
/// display, the one cell under it is flipped; otherwise nothing.
pub proof fn lemma_blit_cell(screen: Seq<u8>, rows: Seq<u8>, x0: int, y0: int, r: int, c: int)
    requires
        screen.len() == SCREEN_CELLS,
        0 <= x0,
        0 <= y0,
        0 <= r < rows.len(),
        0 <= c < 8,
    ensures
        ({
            let target = x0 + c + (y0 + r) * SCREEN_WIDTH;
            let before = blit_before(screen, rows, x0, y0, r, c);
            let after = blit_before(screen, rows, x0, y0, r, c + 1);
            let hit_before = collides_before(screen, rows, x0, y0, r, c);
            let hit_after = collides_before(screen, rows, x0, y0, r, c + 1);
            if row_bit(rows[r], c) && x0 + c < SCREEN_WIDTH && y0 + r < SCREEN_HEIGHT {
                &&& 0 <= target < SCREEN_CELLS
                &&& before[target] == screen[target]
                &&& after == before.update(target, screen[target] ^ 1u8)
                &&& hit_after <==> hit_before || screen[target] == 1
            } else {
                &&& after == before
                &&& hit_after <==> hit_before
            }
        }),
{
    let target = x0 + c + (y0 + r) * SCREEN_WIDTH;
    let before = blit_before(screen, rows, x0, y0, r, c);
    let after = blit_before(screen, rows, x0, y0, r, c + 1);
    let on = row_bit(rows[r], c) && x0 + c < SCREEN_WIDTH && y0 + r < SCREEN_HEIGHT;
    assert forall|p: int|
        paints_before(rows, x0, y0, r, c + 1, p) <==> paints_before(rows, x0, y0, r, c, p) || (on
            && p == target) by {
        if on && p == target {
            assert(p % (SCREEN_WIDTH as int) == x0 + c);
            assert(p / (SCREEN_WIDTH as int) == y0 + r);
        }
    }
    if on {
        assert(!paints_before(rows, x0, y0, r, c, target));
        assert(after =~= before.update(target, screen[target] ^ 1u8));
        assert(paints_before(rows, x0, y0, r, c + 1, target));
    } else {
        assert(after =~= before);
    }
    if collides_before(screen, rows, x0, y0, r, c) {
        let p = choose|p: int| #[trigger]
            paints_before(rows, x0, y0, r, c, p) && screen[p] == 1;
        assert(paints_before(rows, x0, y0, r, c + 1, p));
    }
    if collides_before(screen, rows, x0, y0, r, c + 1) {
        let p = choose|p: int| #[trigger]
            paints_before(rows, x0, y0, r, c + 1, p) && screen[p] == 1;
        assert(paints_before(rows, x0, y0, r, c, p) || (on && p == target));
    }
}

/// Past the last bit of a row comes the first bit of the next one.
pub proof fn lemma_blit_row_end(screen: Seq<u8>, rows: Seq<u8>, x0: int, y0: int, r: int)
    ensures
        blit_before(screen, rows, x0, y0, r, 8) == blit_before(screen, rows, x0, y0, r + 1, 0),
        collides_before(screen, rows, x0, y0, r, 8) == collides_before(
            screen,
            rows,
            x0,
            y0,
            r + 1,
            0,
        ),
{
    assert forall|p: int|
        paints_before(rows, x0, y0, r, 8, p) == paints_before(rows, x0, y0, r + 1, 0, p) by {}
    assert(blit_before(screen, rows, x0, y0, r, 8) =~= blit_before(
        screen,
        rows,
        x0,
        y0,
        r + 1,
        0,
    ));
    if collides_before(screen, rows, x0, y0, r, 8) {
        let p = choose|p: int| #[trigger]
            paints_before(rows, x0, y0, r, 8, p) && screen[p] == 1;
        assert(paints_before(rows, x0, y0, r + 1, 0, p));
    }
    if collides_before(screen, rows, x0, y0, r + 1, 0) {
        let p = choose|p: int| #[trigger]
            paints_before(rows, x0, y0, r + 1, 0, p) && screen[p] == 1;
        assert(paints_before(rows, x0, y0, r, 8, p));
    }
}

/// Past its last row, the whole sprite has been drawn.
pub proof fn lemma_blit_end(screen: Seq<u8>, rows: Seq<u8>, x0: int, y0: int)
    ensures
        blit_before(screen, rows, x0, y0, rows.len() as int, 0) == blit(screen, rows, x0, y0),
        collides_before(screen, rows, x0, y0, rows.len() as int, 0) == collides(
            screen,
            rows,
            x0,
            y0,
        ),
{
    let n = rows.len() as int;
    assert forall|p: int| paints_before(rows, x0, y0, n, 0, p) == paints(rows, x0, y0, p) by {}
    assert(blit_before(screen, rows, x0, y0, n, 0) =~= blit(screen, rows, x0, y0));
    if collides_before(screen, rows, x0, y0, n, 0) {
        let p = choose|p: int| #[trigger] paints_before(rows, x0, y0, n, 0, p) && screen[p] == 1;
        assert(paints(rows, x0, y0, p));
    }
    if collides(screen, rows, x0, y0) {
        let p = choose|p: int| #[trigger] paints(rows, x0, y0, p) && screen[p] == 1;
        assert(paints_before(rows, x0, y0, n, 0, p));
    }
}

/// Flipping a cell keeps it a cell, and flipping it twice restores it.
pub proof fn lemma_flip(cell: u8)
    ensures
        (cell ^ 1u8) ^ 1u8 == cell,
        cell <= 1 ==> cell ^ 1u8 <= 1,
        cell == 1 ==> cell ^ 1u8 == 0,
        cell == 0 ==> cell ^ 1u8 == 1,
{
    assert((cell ^ 1u8) ^ 1u8 == cell) by (bit_vector);
    assert(cell <= 1 ==> cell ^ 1u8 <= 1) by (bit_vector);
    assert(cell == 1 ==> cell ^ 1u8 == 0) by (bit_vector);
    assert(cell == 0 ==> cell ^ 1u8 == 1) by (bit_vector);
}

/// Drawing the same sprite twice at the same place restores the display.
pub proof fn lemma_blit_twice(screen: Seq<u8>, rows: Seq<u8>, x0: int, y0: int)
    ensures
        blit(blit(screen, rows, x0, y0), rows, x0, y0) == screen,
{
    let once = blit(screen, rows, x0, y0);
    let twice = blit(once, rows, x0, y0);
    assert forall|p: int| 0 <= p < screen.len() implies twice[p] == screen[p] by {
        lemma_flip(screen[p]);
    }
    assert(twice =~= screen);
}

/// Drawing changes no cell outside the rectangle that the sprite covers, and
/// none at all outside the display.
pub proof fn lemma_blit_outside(screen: Seq<u8>, rows: Seq<u8>, x0: int, y0: int, p: int)
    requires
        0 <= p < screen.len(),
        !(x0 <= p % (SCREEN_WIDTH as int) < x0 + 8 && y0 <= p / (SCREEN_WIDTH as int) < y0
            + rows.len()),
    ensures
        blit(screen, rows, x0, y0)[p] == screen[p],
{
}

/// Drawing keeps every cell of the display at 0 or 1.
pub proof fn lemma_blit_binary(screen: Seq<u8>, rows: Seq<u8>, x0: int, y0: int)
    requires
        forall|p: int| 0 <= p < screen.len() ==> #[trigger] screen[p] <= 1,
    ensures
        blit(screen, rows, x0, y0).len() == screen.len(),
        forall|p: int|
            0 <= p < screen.len() ==> #[trigger] blit(screen, rows, x0, y0)[p] <= 1,
{
    assert forall|p: int| 0 <= p < screen.len() implies #[trigger] blit(
        screen,
        rows,
        x0,
        y0,
    )[p] <= 1 by {
        lemma_flip(screen[p]);
    }
}

} // verus!
