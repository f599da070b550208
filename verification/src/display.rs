//! The display as a renderer sees it: which cells to paint.

use vstd::prelude::*;
use crate::machine::{SCREEN_CELLS, SCREEN_HEIGHT, SCREEN_WIDTH};

verus! {

/// The lit cells among the first `n` cells of `screen`, in reading order, each
/// as its column and its row.
pub open spec fn lit_cells(screen: Seq<u8>, n: nat) -> Seq<(u8, u8)>
    decreases n,
{
    if n == 0 {
        Seq::empty()
    } else {
        let p = (n - 1) as nat;
        let before = lit_cells(screen, p);
        if screen[p as int] == 1 {
            before.push(((p % SCREEN_WIDTH as nat) as u8, (p / SCREEN_WIDTH as nat) as u8))
        } else {
            before
        }
    }
}

/// Lists the lit cells of a display buffer, row by row from the top and each
/// row from the left, each as its column and its row.
pub fn lit(screen: &[u8; 2048]) -> (cells: Vec<(u8, u8)>)
    ensures
        cells@ == lit_cells(screen@, SCREEN_CELLS as nat),
{
    let mut cells: Vec<(u8, u8)> = Vec::new();
    let mut y: usize = 0;
    while y < SCREEN_HEIGHT
        invariant
            y <= SCREEN_HEIGHT,
            cells@ == lit_cells(screen@, (y * SCREEN_WIDTH) as nat),
        decreases SCREEN_HEIGHT - y,
    {
        let mut x: usize = 0;
        while x < SCREEN_WIDTH
            invariant
                y < SCREEN_HEIGHT,
                x <= SCREEN_WIDTH,
                cells@ == lit_cells(screen@, (x + y * SCREEN_WIDTH) as nat),
            decreases SCREEN_WIDTH - x,
        {
            let index: usize = x + y * SCREEN_WIDTH;
            assert(index % SCREEN_WIDTH == x && index / SCREEN_WIDTH == y);
            if screen[index] == 1 {
                cells.push((x as u8, y as u8));
            }
            x += 1;
        }
        y += 1;
    }
    cells
}

/// Every listed cell lies on the display and is lit, and cells are listed in
/// reading order.
pub proof fn lemma_lit_cells(screen: Seq<u8>, n: nat)
    requires
        n <= SCREEN_CELLS,
    ensures
        lit_cells(screen, n).len() <= n,
        forall|k: int|
            0 <= k < lit_cells(screen, n).len() ==> {
                let cell = #[trigger] lit_cells(screen, n)[k];
                &&& cell.0 < SCREEN_WIDTH
                &&& cell.1 < SCREEN_HEIGHT
                &&& cell.0 + cell.1 * SCREEN_WIDTH < n
                &&& screen[cell.0 + cell.1 * SCREEN_WIDTH] == 1
            },
        forall|p: int|
            0 <= p < n && screen[p] == 1 ==> lit_cells(screen, n).contains(
                ((p % SCREEN_WIDTH as int) as u8, (p / SCREEN_WIDTH as int) as u8),
            ),
    decreases n,
{
    if n > 0 {
        let p = (n - 1) as nat;
        lemma_lit_cells(screen, p);
        let before = lit_cells(screen, p);
        let now = lit_cells(screen, n);
        assert forall|q: int| 0 <= q < n && screen[q] == 1 implies now.contains(
            ((q % SCREEN_WIDTH as int) as u8, (q / SCREEN_WIDTH as int) as u8),
        ) by {
            let cell = ((q % SCREEN_WIDTH as int) as u8, (q / SCREEN_WIDTH as int) as u8);
            if q < p {
                let k = choose|k: int| 0 <= k < before.len() && before[k] == cell;
                assert(now[k] == cell);
            } else {
                assert(now[now.len() - 1] == cell);
            }
        }
    }
}

} // verus!
