//! The grid engine: a fixed-size, hard-edged Game of Life board with
//! double-buffered generation advancement.
//!
//! The engine owns two boards. `current_board` is the authoritative
//! generation; `new_board` is write-only scratch used while a generation is
//! computed, and is kept all-`Dead` at rest. A generation advance writes
//! every cell of the scratch board purely from the `current_board` snapshot,
//! swaps the two buffers, and re-zeroes the new scratch.

use vstd::prelude::*;
use vstd::pervasive::VecAdditionalExecFns;

use crate::mode::{EditorMode, Mode, toggled};

verus! {

/// The binary state of one board position. A value type: no identity beyond
/// its coordinate.
#[derive(Debug, Copy, Clone, PartialEq, Eq, Structural)]
pub enum Cell {
    Dead,
    Alive,
}

/// The mathematical reading of a board: a sequence of rows, outer index `y`,
/// inner index `x`.
pub open spec fn board_view(b: Vec<Vec<Cell>>) -> Seq<Seq<Cell>> {
    Seq::new(b@.len(), |y: int| b@[y]@)
}

/// A board is well formed for dimensions `w` x `h` when it has exactly `h`
/// rows of exactly `w` cells each: every in-bounds coordinate has a defined
/// cell, and nothing is sparse.
pub open spec fn wf_board(b: Seq<Seq<Cell>>, w: nat, h: nat) -> bool {
    b.len() == h && forall|y: int| 0 <= y < h ==> (#[trigger] b[y]).len() == w
}

/// 1 when `(x, y)` is in bounds and holds an `Alive` cell, else 0. An
/// out-of-bounds coordinate contributes 0: the edge is hard, never wrapping.
pub open spec fn alive_at(b: Seq<Seq<Cell>>, x: int, y: int) -> nat {
    if 0 <= y < b.len() && 0 <= x < b[y].len() && b[y][x] == Cell::Alive {
        1nat
    } else {
        0nat
    }
}

/// The number of `Alive` cells among the 8 grid-adjacent offsets of
/// `(x, y)`. Offsets falling outside the board count as `Dead`.
pub open spec fn neighbor_count(b: Seq<Seq<Cell>>, x: int, y: int) -> nat {
    alive_at(b, x - 1, y - 1) + alive_at(b, x, y - 1) + alive_at(b, x + 1, y - 1)
        + alive_at(b, x - 1, y) + alive_at(b, x + 1, y) + alive_at(b, x - 1, y + 1)
        + alive_at(b, x, y + 1) + alive_at(b, x + 1, y + 1)
}

/// The standard rule applied to one cell with `n` alive neighbors: an
/// `Alive` cell survives exactly with 2 or 3 neighbors, a `Dead` cell is
/// born exactly with 3.
pub open spec fn step_cell(c: Cell, n: nat) -> Cell {
    match c {
        Cell::Alive => if n == 2 || n == 3 {
            Cell::Alive
        } else {
            Cell::Dead
        },
        Cell::Dead => if n == 3 {
            Cell::Alive
        } else {
            Cell::Dead
        },
    }
}

/// The whole next generation, every cell computed from the snapshot `b`
/// alone — no cell of the result feeds into any other.
pub open spec fn next_board(b: Seq<Seq<Cell>>) -> Seq<Seq<Cell>> {
    Seq::new(b.len(), |y: int| Seq::new(b[y].len(), |x: int| step_cell(b[y][x], neighbor_count(b, x, y))))
}

/// Every in-bounds cell of `b` is `Dead`.
pub open spec fn all_dead(b: Seq<Seq<Cell>>) -> bool {
    forall|y: int, x: int| 0 <= y < b.len() && 0 <= x < b[y].len() ==> #[trigger] b[y][x] == Cell::Dead
}

/// The simulation state: the authoritative board, the scratch board, the
/// interaction mode, and the board dimensions in cells.
#[derive(Debug)]
pub struct Conway {
    current_board: Vec<Vec<Cell>>,
    new_board: Vec<Vec<Cell>>,
    mode: Mode,
    width: usize,
    height: usize,
}

impl Conway {
    /// The authoritative board, as read by every neighbor count and by the
    /// presentation layer.
    pub closed spec fn current(&self) -> Seq<Seq<Cell>> {
        board_view(self.current_board)
    }

    /// The scratch board written during a generation advance; all `Dead` at
    /// rest.
    pub closed spec fn scratch(&self) -> Seq<Seq<Cell>> {
        board_view(self.new_board)
    }

    /// The current interaction mode.
    pub closed spec fn mode(&self) -> Mode {
        self.mode
    }

    /// The board width in cells.
    pub closed spec fn width_spec(&self) -> usize {
        self.width
    }

    /// The board height in cells.
    pub closed spec fn height_spec(&self) -> usize {
        self.height
    }

    /// Both boards have exactly the configured dimensions.
    pub open spec fn wf(&self) -> bool {
        &&& wf_board(self.current(), self.width_spec() as nat, self.height_spec() as nat)
        &&& wf_board(self.scratch(), self.width_spec() as nat, self.height_spec() as nat)
    }

    /// The rest invariant: well formed, and the scratch board is fully
    /// zeroed, ready for the next advance.
    pub open spec fn inv(&self) -> bool {
        self.wf() && all_dead(self.scratch())
    }

    /// A fresh engine: both boards all `Dead`, mode `Editor(Drawing)`.
    pub fn new(width: usize, height: usize) -> (r: Self)
        ensures
            r.inv(),
            r.width_spec() == width,
            r.height_spec() == height,
            all_dead(r.current()),
            r.mode() == Mode::Editor(EditorMode::Drawing),
    {
        let current_board = dead_board(width, height);
        let new_board = dead_board(width, height);
        Conway { current_board, new_board, mode: Mode::Editor(EditorMode::Drawing), width, height }
    }

    /// Whether `(x, y)` lies outside the board. Callers translating cursor
    /// positions use this to discard coordinates before writing cells.
    pub fn out_of_bounds(&self, x: usize, y: usize) -> (r: bool)
        ensures
            r == (x >= self.width_spec() || y >= self.height_spec()),
    {
        x >= self.width || y >= self.height
    }

    /// Whether the in-bounds cell `(x, y)` of the current board is alive.
    fn cell_is_alive(&self, x: usize, y: usize) -> (r: bool)
        requires
            self.wf(),
            x < self.width_spec(),
            y < self.height_spec(),
        ensures
            r == (self.current()[y as int][x as int] == Cell::Alive),
    {
        match self.current_board[y][x] {
            Cell::Alive => true,
            Cell::Dead => false,
        }
    }

    /// Counts the alive cells among the 8 neighbors of `(x, y)` in the
    /// current board, treating every out-of-bounds offset as `Dead` — the
    /// edge is hard, nothing wraps to the opposite side.
    pub fn count_neighbors(&self, x: usize, y: usize) -> (n: usize)
        requires
            self.wf(),
            x < self.width_spec(),
            y < self.height_spec(),
        ensures
            n == neighbor_count(self.current(), x as int, y as int),
    {
        let mut n: usize = 0;
        if x > 0 && y > 0 && self.cell_is_alive(x - 1, y - 1) {
            n = n + 1;
        }
        if y > 0 && self.cell_is_alive(x, y - 1) {
            n = n + 1;
        }
        if x + 1 < self.width && y > 0 && self.cell_is_alive(x + 1, y - 1) {
            n = n + 1;
        }
        if x > 0 && self.cell_is_alive(x - 1, y) {
            n = n + 1;
        }
        if x + 1 < self.width && self.cell_is_alive(x + 1, y) {
            n = n + 1;
        }
        if x > 0 && y + 1 < self.height && self.cell_is_alive(x - 1, y + 1) {
            n = n + 1;
        }
        if y + 1 < self.height && self.cell_is_alive(x, y + 1) {
            n = n + 1;
        }
        if x + 1 < self.width && y + 1 < self.height && self.cell_is_alive(x + 1, y + 1) {
            n = n + 1;
        }
        n
    }

    /// Advances the board by one generation: every scratch cell is computed
    /// purely from the pre-advance `current` snapshot, the buffers are
    /// swapped, and the new scratch is re-zeroed. The swap is the sole
    /// commit point; no cell written this pass is read by the same pass.
    #[verifier::loop_isolation(false)]
    pub fn update_board_state(&mut self)
        requires
            old(self).inv(),
        ensures
            final(self).inv(),
            final(self).current() == next_board(old(self).current()),
            final(self).mode() == old(self).mode(),
            final(self).width_spec() == old(self).width_spec(),
            final(self).height_spec() == old(self).height_spec(),
    {
        let ghost b0 = self.current();
        proof {
            assert forall|yy: int| 0 <= yy < self.height implies (
            #[trigger] self.new_board@[yy])@.len() == self.width by {
                assert(self.scratch()[yy] == self.new_board@[yy]@);
            }
        }
        let mut y: usize = 0;
        while y < self.height
            invariant
                y <= self.height,
                *self == (Conway { new_board: self.new_board, ..*old(self) }),
                self.new_board@.len() == self.height,
                forall|yy: int| 0 <= yy < self.height ==> (#[trigger] self.new_board@[yy])@.len()
                    == self.width,
                forall|yy: int| 0 <= yy < y ==> #[trigger] self.new_board@[yy]@ == next_board(
                    b0,
                )[yy],
            decreases self.height - y,
        {
            let mut row: Vec<Cell> = Vec::new();
            let mut x: usize = 0;
            while x < self.width
                invariant
                    x <= self.width,
                    y < self.height,
                    row@.len() == x,
                    forall|xx: int| 0 <= xx < x ==> row@[xx] == step_cell(b0[y as int][xx], neighbor_count(b0, xx, y as int)),
                decreases self.width - x,
            {
                let n = self.count_neighbors(x, y);
                let next_cell = match self.current_board[y][x] {
                    Cell::Alive => if n == 2 || n == 3 {
                        Cell::Alive
                    } else {
                        Cell::Dead
                    },
                    Cell::Dead => if n == 3 {
                        Cell::Alive
                    } else {
                        Cell::Dead
                    },
                };
                row.push(next_cell);
                x = x + 1;
            }
            proof {
                assert(b0[y as int].len() == self.width);
                assert(row@ =~= next_board(b0)[y as int]);
            }
            self.new_board.set(y, row);
            y = y + 1;
        }
        proof {
            assert forall|yy: int| 0 <= yy < self.height implies #[trigger] self.scratch()[yy]
                == next_board(b0)[yy] by {
                assert(self.scratch()[yy] == self.new_board@[yy]@);
            }
            assert(self.scratch() =~= next_board(b0));
        }
        core::mem::swap(&mut self.current_board, &mut self.new_board);
        proof {
            assert forall|yy: int| 0 <= yy < self.height implies (
            #[trigger] self.current()[yy]).len() == self.width by {
                assert(self.current()[yy] == next_board(b0)[yy]);
                assert(b0[yy].len() == self.width);
            }
            assert(wf_board(self.current(), self.width as nat, self.height as nat));
            assert(self.scratch() =~= b0);
            assert(wf_board(self.scratch(), self.width as nat, self.height as nat));
        }
        self.clear_new_board();
    }

    /// Re-zeroes the scratch board row by row with a safe bulk fill.
    #[verifier::loop_isolation(false)]
    fn clear_new_board(&mut self)
        requires
            old(self).wf(),
        ensures
            final(self).wf(),
            all_dead(final(self).scratch()),
            final(self).current() == old(self).current(),
            final(self).mode() == old(self).mode(),
            final(self).width_spec() == old(self).width_spec(),
            final(self).height_spec() == old(self).height_spec(),
    {
        proof {
            assert forall|yy: int| 0 <= yy < self.height implies (
            #[trigger] self.new_board@[yy])@.len() == self.width by {
                assert(self.scratch()[yy] == self.new_board@[yy]@);
            }
        }
        let mut y: usize = 0;
        while y < self.height
            invariant
                y <= self.height,
                *self == (Conway { new_board: self.new_board, ..*old(self) }),
                self.new_board@.len() == self.height,
                forall|yy: int| 0 <= yy < self.height ==> (#[trigger] self.new_board@[yy])@.len()
                    == self.width,
                forall|yy: int, xx: int|
                    0 <= yy < y && 0 <= xx < self.width ==> #[trigger] self.new_board@[yy]@[xx]
                        == Cell::Dead,
            decreases self.height - y,
        {
            let row = dead_row(self.width);
            self.new_board.set(y, row);
            y = y + 1;
        }
        proof {
            assert forall|yy: int| 0 <= yy < self.height implies (
            #[trigger] self.scratch()[yy]).len() == self.width by {
                assert(self.scratch()[yy] == self.new_board@[yy]@);
            }
            assert(wf_board(self.scratch(), self.width as nat, self.height as nat));
            assert forall|yy: int, xx: int|
                0 <= yy < self.scratch().len() && 0 <= xx < self.scratch()[yy].len() implies
                #[trigger] self.scratch()[yy][xx] == Cell::Dead by {
                assert(self.scratch()[yy] == self.new_board@[yy]@);
            }
            assert(all_dead(self.scratch()));
        }
    }

    /// Writes one cell of the current board directly; the caller has already
    /// bounds-checked the coordinate.
    pub fn set_cell(&mut self, x: usize, y: usize, cell: Cell)
        requires
            old(self).inv(),
            x < old(self).width_spec(),
            y < old(self).height_spec(),
        ensures
            final(self).inv(),
            final(self).current() == old(self).current().update(
                y as int,
                old(self).current()[y as int].update(x as int, cell),
            ),
            final(self).scratch() == old(self).scratch(),
            final(self).mode() == old(self).mode(),
            final(self).width_spec() == old(self).width_spec(),
            final(self).height_spec() == old(self).height_spec(),
    {
        let mut row: Vec<Cell> = Vec::new();
        self.current_board.set_and_swap(y, &mut row);
        proof {
            assert(old(self).current()[y as int] == old(self).current_board@[y as int]@);
        }
        row.set(x, cell);
        self.current_board.set_and_swap(y, &mut row);
        proof {
            assert forall|yy: int| 0 <= yy < self.current_board@.len() implies
                #[trigger] self.current()[yy] == self.current_board@[yy]@ by {}
            assert forall|yy: int| 0 <= yy < self.current_board@.len() implies
                #[trigger] old(self).current()[yy] == old(self).current_board@[yy]@ by {}
            assert(self.current() =~~= old(self).current().update(
                y as int,
                old(self).current()[y as int].update(x as int, cell),
            ));
        }
    }

    /// Flips between editing and simulating; leaving the simulation always
    /// lands in `Editor(Drawing)`.
    pub fn toggle_mode(&mut self)
        ensures
            final(self).mode() == toggled(old(self).mode()),
            final(self).current() == old(self).current(),
            final(self).scratch() == old(self).scratch(),
            final(self).width_spec() == old(self).width_spec(),
            final(self).height_spec() == old(self).height_spec(),
            old(self).inv() ==> final(self).inv(),
    {
        self.mode = match self.mode {
            Mode::Editor(_) => Mode::Simulation,
            Mode::Simulation => Mode::Editor(EditorMode::Drawing),
        };
    }

    /// One simulation tick: advances a generation only while in
    /// `Simulation` mode; in the editor it does nothing at all.
    pub fn update(&mut self)
        requires
            old(self).inv(),
        ensures
            final(self).inv(),
            final(self).mode() == old(self).mode(),
            final(self).width_spec() == old(self).width_spec(),
            final(self).height_spec() == old(self).height_spec(),
            old(self).mode() == Mode::Simulation ==> final(self).current() == next_board(
                old(self).current(),
            ),
            old(self).mode() != Mode::Simulation ==> *final(self) == *old(self),
    {
        if let Mode::Editor(_) = self.mode {
            return ;
        }
        self.update_board_state();
    }

    /// The cell at an in-bounds coordinate of the current board.
    pub fn cell(&self, x: usize, y: usize) -> (r: Cell)
        requires
            self.inv(),
            x < self.width_spec(),
            y < self.height_spec(),
        ensures
            r == self.current()[y as int][x as int],
    {
        self.current_board[y][x]
    }

    /// A read-only view of the current board for the presentation layer.
    pub fn snapshot(&self) -> (r: &Vec<Vec<Cell>>)
        ensures
            board_view(*r) == self.current(),
    {
        &self.current_board
    }

    /// The board width in cells.
    pub fn width(&self) -> (r: usize)
        ensures
            r == self.width_spec(),
    {
        self.width
    }

    /// The board height in cells.
    pub fn height(&self) -> (r: usize)
        ensures
            r == self.height_spec(),
    {
        self.height
    }

    /// The current interaction mode, for mode-dependent UI.
    pub fn get_mode(&self) -> (r: Mode)
        ensures
            r == self.mode(),
    {
        self.mode
    }
}

/// A row of `width` `Dead` cells.
fn dead_row(width: usize) -> (r: Vec<Cell>)
    ensures
        r@.len() == width,
        forall|x: int| 0 <= x < width ==> r@[x] == Cell::Dead,
{
    let mut row: Vec<Cell> = Vec::new();
    let mut x: usize = 0;
    while x < width
        invariant
            x <= width,
            row@.len() == x,
            forall|xx: int| 0 <= xx < x ==> row@[xx] == Cell::Dead,
        decreases width - x,
    {
        row.push(Cell::Dead);
        x = x + 1;
    }
    row
}

/// A `width` x `height` board of `Dead` cells.
fn dead_board(width: usize, height: usize) -> (r: Vec<Vec<Cell>>)
    ensures
        wf_board(board_view(r), width as nat, height as nat),
        all_dead(board_view(r)),
{
    let mut b: Vec<Vec<Cell>> = Vec::new();
    let mut y: usize = 0;
    while y < height
        invariant
            y <= height,
            b@.len() == y,
            forall|yy: int| 0 <= yy < y ==> (#[trigger] b@[yy])@.len() == width,
            forall|yy: int, xx: int|
                0 <= yy < y && 0 <= xx < width ==> #[trigger] b@[yy]@[xx] == Cell::Dead,
        decreases height - y,
    {
        let row = dead_row(width);
        b.push(row);
        y = y + 1;
    }
    proof {
        assert forall|yy: int| 0 <= yy < height implies (#[trigger] board_view(b)[yy]).len()
            == width by {
            assert(board_view(b)[yy] == b@[yy]@);
        }
        assert(wf_board(board_view(b), width as nat, height as nat));
        assert forall|yy: int, xx: int|
            0 <= yy < board_view(b).len() && 0 <= xx < board_view(b)[yy].len() implies
            #[trigger] board_view(b)[yy][xx] == Cell::Dead by {
            assert(board_view(b)[yy] == b@[yy]@);
        }
        assert(all_dead(board_view(b)));
    }
    b
}

} // verus!
