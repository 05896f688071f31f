//! The library's general guarantees, stated once over the same spec model
//! that the executable contracts use, and proved for every board, every
//! mode and every input — not just for chosen examples.

use vstd::prelude::*;

use crate::controller::{
    action_after_event, consumed_action, mode_after, write_point, InputAction, InputEvent,
    PixelPoint,
};
use crate::engine::{alive_at, neighbor_count, next_board, step_cell, wf_board, Cell};
use crate::mode::{toggled, Mode};

verus! {

/// Hard-edged neighbor counting at the corner `(0, 0)`: only the 3 in-bounds
/// neighbor positions can contribute, the 5 out-of-bounds offsets count as
/// `Dead` rather than wrapping to the opposite edge, and so the count never
/// exceeds 3.
pub proof fn lemma_corner_neighbor_count(b: Seq<Seq<Cell>>)
    ensures
        neighbor_count(b, 0, 0) == alive_at(b, 1, 0) + alive_at(b, 0, 1) + alive_at(b, 1, 1),
        neighbor_count(b, 0, 0) <= 3,
{
}

/// The birth rule: a `Dead` cell with exactly 3 alive neighbors is born
/// `Alive` by the next generation; with 2 or with 4 it stays `Dead`.
pub proof fn lemma_birth_rule(b: Seq<Seq<Cell>>, w: nat, h: nat, x: int, y: int)
    requires
        wf_board(b, w, h),
        0 <= x < w,
        0 <= y < h,
        b[y][x] == Cell::Dead,
    ensures
        neighbor_count(b, x, y) == 3 ==> next_board(b)[y][x] == Cell::Alive,
        neighbor_count(b, x, y) == 2 ==> next_board(b)[y][x] == Cell::Dead,
        neighbor_count(b, x, y) == 4 ==> next_board(b)[y][x] == Cell::Dead,
{
}

/// Double-buffer purity: the advanced board is well formed, and every one
/// of its cells is the rule applied to the pre-advance snapshot alone — the
/// old cell and a neighbor count taken against that same snapshot — so no
/// cell written in a pass feeds into any other cell of the same pass.
pub proof fn lemma_generation_from_snapshot(b: Seq<Seq<Cell>>, w: nat, h: nat, x: int, y: int)
    requires
        wf_board(b, w, h),
        0 <= x < w,
        0 <= y < h,
    ensures
        wf_board(next_board(b), w, h),
        next_board(b)[y][x] == step_cell(b[y][x], neighbor_count(b, x, y)),
{
}

/// Editing writes through: a queued point whose target cell is in bounds
/// really mutates the board — under `PlaceAlive` the targeted cell is
/// `Alive` afterwards, and every other cell keeps its state.
pub proof fn lemma_place_alive_writes(
    b: Seq<Seq<Cell>>,
    w: nat,
    h: nat,
    p: PixelPoint,
    cell_size: usize,
)
    requires
        wf_board(b, w, h),
        cell_size > 0,
        (p.x as int) / (cell_size as int) < w,
        (p.y as int) / (cell_size as int) < h,
    ensures
        write_point(b, p, InputAction::PlaceAlive, cell_size)[(p.y as int) / (cell_size as int)][(
        p.x as int) / (cell_size as int)] == Cell::Alive,
        forall|yy: int, xx: int|
            0 <= yy < h && 0 <= xx < w && !(yy == (p.y as int) / (cell_size as int) && xx == (
            p.x as int) / (cell_size as int)) ==> #[trigger] write_point(
                b,
                p,
                InputAction::PlaceAlive,
                cell_size,
            )[yy][xx] == b[yy][xx],
{
    assert((p.x as int) / (cell_size as int) >= 0) by (nonlinear_arith)
        requires
            p.x >= 0,
            cell_size > 0,
    ;
    assert((p.y as int) / (cell_size as int) >= 0) by (nonlinear_arith)
        requires
            p.y >= 0,
            cell_size > 0,
    ;
}

/// The action toggle-latch: with anything but `PlaceAlive` latched, a
/// primary-button press latches `PlaceAlive`, and a second press with no
/// intervening control clears the action back to `Idle`.
pub proof fn lemma_primary_toggle_latch(a: InputAction)
    requires
        a != InputAction::PlaceAlive,
    ensures
        action_after_event(a, InputEvent::PrimaryButtonPressed) == InputAction::PlaceAlive,
        action_after_event(
            action_after_event(a, InputEvent::PrimaryButtonPressed),
            InputEvent::PrimaryButtonPressed,
        ) == InputAction::Idle,
{
}

/// Pause is one-shot: the pause key latches `Pause`; the interaction tick
/// that consumes it toggles the mode exactly once and resets the action to
/// `Idle`, so any further tick before a new event leaves the mode where
/// that single toggle put it.
pub proof fn lemma_pause_one_shot(m: Mode, a: InputAction)
    ensures
        action_after_event(a, InputEvent::PauseKeyPressed) == InputAction::Pause,
        mode_after(m, InputAction::Pause) == toggled(m),
        toggled(m) != m,
        consumed_action(InputAction::Pause) == InputAction::Idle,
        mode_after(toggled(m), consumed_action(InputAction::Pause)) == toggled(m),
{
}

} // verus!
