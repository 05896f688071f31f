//! The top-level interaction mode: editing the board, or letting the
//! simulation run. While editing there is a sub-mode; only `Drawing` is
//! reachable today, `Moving` is reserved for view panning and no transition
//! ever enters it.

use vstd::prelude::*;

verus! {

/// Sub-mode while in the editor. `Moving` is intentionally absent from every
/// transition: it is a placeholder for pan/scroll functionality.
#[derive(Debug, Copy, Clone, PartialEq, Eq, Structural)]
pub enum EditorMode {
    Drawing,
    Moving,
}

/// The interaction state machine's state. It starts at `Editor(Drawing)` and
/// cycles between editing and simulating via [`toggled`].
#[derive(Debug, Copy, Clone, PartialEq, Eq, Structural)]
pub enum Mode {
    Simulation,
    Editor(EditorMode),
}

/// The one mode transition: any editor sub-mode enters the simulation, and
/// leaving the simulation always lands back in `Editor(Drawing)` — a
/// deliberate reset, not a restore of the previous sub-mode.
pub open spec fn toggled(m: Mode) -> Mode {
    match m {
        Mode::Editor(_) => Mode::Simulation,
        Mode::Simulation => Mode::Editor(EditorMode::Drawing),
    }
}

} // verus!
