//! The mode controller: the pending input action, the per-tick queue of
//! cursor points, and the interaction tick that turns both into board
//! mutations or a mode transition.
//!
//! The presentation layer translates raw device input into the four
//! [`InputEvent`] signals; everything that decides what those signals mean
//! happens here.

use vstd::prelude::*;

use crate::engine::{Cell, Conway};
use crate::mode::{EditorMode, Mode, toggled};

verus! {

/// The pending action latched by the mouse buttons, or a pending pause.
/// `PlaceAlive` and `PlaceDead` are toggle latches: they stay active across
/// ticks until toggled off or displaced by the other.
#[derive(Debug, Copy, Clone, PartialEq, Eq, Structural)]
pub enum InputAction {
    PlaceAlive,
    PlaceDead,
    Pause,
    Idle,
}

/// A cursor position in pixel space, already truncated to whole pixels.
#[derive(Debug, Copy, Clone, PartialEq, Eq, Structural)]
pub struct PixelPoint {
    pub x: usize,
    pub y: usize,
}

/// One abstract input signal from the presentation layer.
#[derive(Debug, Copy, Clone, PartialEq, Eq, Structural)]
pub enum InputEvent {
    CursorMoved { x: usize, y: usize },
    PrimaryButtonPressed,
    SecondaryButtonPressed,
    PauseKeyPressed,
}

/// How one event changes the latched action: the primary button toggles
/// `PlaceAlive`, the secondary toggles `PlaceDead` (each displacing the
/// other), the pause key latches `Pause`, and cursor motion leaves the
/// action alone.
pub open spec fn action_after_event(a: InputAction, e: InputEvent) -> InputAction {
    match e {
        InputEvent::PrimaryButtonPressed => if a == InputAction::PlaceAlive {
            InputAction::Idle
        } else {
            InputAction::PlaceAlive
        },
        InputEvent::SecondaryButtonPressed => if a == InputAction::PlaceDead {
            InputAction::Idle
        } else {
            InputAction::PlaceDead
        },
        InputEvent::PauseKeyPressed => InputAction::Pause,
        InputEvent::CursorMoved { .. } => a,
    }
}

/// How one event changes the point queue: cursor motion queues a point
/// unless the simulation is running; nothing else touches the queue.
pub open spec fn points_after_event(pts: Seq<PixelPoint>, m: Mode, e: InputEvent) -> Seq<
    PixelPoint,
> {
    match e {
        InputEvent::CursorMoved { x, y } => if m == Mode::Simulation {
            pts
        } else {
            pts.push(PixelPoint { x, y })
        },
        _ => pts,
    }
}

/// The mode after an interaction tick: a pending `Pause` toggles it, any
/// other action leaves it.
pub open spec fn mode_after(m: Mode, a: InputAction) -> Mode {
    if a == InputAction::Pause {
        toggled(m)
    } else {
        m
    }
}

/// The action after an interaction tick consumed it: `Pause` is one-shot
/// and resets to `Idle`; the place latches persist.
pub open spec fn consumed_action(a: InputAction) -> InputAction {
    if a == InputAction::Pause {
        InputAction::Idle
    } else {
        a
    }
}

/// The board after writing the cell targeted by one queued pixel point:
/// the point maps to a cell by integer division by the cell pixel size, an
/// out-of-bounds target is discarded, and only the two place actions write.
pub open spec fn write_point(b: Seq<Seq<Cell>>, p: PixelPoint, a: InputAction, cell_size: usize) -> Seq<
    Seq<Cell>,
> {
    let cx = (p.x as int) / (cell_size as int);
    let cy = (p.y as int) / (cell_size as int);
    if 0 <= cy < b.len() && 0 <= cx < b[cy].len() {
        match a {
            InputAction::PlaceAlive => b.update(cy, b[cy].update(cx, Cell::Alive)),
            InputAction::PlaceDead => b.update(cy, b[cy].update(cx, Cell::Dead)),
            _ => b,
        }
    } else {
        b
    }
}

/// The board after draining a whole point queue under one action.
pub open spec fn apply_points(
    b: Seq<Seq<Cell>>,
    pts: Seq<PixelPoint>,
    a: InputAction,
    cell_size: usize,
) -> Seq<Seq<Cell>>
    decreases pts.len(),
{
    if pts.len() == 0 {
        b
    } else {
        write_point(apply_points(b, pts.drop_last(), a, cell_size), pts.last(), a, cell_size)
    }
}

/// The per-tick input state the presentation layer feeds events into: the
/// latched action, the queued cursor points, and a mirror of the engine's
/// mode used to gate cursor recording.
#[derive(Debug)]
pub struct CustomInput {
    mode: Mode,
    mouse_points: Vec<PixelPoint>,
    action: InputAction,
}

impl CustomInput {
    /// The latched pending action.
    pub closed spec fn action_spec(&self) -> InputAction {
        self.action
    }

    /// The queued cursor points, oldest first.
    pub closed spec fn points_spec(&self) -> Seq<PixelPoint> {
        self.mouse_points@
    }

    /// The controller's mirror of the engine mode.
    pub closed spec fn mode_spec(&self) -> Mode {
        self.mode
    }

    /// A fresh controller: no action, no points, editing in `Drawing`.
    pub fn new() -> (r: Self)
        ensures
            r.action_spec() == InputAction::Idle,
            r.points_spec() == Seq::<PixelPoint>::empty(),
            r.mode_spec() == Mode::Editor(EditorMode::Drawing),
    {
        CustomInput {
            mouse_points: Vec::new(),
            action: InputAction::Idle,
            mode: Mode::Editor(EditorMode::Drawing),
        }
    }

    /// Folds one abstract input signal into the pending state: buttons
    /// toggle the latched action, the pause key latches a pause, and cursor
    /// motion queues a point while not simulating.
    pub fn update(&mut self, event: InputEvent)
        ensures
            final(self).action_spec() == action_after_event(old(self).action_spec(), event),
            final(self).points_spec() == points_after_event(
                old(self).points_spec(),
                old(self).mode_spec(),
                event,
            ),
            final(self).mode_spec() == old(self).mode_spec(),
    {
        match event {
            InputEvent::CursorMoved { x, y } => {
                if self.mode != Mode::Simulation {
                    self.mouse_points.push(PixelPoint { x, y });
                }
            },
            InputEvent::PrimaryButtonPressed => {
                self.action = match self.action {
                    InputAction::PlaceAlive => InputAction::Idle,
                    _ => InputAction::PlaceAlive,
                };
            },
            InputEvent::SecondaryButtonPressed => {
                self.action = match self.action {
                    InputAction::PlaceDead => InputAction::Idle,
                    _ => InputAction::PlaceDead,
                };
            },
            InputEvent::PauseKeyPressed => {
                self.action = InputAction::Pause;
            },
        }
    }

    /// The latched pending action, for mode-dependent UI.
    pub fn get_action(&self) -> (r: InputAction)
        ensures
            r == self.action_spec(),
    {
        self.action
    }

    /// How many cursor points are queued for the next interaction tick.
    pub fn points_len(&self) -> (r: usize)
        ensures
            r == self.points_spec().len(),
    {
        self.mouse_points.len()
    }

    /// The controller's mirror of the engine mode.
    pub fn get_mode(&self) -> (r: Mode)
        ensures
            r == self.mode_spec(),
    {
        self.mode
    }

    /// The host's end-of-frame reset hook; deliberately a no-op, since the
    /// interaction tick itself drains the queue and consumes the pause.
    pub fn clear(&mut self)
        ensures
            *final(self) == *old(self),
    {
    }

    /// One interaction tick against the engine. A pending `Pause` is
    /// consumed and toggles the mode exactly once. If the simulation is
    /// running afterwards, the queue is discarded and the board untouched:
    /// editing is hard-gated off. Otherwise every queued point is drained,
    /// translated to a cell by integer division by `cell_size`, discarded
    /// when out of bounds, and written per the latched action.
    #[verifier::loop_isolation(false)]
    pub fn interact(&mut self, engine: &mut Conway, cell_size: usize)
        requires
            old(engine).inv(),
            cell_size > 0,
        ensures
            final(engine).inv(),
            final(engine).width_spec() == old(engine).width_spec(),
            final(engine).height_spec() == old(engine).height_spec(),
            final(engine).mode() == mode_after(old(engine).mode(), old(self).action_spec()),
            final(self).action_spec() == consumed_action(old(self).action_spec()),
            final(self).points_spec() == Seq::<PixelPoint>::empty(),
            final(self).mode_spec() == (if old(self).action_spec() == InputAction::Pause {
                final(engine).mode()
            } else {
                old(self).mode_spec()
            }),
            final(engine).current() == (if mode_after(old(engine).mode(), old(self).action_spec())
                == Mode::Simulation {
                old(engine).current()
            } else {
                apply_points(
                    old(engine).current(),
                    old(self).points_spec(),
                    consumed_action(old(self).action_spec()),
                    cell_size,
                )
            }),
    {
        if self.action == InputAction::Pause {
            self.action = InputAction::Idle;
            engine.toggle_mode();
            self.mode = engine.get_mode();
        }
        if engine.get_mode() == Mode::Simulation {
            self.mouse_points = Vec::new();
            return ;
        }
        let ghost b0 = engine.current();
        let ghost pts = self.mouse_points@;
        let mut i: usize = 0;
        while i < self.mouse_points.len()
            invariant
                i <= self.mouse_points.len(),
                self.mouse_points@ == pts,
                self.action == consumed_action(old(self).action_spec()),
                self.mode == (if old(self).action_spec() == InputAction::Pause {
                    engine.mode()
                } else {
                    old(self).mode_spec()
                }),
                engine.inv(),
                engine.mode() == mode_after(old(engine).mode(), old(self).action_spec()),
                engine.width_spec() == old(engine).width_spec(),
                engine.height_spec() == old(engine).height_spec(),
                engine.current() == apply_points(b0, pts.take(i as int), self.action, cell_size),
            decreases self.mouse_points.len() - i,
        {
            let p = self.mouse_points[i];
            let cx = p.x / cell_size;
            let cy = p.y / cell_size;
            proof {
                assert(pts.take(i as int + 1).drop_last() =~= pts.take(i as int));
                assert(pts.take(i as int + 1).last() == pts[i as int]);
            }
            if !engine.out_of_bounds(cx, cy) {
                match self.action {
                    InputAction::PlaceAlive => engine.set_cell(cx, cy, Cell::Alive),
                    InputAction::PlaceDead => engine.set_cell(cx, cy, Cell::Dead),
                    _ => {},
                }
            }
            i = i + 1;
        }
        proof {
            assert(pts.take(pts.len() as int) =~= pts);
        }
        self.mouse_points = Vec::new();
    }
}

} // verus!
