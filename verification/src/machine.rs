//! The elevator controller: its state representation and the transition
//! engine that computes the next state from the current state plus one
//! external request.

use vstd::prelude::*;

verus! {

/// Lowest legal floor (the ground floor).
pub const MIN_FLOOR: i8 = 0;

/// Highest legal floor.
pub const MAX_FLOOR: i8 = 3;

/// The travel sense of a call: a summons to go up or down.
#[derive(Clone, Copy, Debug, PartialEq, Eq)]
pub enum Direction {
    Up,
    Down,
}

/// The controller's state. Door position and motion are encoded in the
/// variant tag; every variant carries the full attribute set, and in any
/// well-formed state the `moving` / `door_open` flags agree with the tag
/// (see [`tag_consistent`]).
#[derive(Clone, Copy, Debug, PartialEq, Eq)]
pub enum State {
    /// Stationary with the door shut; the resting variant.
    Closed {
        moving: bool,
        direction: Option<Direction>,
        current_floor: Option<i8>,
        dest_floor: Option<i8>,
        door_open: bool,
    },
    /// Stationary with the door open, waiting for a floor selection.
    Open {
        moving: bool,
        direction: Option<Direction>,
        current_floor: Option<i8>,
        dest_floor: Option<i8>,
        door_open: bool,
    },
    /// Travelling one floor per tick toward `dest_floor`.
    Moving {
        moving: bool,
        direction: Option<Direction>,
        current_floor: Option<i8>,
        dest_floor: Option<i8>,
        door_open: bool,
    },
}

/// The `moving` flag carried by any variant.
pub open spec fn moving_of(s: State) -> bool {
    match s {
        State::Closed { moving, .. } => moving,
        State::Open { moving, .. } => moving,
        State::Moving { moving, .. } => moving,
    }
}

/// The `door_open` flag carried by any variant.
pub open spec fn door_open_of(s: State) -> bool {
    match s {
        State::Closed { door_open, .. } => door_open,
        State::Open { door_open, .. } => door_open,
        State::Moving { door_open, .. } => door_open,
    }
}

/// The `direction` carried by any variant.
pub open spec fn direction_of(s: State) -> Option<Direction> {
    match s {
        State::Closed { direction, .. } => direction,
        State::Open { direction, .. } => direction,
        State::Moving { direction, .. } => direction,
    }
}

/// The `current_floor` carried by any variant.
pub open spec fn current_floor_of(s: State) -> Option<i8> {
    match s {
        State::Closed { current_floor, .. } => current_floor,
        State::Open { current_floor, .. } => current_floor,
        State::Moving { current_floor, .. } => current_floor,
    }
}

/// The `dest_floor` carried by any variant.
pub open spec fn dest_floor_of(s: State) -> Option<i8> {
    match s {
        State::Closed { dest_floor, .. } => dest_floor,
        State::Open { dest_floor, .. } => dest_floor,
        State::Moving { dest_floor, .. } => dest_floor,
    }
}

/// A floor value is legal when it lies in `[MIN_FLOOR, MAX_FLOOR]`.
pub open spec fn floor_in_range(f: i8) -> bool {
    MIN_FLOOR <= f && f <= MAX_FLOOR
}

/// A destination choice is valid when, if present, it names a legal floor.
/// Validating raw input down to this is the caller's duty; the engine never
/// receives an out-of-range floor.
pub open spec fn valid_dest(df: Option<i8>) -> bool {
    df matches Some(f) ==> floor_in_range(f)
}

/// The `moving` / `door_open` flags agree with the variant tag: a `Closed`
/// car is stationary with the door shut, an `Open` car is stationary with
/// the door open, a `Moving` car travels with the door shut.
pub open spec fn tag_consistent(s: State) -> bool {
    match s {
        State::Closed { moving, door_open, .. } => !moving && !door_open,
        State::Open { moving, door_open, .. } => !moving && door_open,
        State::Moving { moving, door_open, .. } => moving && !door_open,
    }
}

/// Door and motor are mutually exclusive: never open while moving.
pub open spec fn door_motion_exclusive(s: State) -> bool {
    !(door_open_of(s) && moving_of(s))
}

/// A well-formed controller state: the flags agree with the tag, the car
/// always knows its floor, every floor on record is legal, and a travelling
/// car has a destination and a latched direction.
pub open spec fn wf(s: State) -> bool {
    &&& tag_consistent(s)
    &&& current_floor_of(s) matches Some(c) && floor_in_range(c)
    &&& valid_dest(dest_floor_of(s))
    &&& s is Moving ==> dest_floor_of(s) is Some
    &&& s is Moving ==> direction_of(s) is Some
}

/// The condition the driving loop waits for: stationary, door open,
/// standing at the selected destination floor.
pub open spec fn spec_arrived(s: State) -> bool {
    s matches State::Open { moving: false, current_floor: Some(c), dest_floor: Some(d), .. }
        && c == d
}

/// The state a fresh controller starts in: closed, stationary at the
/// ground floor, no direction and no destination on record.
pub open spec fn initial_state() -> State {
    State::Closed {
        moving: false,
        direction: None,
        current_floor: Some(MIN_FLOOR),
        dest_floor: None,
        door_open: false,
    }
}

/// The transition table, matched top to bottom with a no-op fallback:
///
/// * `Closed` + call with a destination: depart at once (`Moving`).
/// * `Closed` + call alone: open the door at the present floor (boarding).
/// * `Open` + a destination choice: shut the door, ready to depart.
/// * `Moving`, standing at the destination: stop and open the door.
/// * `Moving`, short of the destination: shift one floor toward it.
///   The direction latched when the trip began is kept for its duration;
///   a direction supplied mid-tick never overrides it, since travel sense
///   is governed by the stored destination alone.
/// * anything else: the state is returned unchanged, which makes the
///   engine total.
pub open spec fn spec_step(s: State, df: Option<i8>, dir: Option<Direction>) -> State {
    match s {
        State::Closed {
            moving: false,
            direction: _,
            current_floor,
            dest_floor: _,
            door_open: false,
        } => {
            if dir is Some && df is Some {
                State::Moving {
                    moving: true,
                    direction: dir,
                    current_floor,
                    dest_floor: df,
                    door_open: false,
                }
            } else if dir is Some {
                State::Open {
                    moving: false,
                    direction: dir,
                    current_floor,
                    dest_floor: df,
                    door_open: true,
                }
            } else {
                s
            }
        },
        State::Open {
            moving: false,
            direction: _,
            current_floor,
            dest_floor: _,
            door_open: true,
        } => {
            if df is Some {
                State::Closed {
                    moving: false,
                    direction: dir,
                    current_floor,
                    dest_floor: df,
                    door_open: false,
                }
            } else {
                s
            }
        },
        State::Moving {
            moving: true,
            direction,
            current_floor: Some(c),
            dest_floor: Some(d),
            door_open: false,
        } => {
            if c == d {
                State::Open {
                    moving: false,
                    direction: dir,
                    current_floor: Some(c),
                    dest_floor: Some(d),
                    door_open: true,
                }
            } else if d > c {
                State::Moving {
                    moving: true,
                    direction,
                    current_floor: Some((c + 1) as i8),
                    dest_floor: Some(d),
                    door_open: false,
                }
            } else {
                State::Moving {
                    moving: true,
                    direction,
                    current_floor: Some((c - 1) as i8),
                    dest_floor: Some(d),
                    door_open: false,
                }
            }
        },
        _ => s,
    }
}

/// Advance the controller by one tick: consume one external request
/// (optional destination choice, optional direction call) and produce the
/// successor state of the transition table. Total and pure: every input has
/// a defined successor, the unmatched ones falling back to a no-op.
pub fn step(s: State, df: Option<i8>, dir: Option<Direction>) -> (next: State)
    ensures
        next == spec_step(s, df, dir),
{
    match s {
        State::Closed {
            moving: false,
            direction: _,
            current_floor,
            dest_floor: _,
            door_open: false,
        } => {
            if dir.is_some() && df.is_some() {
                State::Moving {
                    moving: true,
                    direction: dir,
                    current_floor,
                    dest_floor: df,
                    door_open: false,
                }
            } else if dir.is_some() {
                State::Open {
                    moving: false,
                    direction: dir,
                    current_floor,
                    dest_floor: df,
                    door_open: true,
                }
            } else {
                s
            }
        },
        State::Open {
            moving: false,
            direction: _,
            current_floor,
            dest_floor: _,
            door_open: true,
        } => {
            if df.is_some() {
                State::Closed {
                    moving: false,
                    direction: dir,
                    current_floor,
                    dest_floor: df,
                    door_open: false,
                }
            } else {
                s
            }
        },
        State::Moving {
            moving: true,
            direction,
            current_floor: Some(c),
            dest_floor: Some(d),
            door_open: false,
        } => {
            if c == d {
                State::Open {
                    moving: false,
                    direction: dir,
                    current_floor: Some(c),
                    dest_floor: Some(d),
                    door_open: true,
                }
            } else if d > c {
                State::Moving {
                    moving: true,
                    direction,
                    current_floor: Some(c + 1),
                    dest_floor: Some(d),
                    door_open: false,
                }
            } else {
                State::Moving {
                    moving: true,
                    direction,
                    current_floor: Some(c - 1),
                    dest_floor: Some(d),
                    door_open: false,
                }
            }
        },
        _ => s,
    }
}

/// The controller itself: one car, one state, stepped by [`Elevator::transition`].
#[derive(Clone, Copy, Debug)]
pub struct Elevator {
    pub state: State,
}

impl Elevator {
    /// A fresh controller in the initial condition: closed and stationary
    /// at the ground floor.
    pub fn new() -> (e: Elevator)
        ensures
            e.state == initial_state(),
            wf(e.state),
    {
        Elevator {
            state: State::Closed {
                moving: false,
                direction: None,
                current_floor: Some(MIN_FLOOR),
                dest_floor: None,
                door_open: false,
            },
        }
    }

    /// Consume one request and replace the state by its successor in the
    /// transition table.
    pub fn transition(&mut self, df: Option<i8>, dir: Option<Direction>)
        ensures
            final(self).state == spec_step(old(self).state, df, dir),
    {
        self.state = step(self.state, df, dir);
    }

    /// Whether the car has come to rest at its selected destination with
    /// the door open; the driving loop stops once this holds.
    pub fn arrived(&self) -> (r: bool)
        ensures
            r == spec_arrived(self.state),
    {
        match self.state {
            State::Open {
                moving: false,
                current_floor: Some(c),
                dest_floor: Some(d),
                ..
            } => c == d,
            _ => false,
        }
    }
}

} // verus!
