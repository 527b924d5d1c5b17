//! The hand that moves the stick, and the lanes that hold it while it grips
//! the stick.

use vstd::prelude::*;
use crate::fixed::{clamped, ONE};
use crate::gear_stick::{advance, advanced, Gear, DEAD_BAND, HALF_WAY, SMOOTH_STEP};
use crate::input::{Action, Input};
use crate::lerp::{lerp_pair, two_dimensional};
use crate::utils::clamp_f64;

verus! {

/// The side columns begin this far out.
pub const SIDE_COLUMN: i64 = 925;

/// Half the width of the middle column.
pub const MIDDLE_COLUMN: i64 = 240;

/// A gear holds the hand at least this far along its row.
pub const IN_GEAR: i64 = 950;

/// Out of gear the hand moves this far along the rows at most.
pub const CROSS_LANE: i64 = 700;

/// How far sideways the hand may swing in one tick while the clutch is down.
pub const SWING: i64 = 500;

/// The hand. It is drawn at the point the fraction `alpha` of the way from
/// `offset` to `target`.
#[derive(Clone, Copy, Debug, PartialEq, Eq)]
pub struct Hand {
    pub alpha: i64,
    pub offset: (i64, i64),
    pub target: (i64, i64),
}

/// The sideways range that `gear` leaves to the hand. In a gear it is the column of
/// that gear. Out of gear the whole width is open while the hand is asked
/// into the cross lane; once it is asked along a row, the column in which
/// the hand was before holds it, and a hand that was in no column stays
/// free.
pub open spec fn lane_x(gear: Gear, target: (int, int), before: (int, int)) -> (int, int) {
    match gear {
        Gear::Neutral => {
            if -HALF_WAY < target.1 < HALF_WAY {
                (-ONE as int, ONE as int)
            } else if before.0 <= -SIDE_COLUMN {
                (-ONE as int, -SIDE_COLUMN as int)
            } else if -DEAD_BAND <= before.0 <= DEAD_BAND {
                (-MIDDLE_COLUMN as int, MIDDLE_COLUMN as int)
            } else if before.0 >= SIDE_COLUMN {
                (SIDE_COLUMN as int, ONE as int)
            } else {
                (-ONE as int, ONE as int)
            }
        },
        Gear::First | Gear::Second => (-ONE as int, -SIDE_COLUMN as int),
        Gear::Third | Gear::Fourth => (-MIDDLE_COLUMN as int, MIDDLE_COLUMN as int),
        Gear::Fifth | Gear::Rocket => (SIDE_COLUMN as int, ONE as int),
    }
}

/// The range along the rows that `gear` leaves to the hand: a narrow band at the end
/// of the row of a gear, the cross lane out of gear.
pub open spec fn lane_y(gear: Gear) -> (int, int) {
    match gear {
        Gear::Neutral => (-CROSS_LANE as int, CROSS_LANE as int),
        Gear::First | Gear::Third | Gear::Fifth => (-ONE as int, -IN_GEAR as int),
        Gear::Second | Gear::Fourth | Gear::Rocket => (IN_GEAR as int, ONE as int),
    }
}

/// Where a hand that grips the stick may go with the clutch up: as near to
/// `target` as `gear` lets it.
pub open spec fn held_in_lane(target: (int, int), before: (int, int), gear: Gear) -> (int, int) {
    let across = lane_x(gear, target, before);
    let along = lane_y(gear);
    (clamped(target.0, across.0, across.1), clamped(target.1, along.0, along.1))
}

/// Where a hand that grips the stick may go with the clutch down: where it
/// is asked to go, but sideways no further than [`SWING`] from where it was
/// before. Along the rows it is free.
pub open spec fn swung(target: (int, int), before: (int, int)) -> (int, int) {
    (clamped(target.0, before.0 - SWING, before.0 + SWING), target.1)
}

/// The two ends of the sideways range of a lane, as numbers to clamp with.
fn lane_across(speed: &Gear, target: (i64, i64), old: (i64, i64)) -> (out: (i64, i64))
    ensures
        (out.0 as int, out.1 as int) == lane_x(
            *speed,
            (target.0 as int, target.1 as int),
            (old.0 as int, old.1 as int),
        ),
        -ONE <= out.0 <= out.1 <= ONE,
{
    match speed {
        Gear::Neutral => {
            if target.1 > -HALF_WAY && target.1 < HALF_WAY {
                (-ONE, ONE)
            } else if old.0 <= -SIDE_COLUMN {
                (-ONE, -SIDE_COLUMN)
            } else if old.0 >= -DEAD_BAND && old.0 <= DEAD_BAND {
                (-MIDDLE_COLUMN, MIDDLE_COLUMN)
            } else if old.0 >= SIDE_COLUMN {
                (SIDE_COLUMN, ONE)
            } else {
                (-ONE, ONE)
            }
        },
        Gear::First | Gear::Second => (-ONE, -SIDE_COLUMN),
        Gear::Third | Gear::Fourth => (-MIDDLE_COLUMN, MIDDLE_COLUMN),
        Gear::Fifth | Gear::Rocket => (SIDE_COLUMN, ONE),
    }
}

/// The two ends of the range of a lane along the rows.
fn lane_along(speed: &Gear) -> (out: (i64, i64))
    ensures
        (out.0 as int, out.1 as int) == lane_y(*speed),
        -ONE <= out.0 <= out.1 <= ONE,
{
    match speed {
        Gear::Neutral => (-CROSS_LANE, CROSS_LANE),
        Gear::First | Gear::Third | Gear::Fifth => (-ONE, -IN_GEAR),
        Gear::Second | Gear::Fourth | Gear::Rocket => (IN_GEAR, ONE),
    }
}

/// Holds the target of a hand that grips the stick, with the clutch up, in
/// the lane of the gear that is in.
pub fn clamp_clutch_up(target: (i64, i64), old: (i64, i64), speed: &Gear) -> (out: (i64, i64))
    ensures
        (out.0 as int, out.1 as int) == held_in_lane(
            (target.0 as int, target.1 as int),
            (old.0 as int, old.1 as int),
            *speed,
        ),
        lane_x(*speed, (target.0 as int, target.1 as int), (old.0 as int, old.1 as int)).0
            <= out.0 <= lane_x(
            *speed,
            (target.0 as int, target.1 as int),
            (old.0 as int, old.1 as int),
        ).1,
        lane_y(*speed).0 <= out.1 <= lane_y(*speed).1,
        -ONE <= out.0 <= ONE,
        -ONE <= out.1 <= ONE,
{
    let (x_min, x_max) = lane_across(speed, target, old);
    let (y_min, y_max) = lane_along(speed);
    let x = clamp_f64(target.0, x_min, x_max);
    let y = clamp_f64(target.1, y_min, y_max);
    (x, y)
}

/// Holds the target of a hand that grips the stick, with the clutch down,
/// to a swing of half a unit sideways from where the hand was.
pub fn clamp_clutch_down(target: (i64, i64), old: (i64, i64)) -> (out: (i64, i64))
    ensures
        (out.0 as int, out.1 as int) == swung(
            (target.0 as int, target.1 as int),
            (old.0 as int, old.1 as int),
        ),
        out.1 == target.1,
        -SWING <= out.0 - old.0 <= SWING,
        old.0 <= out.0 <= target.0 || target.0 <= out.0 <= old.0,
{
    let swing: i128 = (target.0 as i128) - (old.0 as i128);
    if swing > SWING as i128 {
        (old.0 + SWING, target.1)
    } else if swing < -(SWING as i128) {
        (old.0 - SWING, target.1)
    } else {
        target
    }
}

impl Hand {
    /// The point at which the hand is now.
    pub open spec fn position(self) -> (int, int) {
        lerp_pair(self.alpha as int, self.offset, self.target)
    }

    /// A hand at rest in the middle.
    pub fn new() -> (hand: Hand)
        ensures
            hand == (Hand { alpha: 0, offset: (0, 0), target: (0, 0) }),
    {
        Hand { alpha: 0, offset: (0, 0), target: (0, 0) }
    }

    /// The point at which the hand is now.
    pub fn current(&self) -> (out: (i64, i64))
        ensures
            (out.0 as int, out.1 as int) == self.position(),
    {
        two_dimensional(self.alpha, self.offset, self.target)
    }

    /// Where the driver asks the hand to go.
    pub fn target(input: &Input) -> (out: (i64, i64))
        ensures
            out == input.hand,
    {
        input.hand
    }

    /// Settles the edges of the two actions that the hand answers to.
    pub fn action_tick(input: &mut Input)
        ensures
            final(input)@ == old(input)@.settle(Action::Grab).settle(Action::Clutch),
    {
        input.action_tick(Action::Grab);
        input.action_tick(Action::Clutch);
    }

    /// Whether grabbing or the clutch has just begun or ended.
    pub fn has_changed(input: &Input) -> (changed: bool)
        ensures
            changed == (input@.changed(Action::Grab) || input@.changed(Action::Clutch)),
    {
        let grab = input.action_changed(&Action::Grab);
        let clutch = input.action_changed(&Action::Clutch);
        grab || clutch
    }

    /// Makes `offset` the point from which the hand moves on.
    pub fn set_origin(&mut self, offset: (i64, i64))
        ensures
            *final(self) == (Hand { offset, ..*old(self) }),
    {
        self.offset = offset;
    }

    /// Starts a new move from `offset` with the smoothing at `alpha`.
    pub fn reset(&mut self, alpha: i64, offset: (i64, i64))
        ensures
            *final(self) == (Hand { alpha, offset, ..*old(self) }),
    {
        self.alpha = alpha;
        self.offset = offset;
    }

    /// The hand after a tick that sends it to `target`. Sent to where it is
    /// going already, it moves on: the smoothing advances by
    /// [`SMOOTH_STEP`]. Sent elsewhere, it starts a new move from where it
    /// is, with the smoothing at `start`.
    pub open spec fn heading_for(self, target: (i64, i64), start: i64) -> Hand {
        if target != self.target {
            Hand {
                alpha: start,
                offset: (self.position().0 as i64, self.position().1 as i64),
                target,
            }
        } else {
            Hand { alpha: advanced(self.alpha as int, SMOOTH_STEP as int) as i64, ..self }
        }
    }

    /// Sends the hand to `target` for one tick: see
    /// [`heading_for`](Hand::heading_for).
    pub fn head_for(&mut self, target: (i64, i64), start: i64)
        ensures
            *final(self) == old(self).heading_for(target, start),
    {
        if target.0 != self.target.0 || target.1 != self.target.1 {
            let at = self.current();
            self.reset(start, at);
            self.target = target;
        } else {
            self.tick(SMOOTH_STEP);
        }
    }

    /// Lets the smoothing advance by `tick`, up to one at most.
    pub fn tick(&mut self, tick: i64)
        ensures
            *final(self) == (Hand {
                alpha: advanced(old(self).alpha as int, tick as int) as i64,
                ..*old(self)
            }),
            i64::MIN <= advanced(old(self).alpha as int, tick as int) <= ONE,
    {
        self.alpha = advance(self.alpha, tick);
    }
}

} // verus!
