//! One tick of the whole: the hand follows the driver, the stick follows the
//! hand or returns to rest, the powertrain runs in the gear that the stick
//! selects, and the hand takes hold of the stick or lets it go.

use vstd::prelude::*;
use crate::gear_stick::{classify, rest, resting, Gear, GearStick};
use crate::hand::{clamp_clutch_down, clamp_clutch_up, held_in_lane, swung, Hand};
use crate::fixed::ONE;
use crate::input::{is_active, is_changed, Action, ActionState, Input, InputView};
use crate::lerp::lemma_lerp_between;
use crate::powertrain::{no_cooldown, stepped, Controls, Powertrain, MAX_RPM, MIN_RPM};

verus! {

/// The smoothing with which a move begins while nothing has just changed.
pub const PRIMED: i64 = 250;

/// The hand takes hold of a stick that is nearer than this.
pub const REACH: i64 = 500;

/// Hand, stick and powertrain together.
#[derive(Clone, Copy, Debug, PartialEq, Eq)]
pub struct Simulation {
    pub hand: Hand,
    pub stick: GearStick,
    pub powertrain: Powertrain,
}

/// What a tick shows: where hand and stick stand, the gear, engine and road
/// speed, whether the hand grabs, and which pedals are down.
#[derive(Clone, Copy, Debug, PartialEq, Eq)]
pub struct Snapshot {
    pub hand_offset: (i64, i64),
    pub stick_offset: (i64, i64),
    pub gear: Gear,
    pub rpm: i64,
    pub kmh: i64,
    pub grabbing: bool,
    pub clutch_down: bool,
    pub speeder_down: bool,
    pub brake_down: bool,
}

/// A pair of grid quantities as the integers they are.
pub open spec fn wide(point: (i64, i64)) -> (int, int) {
    (point.0 as int, point.1 as int)
}

/// A pair of integers as grid quantities.
pub open spec fn narrow(point: (int, int)) -> (i64, i64) {
    (point.0 as i64, point.1 as i64)
}

/// Whether a point lies in the square from minus one to one on both axes.
pub open spec fn in_square(point: (int, int)) -> bool {
    -ONE <= point.0 <= ONE && -ONE <= point.1 <= ONE
}

/// Whether two points are nearer to each other than [`REACH`], in a
/// straight line.
pub open spec fn near(a: (int, int), b: (int, int)) -> bool {
    (a.0 - b.0) * (a.0 - b.0) + (a.1 - b.1) * (a.1 - b.1) < REACH * REACH
}

/// Whether the hand holds the stick after a tick. Only a change of the grab
/// changes it: the hand takes hold when the grab has just begun with the
/// stick in reach, and lets go on any other change.
pub open spec fn grasped(
    held: bool,
    grab: Option<ActionState>,
    hand_at: (int, int),
    stick_at: (int, int),
) -> bool {
    if is_changed(grab) {
        near(hand_at, stick_at) && is_active(grab)
    } else {
        held
    }
}

/// What the driver's feet do, as the input has it.
pub open spec fn controls_of(input: InputView) -> Controls {
    Controls {
        accelerating: input.active(Action::Accelerate),
        accel_alpha: input.speeder_alpha,
        braking: input.active(Action::Brake),
        brake_alpha: input.brake_alpha,
    }
}

/// The gear that drives a tick: the one that the stick selects where it
/// stands when the tick begins.
pub open spec fn gear_of(sim: Simulation, input: InputView) -> Gear {
    classify(sim.stick.position(), input.active(Action::Clutch))
}

/// Where a hand that holds the stick may go from where it is: with the
/// clutch down as far as the swing allows, with it up as far as the lane of
/// the gear allows.
pub open spec fn held_target(sim: Simulation, input: InputView) -> (i64, i64) {
    if input.active(Action::Clutch) {
        narrow(swung(wide(input.hand), sim.hand.position()))
    } else {
        narrow(held_in_lane(wide(input.hand), sim.hand.position(), gear_of(sim, input)))
    }
}

/// Where the hand is sent in a tick: where the driver points, but only as
/// far as [`held_target`] while it holds the stick.
pub open spec fn hand_target(sim: Simulation, input: InputView) -> (i64, i64) {
    if sim.stick.held {
        held_target(sim, input)
    } else {
        input.hand
    }
}

/// Where the stick is sent in a tick: along with the hand that holds it, or
/// to where it rests from where it stands.
pub open spec fn stick_target(sim: Simulation, input: InputView) -> (i64, i64) {
    if sim.stick.held {
        held_target(sim, input)
    } else {
        narrow(resting(sim.stick.position()))
    }
}

/// The smoothing with which a new move begins: zero when grabbing or the
/// clutch has just changed, [`PRIMED`] otherwise.
pub open spec fn fresh_start(input: InputView) -> i64 {
    if input.changed(Action::Grab) || input.changed(Action::Clutch) {
        0
    } else {
        PRIMED
    }
}

/// The simulation after one tick, and whether the driver is to be shaken.
///
/// Hand and stick are sent to [`hand_target`] and [`stick_target`]: each
/// moves on if it was going there already, and starts a new move with the
/// smoothing of [`fresh_start`] if not. The powertrain runs one tick in the
/// gear of [`gear_of`]. Last, the hand takes hold or lets go as [`grasped`]
/// says; a stick just taken starts its move from where it stood, with the
/// smoothing at zero.
pub open spec fn ticked(sim: Simulation, input: InputView) -> (Simulation, bool) {
    let start = fresh_start(input);
    let stick = sim.stick.heading_for(stick_target(sim, input), start);
    let held = grasped(
        sim.stick.held,
        input.state(Action::Grab),
        sim.hand.position(),
        sim.stick.position(),
    );
    let taken = input.changed(Action::Grab) && held;
    let (powertrain, shake) = stepped(sim.powertrain, gear_of(sim, input), controls_of(input));
    (
        Simulation {
            hand: sim.hand.heading_for(hand_target(sim, input), start),
            stick: if taken {
                GearStick {
                    smooth_factor: 0,
                    held,
                    offset: narrow(sim.stick.position()),
                    ..stick
                }
            } else {
                GearStick { held, ..stick }
            },
            powertrain,
        },
        shake,
    )
}

/// Whether two points are in reach of each other: see [`near`].
pub fn within_reach(a: (i64, i64), b: (i64, i64)) -> (out: bool)
    ensures
        out == near(wide(a), wide(b)),
{
    let across: i128 = (a.0 as i128) - (b.0 as i128);
    let along: i128 = (a.1 as i128) - (b.1 as i128);
    let reach: i128 = REACH as i128;
    if across >= reach || across <= -reach || along >= reach || along <= -reach {
        assert(across * across + along * along >= reach * reach) by (nonlinear_arith)
            requires
                across >= reach || across <= -reach || along >= reach || along <= -reach,
                reach >= 0,
        ;
        false
    } else {
        assert(0 <= across * across <= 250_000 && 0 <= along * along <= 250_000)
            by (nonlinear_arith)
            requires
                -500 < across < 500,
                -500 < along < 500,
        ;
        across * across + along * along < 250_000
    }
}

impl Simulation {
    /// Whether hand and stick keep to the square: their smoothing lies
    /// between zero and one, and they start and end their moves in the
    /// square.
    pub open spec fn in_bounds(self) -> bool {
        &&& 0 <= self.hand.alpha <= ONE
        &&& in_square(wide(self.hand.offset))
        &&& in_square(wide(self.hand.target))
        &&& 0 <= self.stick.smooth_factor <= ONE
        &&& in_square(wide(self.stick.offset))
        &&& in_square(wide(self.stick.target))
    }

    /// Hand and stick at rest, the engine standing, the car rolling.
    pub fn new() -> (sim: Simulation)
        ensures
            sim.hand == (Hand { alpha: 0, offset: (0, 0), target: (0, 0) }),
            sim.stick == (GearStick {
                smooth_factor: 0,
                held: false,
                offset: (0, 0),
                target: (0, 0),
            }),
            sim.powertrain == (Powertrain {
                rpm: 0,
                kmh: 5_000,
                previous_gear: Gear::Neutral,
                clutch_cooldown: no_cooldown(),
            }),
            sim.in_bounds(),
    {
        Simulation { hand: Hand::new(), stick: GearStick::new(), powertrain: Powertrain::new() }
    }

    /// What there is to show of the simulation as it stands.
    pub fn snapshot(&self, input: &Input) -> (shot: Snapshot)
        ensures
            shot == (Snapshot {
                hand_offset: narrow(self.hand.position()),
                stick_offset: narrow(self.stick.position()),
                gear: gear_of(*self, input@),
                rpm: self.powertrain.rpm,
                kmh: self.powertrain.kmh,
                grabbing: input@.active(Action::Grab),
                clutch_down: input@.active(Action::Clutch),
                speeder_down: input@.active(Action::Accelerate),
                brake_down: input@.active(Action::Brake),
            }),
    {
        let clutch_down = input.action_active(&Action::Clutch);
        Snapshot {
            hand_offset: self.hand.current(),
            stick_offset: self.stick.current(),
            gear: self.stick.gear(clutch_down),
            rpm: self.powertrain.rpm,
            kmh: self.powertrain.kmh,
            grabbing: input.action_active(&Action::Grab),
            clutch_down,
            speeder_down: input.action_active(&Action::Accelerate),
            brake_down: input.action_active(&Action::Brake),
        }
    }

    /// Advances the simulation by one tick and settles the edges of grab
    /// and clutch. Returns whether the driver is to be shaken.
    pub fn tick(&mut self, input: &mut Input) -> (shake: bool)
        ensures
            (*final(self), shake) == ticked(*old(self), old(input)@),
            final(input)@ == old(input)@.settle(Action::Grab).settle(Action::Clutch),
            MIN_RPM <= final(self).powertrain.rpm <= MAX_RPM,
            old(self).in_bounds() && in_square(wide(old(input).hand)) ==> final(self).in_bounds(),
    {
        proof {
            if self.in_bounds() && in_square(wide(input.hand)) {
                lemma_tick_keeps_to_the_square(*self, input@);
            }
        }
        let hand_at = self.hand.current();
        let stick_at = self.stick.current();
        let clutch = input.action_active(&Action::Clutch);
        let gear = self.stick.gear(clutch);

        let asked = Hand::target(input);
        let (hand_target, stick_target) = if self.stick.held {
            let target = if clutch {
                clamp_clutch_down(asked, hand_at)
            } else {
                clamp_clutch_up(asked, hand_at, &gear)
            };
            (target, target)
        } else {
            (asked, rest(stick_at))
        };
        let start: i64 = if Hand::has_changed(input) {
            0
        } else {
            PRIMED
        };
        self.hand.head_for(hand_target, start);
        self.stick.head_for(stick_target, start);

        let controls = Controls {
            accelerating: input.action_active(&Action::Accelerate),
            accel_alpha: input.speeder_alpha,
            braking: input.action_active(&Action::Brake),
            brake_alpha: input.brake_alpha,
        };
        let shake = self.powertrain.step(gear, &controls);

        if input.action_changed(&Action::Grab) {
            if within_reach(hand_at, stick_at) && input.action_active(&Action::Grab) {
                self.stick.held = true;
                self.stick.reset(0, stick_at);
            } else {
                self.stick.held = false;
            }
        }
        Hand::action_tick(input);
        shake
    }
}

/// A tick leaves hand and stick in the square when it finds them there and
/// the driver points into the square.
pub proof fn lemma_tick_keeps_to_the_square(sim: Simulation, input: InputView)
    requires
        sim.in_bounds(),
        in_square(wide(input.hand)),
    ensures
        ticked(sim, input).0.in_bounds(),
{
    lemma_lerp_between(sim.hand.alpha as int, sim.hand.offset.0 as int, sim.hand.target.0 as int);
    lemma_lerp_between(sim.hand.alpha as int, sim.hand.offset.1 as int, sim.hand.target.1 as int);
    lemma_lerp_between(
        sim.stick.smooth_factor as int,
        sim.stick.offset.0 as int,
        sim.stick.target.0 as int,
    );
    lemma_lerp_between(
        sim.stick.smooth_factor as int,
        sim.stick.offset.1 as int,
        sim.stick.target.1 as int,
    );
}

/// The hand holds the stick after a tick only if it held it before or the
/// grab has just begun with the stick in reach; and after a tick on which
/// the grab has just ended it does not hold it.
pub proof fn lemma_tick_holds_by_the_rule(sim: Simulation, input: InputView)
    ensures
        ticked(sim, input).0.stick.held ==> sim.stick.held || (input.state(Action::Grab) == Some(
            ActionState::JustActive,
        ) && near(sim.hand.position(), sim.stick.position())),
        input.state(Action::Grab) == Some(ActionState::JustInactive) ==> !ticked(
            sim,
            input,
        ).0.stick.held,
{
}

/// A grab that begins with the stick in reach takes hold of it, and a tick
/// on which the grab does not change leaves the hold as it is: so while the
/// grab lasts the stick is taken once and not again.
pub proof fn lemma_grab_takes_hold_once(held: bool, hand_at: (int, int), stick_at: (int, int))
    requires
        near(hand_at, stick_at),
    ensures
        grasped(held, Some(ActionState::JustActive), hand_at, stick_at),
        grasped(held, Some(ActionState::Active), hand_at, stick_at) == held,
        grasped(held, Some(ActionState::Inactive), hand_at, stick_at) == held,
        grasped(held, None, hand_at, stick_at) == held,
{
}

/// A grab that ends lets the stick go, however near it is.
pub proof fn lemma_release_lets_go(held: bool, hand_at: (int, int), stick_at: (int, int))
    ensures
        !grasped(held, Some(ActionState::JustInactive), hand_at, stick_at),
{
}

/// The hand can take hold only on the tick on which the grab begins, and
/// only of a stick in reach.
pub proof fn lemma_hold_needs_fresh_grab(
    held: bool,
    grab: Option<ActionState>,
    hand_at: (int, int),
    stick_at: (int, int),
)
    requires
        !held,
        grasped(held, grab, hand_at, stick_at),
    ensures
        grab == Some(ActionState::JustActive),
        near(hand_at, stick_at),
{
}

/// Over two ticks: when the grab begins with the stick in reach, the first
/// tick takes hold; the tick after it finds the grab under way and no
/// longer changed, and keeps the hold without taking the stick anew.
pub proof fn lemma_two_ticks_one_grab(sim: Simulation, input: InputView, next_hand: (i64, i64))
    requires
        input.state(Action::Grab) == Some(ActionState::JustActive),
        near(sim.hand.position(), sim.stick.position()),
    ensures
        ticked(sim, input).0.stick.held,
        ticked(sim, input).0.stick.smooth_factor == 0,
        ticked(sim, input).0.stick.position() == sim.stick.position(),
        ({
            let settled = input.settle(Action::Grab).settle(Action::Clutch).with_hand(next_hand);
            let first = ticked(sim, input).0;
            &&& settled.state(Action::Grab) == Some(ActionState::Active)
            &&& !settled.changed(Action::Grab)
            &&& ticked(first, settled).0.stick.held
            &&& ticked(first, settled).0.stick == first.stick.heading_for(
                stick_target(first, settled),
                fresh_start(settled),
            )
        }),
{
}

} // verus!
