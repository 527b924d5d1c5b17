//! The gear stick: where it rests when let go, which gear its position
//! selects, and how engine speed and road speed follow from each other in a
//! gear.

use vstd::prelude::*;
use crate::fixed::{clamped, saturate, saturated, trunc_div, ONE};
use crate::lerp::{lerp_pair, two_dimensional};

verus! {

/// Engine revolutions per unit of wheel travel, before any gearing.
pub const NORMALIZED_RPM: i64 = 208_780;

/// The reduction of the rear axle.
pub const REAR_GEAR_RATIO: i64 = 3_230;

/// The diameter of a tire.
pub const TIRE_DIAMETER: i64 = 26_500;

/// From this far out on an axis the stick counts as pushed home.
pub const HOME: i64 = 900;

/// Up to this far along the gear rows the stick is still in the cross lane.
pub const HALF_WAY: i64 = 500;

/// Up to this far sideways the stick belongs to the middle column.
pub const DEAD_BAND: i64 = 250;

/// Where the stick rests along a gear row that it has entered but not
/// finished.
pub const PART_WAY: i64 = 750;

/// How far the smoothing of a move advances in one tick: a move that
/// starts at zero is through after five ticks.
pub const SMOOTH_STEP: i64 = 200;

/// What the gearbox has selected. `Rocket` is the reverse gear.
#[derive(Clone, Copy, Debug, PartialEq, Eq, Structural, Hash)]
pub enum Gear {
    Neutral,
    First,
    Second,
    Third,
    Fourth,
    Fifth,
    Rocket,
}

/// The transmission ratio of each gear; `Neutral` carries that of `First`.
pub open spec fn ratio_of(gear: Gear) -> int {
    match gear {
        Gear::First | Gear::Neutral => 3_550,
        Gear::Second => 1_920,
        Gear::Third => 1_320,
        Gear::Fourth => 1_000,
        Gear::Fifth => 820,
        Gear::Rocket => 3_580,
    }
}

impl Gear {
    /// The transmission ratio of this gear.
    pub fn gear_ratio(&self) -> (ratio: i64)
        ensures
            ratio == ratio_of(*self),
            820 <= ratio <= 3_580,
    {
        match self {
            Gear::First | Gear::Neutral => 3_550,
            Gear::Second => 1_920,
            Gear::Third => 1_320,
            Gear::Fourth => 1_000,
            Gear::Fifth => 820,
            Gear::Rocket => 3_580,
        }
    }
}

/// The road speed at which the wheels turn with an engine at `rpm` in a gear
/// of ratio `ratio`: `rpm * TIRE_DIAMETER / (NORMALIZED_RPM * REAR_GEAR_RATIO
/// * ratio)`, rounded toward zero.
pub open spec fn kmh_at(rpm: int, ratio: int) -> int
    recommends
        ratio > 0,
{
    saturated(
        trunc_div(
            rpm * TIRE_DIAMETER * ONE * ONE,
            NORMALIZED_RPM * REAR_GEAR_RATIO * ratio,
        ),
    )
}

/// The engine speed at which the wheels turn at `kmh` in a gear of ratio
/// `ratio`: `NORMALIZED_RPM * kmh * REAR_GEAR_RATIO * ratio / TIRE_DIAMETER`,
/// rounded toward zero.
pub open spec fn rpm_at(kmh: int, ratio: int) -> int {
    saturated(
        trunc_div(
            NORMALIZED_RPM * kmh * REAR_GEAR_RATIO * ratio,
            TIRE_DIAMETER * ONE * ONE,
        ),
    )
}

/// The road speed that belongs to an engine speed in a gear of the given
/// ratio.
pub fn expected_kmh(rpm: i64, trans_gear_ratio: i64) -> (kmh: i64)
    requires
        trans_gear_ratio > 0,
    ensures
        kmh == kmh_at(rpm as int, trans_gear_ratio as int),
        0 <= rpm <= TRIP_LIMIT ==> rpm - round_trip_slack(trans_gear_ratio as int) <= rpm_at(
            kmh as int,
            trans_gear_ratio as int,
        ) <= rpm,
{
    proof {
        if 0 <= rpm <= TRIP_LIMIT {
            lemma_round_trip(rpm as int, trans_gear_ratio as int);
        }
    }
    assert(TIRE_DIAMETER * ONE == 26_500_000 && TIRE_DIAMETER * ONE * ONE == 26_500_000_000);
    assert(NORMALIZED_RPM * REAR_GEAR_RATIO == 674_359_400);
    let tire: i128 = (TIRE_DIAMETER as i128) * (ONE as i128) * (ONE as i128);
    let axle: i128 = (NORMALIZED_RPM as i128) * (REAR_GEAR_RATIO as i128);
    let above: i128 = (rpm as i128) * tire;
    let below: i128 = axle * (trans_gear_ratio as i128);
    assert(rpm * TIRE_DIAMETER * ONE * ONE == above);
    assert(NORMALIZED_RPM * REAR_GEAR_RATIO * trans_gear_ratio == below);
    saturate(above / below)
}

/// The engine speed that belongs to a road speed in a gear of the given
/// ratio.
pub fn expected_rpm(kmh: i64, trans_gear_ratio: i64) -> (rpm: i64)
    requires
        trans_gear_ratio > 0,
    ensures
        rpm == rpm_at(kmh as int, trans_gear_ratio as int),
        0 <= kmh <= TRIP_LIMIT && rpm < i64::MAX ==> kmh - reverse_trip_slack(
            trans_gear_ratio as int,
        ) <= kmh_at(rpm as int, trans_gear_ratio as int) <= kmh,
{
    proof {
        if 0 <= kmh <= TRIP_LIMIT && rpm_at(kmh as int, trans_gear_ratio as int) < i64::MAX {
            lemma_reverse_trip(kmh as int, trans_gear_ratio as int);
        }
    }
    assert(TIRE_DIAMETER * ONE == 26_500_000 && TIRE_DIAMETER * ONE * ONE == 26_500_000_000);
    assert(NORMALIZED_RPM * REAR_GEAR_RATIO == 674_359_400);
    let tire: i128 = (TIRE_DIAMETER as i128) * (ONE as i128) * (ONE as i128);
    let axle: i128 = (NORMALIZED_RPM as i128) * (REAR_GEAR_RATIO as i128);
    let geared: i128 = axle * (trans_gear_ratio as i128);
    assert(NORMALIZED_RPM * kmh * REAR_GEAR_RATIO * trans_gear_ratio == kmh * geared)
        by (nonlinear_arith)
        requires
            geared == 674_359_400 * trans_gear_ratio,
            NORMALIZED_RPM == 208_780,
            REAR_GEAR_RATIO == 3_230,
    ;
    match (kmh as i128).checked_mul(geared) {
        Some(above) => saturate(above / tire),
        None => {
            // a product too wide for 128 bits is a quotient too wide for 64
            let ghost product = (kmh as int) * (geared as int);
            if kmh > 0 {
                assert(product > 0) by (nonlinear_arith)
                    requires
                        product == kmh * geared,
                        kmh > 0,
                        geared > 0,
                ;
                assert(product / 26_500_000_000 > i64::MAX);
                i64::MAX
            } else {
                assert(product <= 0) by (nonlinear_arith)
                    requires
                        product == kmh * geared,
                        kmh <= 0,
                        geared > 0,
                ;
                assert((-product) / 26_500_000_000 > -(i64::MIN as int));
                i64::MIN
            }
        },
    }
}

/// Where a stick that was let go at `offset` comes to rest. Sideways it
/// returns to the middle while it is in the cross lane, goes home from 0.9
/// on, stays where it is between the dead band and home, and returns to the
/// middle inside the dead band. Along the rows it goes home from 0.9 on,
/// rests part way from 0.5 on, and returns to the middle before that.
pub open spec fn resting(offset: (int, int)) -> (int, int) {
    let (x, y) = offset;
    (
        if -HALF_WAY <= y <= HALF_WAY {
            0
        } else if x >= HOME {
            ONE as int
        } else if x <= -HOME {
            -ONE
        } else if !(-DEAD_BAND <= x <= DEAD_BAND) {
            x
        } else {
            0
        },
        if y >= HOME {
            ONE as int
        } else if y <= -HOME {
            -ONE
        } else if y >= HALF_WAY {
            PART_WAY as int
        } else if y <= -HALF_WAY {
            -PART_WAY
        } else {
            0
        },
    )
}

/// The gear that a stick at `position` selects. With the clutch down it is
/// `Neutral`. So it is while the stick is not home along a row, and in the
/// two channels between the columns. Past that the column picks the pair
/// and the row picks the gear of the pair.
pub open spec fn classify(position: (int, int), clutched: bool) -> Gear {
    let (x, y) = position;
    if clutched {
        Gear::Neutral
    } else if -HOME <= y <= HOME {
        Gear::Neutral
    } else if DEAD_BAND <= x <= HOME {
        Gear::Neutral
    } else if -HOME <= x <= -DEAD_BAND {
        Gear::Neutral
    } else if x < -HOME {
        if y <= -HOME {
            Gear::First
        } else {
            Gear::Second
        }
    } else if x < DEAD_BAND {
        if y <= -HOME {
            Gear::Third
        } else {
            Gear::Fourth
        }
    } else if y <= -HOME {
        Gear::Fifth
    } else {
        Gear::Rocket
    }
}

/// Where a stick that is let go at `offset` comes to rest: see [`resting`].
pub fn rest(offset: (i64, i64)) -> (out: (i64, i64))
    ensures
        (out.0 as int, out.1 as int) == resting((offset.0 as int, offset.1 as int)),
        -ONE <= offset.0 <= ONE && -ONE <= offset.1 <= ONE ==> -ONE <= out.0 <= ONE && -ONE
            <= out.1 <= ONE,
{
    let (x, y) = offset;
    let rest_x: i64 = if -HALF_WAY <= y && y <= HALF_WAY {
        0
    } else if x >= HOME {
        ONE
    } else if x <= -HOME {
        -ONE
    } else if !(-DEAD_BAND <= x && x <= DEAD_BAND) {
        x
    } else {
        0
    };
    let rest_y: i64 = if y >= HOME {
        ONE
    } else if y <= -HOME {
        -ONE
    } else if y >= HALF_WAY {
        PART_WAY
    } else if y <= -HALF_WAY {
        -PART_WAY
    } else {
        0
    };
    (rest_x, rest_y)
}

/// The stick itself. It is drawn, and read for its gear, at the point the
/// fraction `smooth_factor` of the way from `offset` to `target`.
#[derive(Clone, Copy, Debug, PartialEq, Eq)]
pub struct GearStick {
    pub smooth_factor: i64,
    pub held: bool,
    pub offset: (i64, i64),
    pub target: (i64, i64),
}

impl GearStick {
    /// The point at which the stick stands now.
    pub open spec fn position(self) -> (int, int) {
        lerp_pair(self.smooth_factor as int, self.offset, self.target)
    }

    /// A stick at rest in the middle that nobody holds.
    pub fn new() -> (stick: GearStick)
        ensures
            stick == (GearStick { smooth_factor: 0, held: false, offset: (0, 0), target: (0, 0) }),
    {
        GearStick { smooth_factor: 0, held: false, offset: (0, 0), target: (0, 0) }
    }

    /// The point at which the stick stands now.
    pub fn current(&self) -> (out: (i64, i64))
        ensures
            (out.0 as int, out.1 as int) == self.position(),
    {
        two_dimensional(self.smooth_factor, self.offset, self.target)
    }

    /// Where the stick comes to rest from its `offset` once let go.
    pub fn resting_target(&self) -> (out: (i64, i64))
        ensures
            (out.0 as int, out.1 as int) == resting((self.offset.0 as int, self.offset.1 as int)),
    {
        rest(self.offset)
    }

    /// The gear that the stick selects where it stands now.
    pub fn gear(&self, is_clutched: bool) -> (gear: Gear)
        ensures
            gear == classify(self.position(), is_clutched),
            is_clutched ==> gear == Gear::Neutral,
            -HOME <= self.position().1 <= HOME ==> gear == Gear::Neutral,
    {
        let (x, y) = two_dimensional(self.smooth_factor, self.offset, self.target);
        if is_clutched {
            return Gear::Neutral;
        }
        if -HOME <= y && y <= HOME {
            return Gear::Neutral;
        }
        if DEAD_BAND <= x && x <= HOME {
            return Gear::Neutral;
        }
        if -HOME <= x && x <= -DEAD_BAND {
            return Gear::Neutral;
        }
        if x < -HOME {
            if y <= -HOME {
                Gear::First
            } else {
                Gear::Second
            }
        } else if x < DEAD_BAND {
            if y <= -HOME {
                Gear::Third
            } else {
                Gear::Fourth
            }
        } else if y <= -HOME {
            Gear::Fifth
        } else {
            Gear::Rocket
        }
    }

    /// Makes `offset` the point from which the stick moves on.
    pub fn set_origin(&mut self, offset: (i64, i64))
        ensures
            *final(self) == (GearStick { offset, ..*old(self) }),
    {
        self.offset = offset;
    }

    /// Starts a new move from `offset` with the smoothing at `smooth_factor`.
    pub fn reset(&mut self, smooth_factor: i64, offset: (i64, i64))
        ensures
            *final(self) == (GearStick { smooth_factor, offset, ..*old(self) }),
    {
        self.smooth_factor = smooth_factor;
        self.offset = offset;
    }

    /// The stick after a tick that sends it to `target`. Sent to where it
    /// is going already, it moves on: the smoothing advances by
    /// [`SMOOTH_STEP`]. Sent elsewhere, it starts a new move from where it
    /// stands, with the smoothing at `start`.
    pub open spec fn heading_for(self, target: (i64, i64), start: i64) -> GearStick {
        if target != self.target {
            GearStick {
                smooth_factor: start,
                offset: (self.position().0 as i64, self.position().1 as i64),
                target,
                ..self
            }
        } else {
            GearStick {
                smooth_factor: advanced(self.smooth_factor as int, SMOOTH_STEP as int) as i64,
                ..self
            }
        }
    }

    /// Sends the stick to `target` for one tick: see
    /// [`heading_for`](GearStick::heading_for).
    pub fn head_for(&mut self, target: (i64, i64), start: i64)
        ensures
            *final(self) == old(self).heading_for(target, start),
    {
        if target.0 != self.target.0 || target.1 != self.target.1 {
            let at = self.current();
            self.reset(start, at);
            self.target = target;
        } else {
            self.tick(SMOOTH_STEP);
        }
    }

    /// Lets the smoothing advance by `tick`, up to one at most.
    pub fn tick(&mut self, tick: i64)
        ensures
            *final(self) == (GearStick {
                smooth_factor: advanced(old(self).smooth_factor as int, tick as int) as i64,
                ..*old(self)
            }),
            i64::MIN <= advanced(old(self).smooth_factor as int, tick as int) <= ONE,
    {
        self.smooth_factor = advance(self.smooth_factor, tick);
    }
}

/// A smoothing factor after one more `tick`: their sum, cut at one.
pub open spec fn advanced(factor: int, tick: int) -> int {
    clamped(factor + tick, i64::MIN as int, ONE as int)
}

/// Adds `tick` to a smoothing factor and cuts the sum at one.
pub fn advance(factor: i64, tick: i64) -> (out: i64)
    ensures
        out == advanced(factor as int, tick as int),
{
    let sum: i128 = (factor as i128) + (tick as i128);
    if sum > ONE as i128 {
        ONE
    } else {
        saturate(sum)
    }
}

/// The largest speed, of the engine or on the road, of which the laws of
/// the two trips speak.
pub const TRIP_LIMIT: i64 = 1_000_000_000_000_000;

/// How much engine speed a trip to road speed and back can lose to rounding
/// in a gear of ratio `ratio`.
pub open spec fn round_trip_slack(ratio: int) -> int {
    (NORMALIZED_RPM * REAR_GEAR_RATIO * ratio) / (TIRE_DIAMETER * ONE * ONE) + 1
}

/// Engine speed to road speed and back, in one gear, returns the engine
/// speed it started from: never more, and less by the rounding of the grid
/// at most.
pub proof fn lemma_round_trip(rpm: int, ratio: int)
    requires
        0 <= rpm <= TRIP_LIMIT,
        ratio > 0,
    ensures
        rpm_at(kmh_at(rpm, ratio), ratio) <= rpm,
        rpm - rpm_at(kmh_at(rpm, ratio), ratio) <= round_trip_slack(ratio),
{
    let a: int = 26_500_000_000;
    let d: int = 674_359_400 * ratio;
    assert(TIRE_DIAMETER * ONE * ONE == a);
    assert(NORMALIZED_RPM * REAR_GEAR_RATIO * ratio == d);
    assert(rpm * TIRE_DIAMETER * ONE * ONE == rpm * a);
    let k: int = (rpm * a) / d;
    assert(0 <= k && k * d <= rpm * a < k * d + d && k <= rpm * a) by (nonlinear_arith)
        requires
            k == (rpm * a) / d,
            d > 0,
            rpm >= 0,
            a > 0,
    ;
    assert(rpm * a <= 26_500_000_000_000_000_000_000_000) by (nonlinear_arith)
        requires
            0 <= rpm <= 1_000_000_000_000_000,
            a == 26_500_000_000,
    ;
    assert(k <= i64::MAX) by (nonlinear_arith)
        requires
            k * d <= rpm * a,
            rpm * a <= 26_500_000_000_000_000_000_000_000,
            d >= 674_359_400,
            k >= 0,
    ;
    assert(kmh_at(rpm, ratio) == k);
    assert(NORMALIZED_RPM * k * REAR_GEAR_RATIO * ratio == k * d) by (nonlinear_arith)
        requires
            d == 674_359_400 * ratio,
            NORMALIZED_RPM == 208_780,
            REAR_GEAR_RATIO == 3_230,
    ;
    let back: int = (k * d) / a;
    assert(0 <= back && back * a <= k * d < back * a + a) by (nonlinear_arith)
        requires
            back == (k * d) / a,
            a > 0,
            k >= 0,
            d > 0,
    ;
    assert(back <= rpm) by (nonlinear_arith)
        requires
            back * a <= k * d,
            k * d <= rpm * a,
            a > 0,
    ;
    assert(rpm_at(k, ratio) == back);
    let slack: int = d / a + 1;
    assert(rpm - back <= slack) by (nonlinear_arith)
        requires
            slack == d / a + 1,
            rpm * a < k * d + d,
            k * d < back * a + a,
            a > 0,
            d > 0,
    ;
}

/// In each gear of the box the trip of [`lemma_round_trip`] loses less than
/// a tenth of one revolution per minute.
pub proof fn lemma_round_trip_in_gear(rpm: int, gear: Gear)
    requires
        0 <= rpm <= TRIP_LIMIT,
    ensures
        rpm - 92 <= rpm_at(kmh_at(rpm, ratio_of(gear)), ratio_of(gear)) <= rpm,
{
    let ratio = ratio_of(gear);
    lemma_round_trip(rpm, ratio);
    assert(NORMALIZED_RPM * REAR_GEAR_RATIO * ratio == 674_359_400 * ratio);
    assert(TIRE_DIAMETER * ONE * ONE == 26_500_000_000);
    let geared: int = 674_359_400 * ratio;
    assert(geared / 26_500_000_000 <= 91) by (nonlinear_arith)
        requires
            0 <= geared <= 674_359_400 * 3_580,
    ;
}

/// How much road speed a trip to engine speed and back can lose to rounding
/// in a gear of ratio `ratio`.
pub open spec fn reverse_trip_slack(ratio: int) -> int {
    (TIRE_DIAMETER * ONE * ONE) / (NORMALIZED_RPM * REAR_GEAR_RATIO * ratio) + 1
}

/// Road speed to engine speed and back, in one gear, returns the road speed
/// it started from: never more, and less by the rounding of the grid at
/// most. The engine speed in between is one that an `i64` holds.
pub proof fn lemma_reverse_trip(kmh: int, ratio: int)
    requires
        0 <= kmh <= TRIP_LIMIT,
        ratio > 0,
        rpm_at(kmh, ratio) < i64::MAX,
    ensures
        kmh_at(rpm_at(kmh, ratio), ratio) <= kmh,
        kmh - kmh_at(rpm_at(kmh, ratio), ratio) <= reverse_trip_slack(ratio),
{
    let a: int = 26_500_000_000;
    let d: int = 674_359_400 * ratio;
    assert(TIRE_DIAMETER * ONE * ONE == a);
    assert(NORMALIZED_RPM * REAR_GEAR_RATIO * ratio == d);
    assert(NORMALIZED_RPM * kmh * REAR_GEAR_RATIO * ratio == kmh * d) by (nonlinear_arith)
        requires
            d == 674_359_400 * ratio,
            NORMALIZED_RPM == 208_780,
            REAR_GEAR_RATIO == 3_230,
    ;
    let engine: int = (kmh * d) / a;
    assert(0 <= engine && engine * a <= kmh * d < engine * a + a) by (nonlinear_arith)
        requires
            engine == (kmh * d) / a,
            a > 0,
            kmh >= 0,
            d > 0,
    ;
    assert(rpm_at(kmh, ratio) == engine);
    assert(engine * TIRE_DIAMETER * ONE * ONE == engine * a);
    let back: int = (engine * a) / d;
    assert(0 <= back && back * d <= engine * a < back * d + d) by (nonlinear_arith)
        requires
            back == (engine * a) / d,
            d > 0,
            engine >= 0,
            a > 0,
    ;
    assert(back <= kmh) by (nonlinear_arith)
        requires
            back * d <= engine * a,
            engine * a <= kmh * d,
            d > 0,
    ;
    assert(kmh_at(engine, ratio) == back);
    let slack: int = a / d + 1;
    assert(kmh - back <= slack) by (nonlinear_arith)
        requires
            slack == a / d + 1,
            kmh * d < engine * a + a,
            engine * a < back * d + d,
            a > 0,
            d > 0,
    ;
}

/// In each gear of the box the trip of [`lemma_reverse_trip`] loses one step
/// of the grid at most.
pub proof fn lemma_reverse_trip_in_gear(kmh: int, gear: Gear)
    requires
        0 <= kmh <= TRIP_LIMIT,
    ensures
        kmh - 1 <= kmh_at(rpm_at(kmh, ratio_of(gear)), ratio_of(gear)) <= kmh,
{
    let ratio = ratio_of(gear);
    let geared: int = 674_359_400 * ratio;
    assert(NORMALIZED_RPM * REAR_GEAR_RATIO * ratio == geared);
    assert(TIRE_DIAMETER * ONE * ONE == 26_500_000_000);
    assert(NORMALIZED_RPM * kmh * REAR_GEAR_RATIO * ratio == kmh * geared) by (nonlinear_arith)
        requires
            geared == 674_359_400 * ratio,
            NORMALIZED_RPM == 208_780,
            REAR_GEAR_RATIO == 3_230,
    ;
    assert(0 <= kmh * geared <= 1_000_000_000_000_000 * geared) by (nonlinear_arith)
        requires
            0 <= kmh <= 1_000_000_000_000_000,
            geared > 0,
    ;
    assert(rpm_at(kmh, ratio) < i64::MAX);
    lemma_reverse_trip(kmh, ratio);
    assert(26_500_000_000int / geared == 0) by (nonlinear_arith)
        requires
            geared >= 674_359_400 * 820,
    ;
}

/// A stick let go where it already rests stays there: resting twice is
/// resting once.
pub proof fn lemma_resting_idempotent(offset: (int, int))
    ensures
        resting(resting(offset)) == resting(offset),
{
}

/// A stick that is not home along a row selects no gear, wherever it stands
/// sideways and whatever the clutch does.
pub proof fn lemma_neutral_short_of_home(position: (int, int), clutched: bool)
    requires
        -HOME <= position.1 <= HOME,
    ensures
        classify(position, clutched) == Gear::Neutral,
{
}

/// With the clutch down no gear is selected, wherever the stick stands.
pub proof fn lemma_neutral_when_clutched(position: (int, int))
    ensures
        classify(position, true) == Gear::Neutral,
{
}

} // verus!
