//! The engine and the road: how the flywheel gains and loses speed, how the
//! road speed follows it in gear and coasts out of gear, how the engine is
//! brought to the speed of the wheels after the clutch comes up, and how
//! the brake slows both.

use vstd::prelude::*;
use crate::fixed::{clamped, saturate, saturated, scaled, trunc_div, ONE};
use crate::gear_stick::{
    expected_kmh, expected_rpm, kmh_at, lemma_round_trip, ratio_of, round_trip_slack, rpm_at, Gear,
    NORMALIZED_RPM, REAR_GEAR_RATIO, TIRE_DIAMETER,
};
use crate::lerp::{lerp, one_dimensional};

verus! {

/// The engine speed at idle: the flywheel never falls below it.
pub const MIN_RPM: i64 = 700_000;

/// The engine speed above which the flywheel is cut.
pub const MAX_RPM: i64 = 8_000_000;

/// How far below [`MAX_RPM`] an overrunning flywheel is put.
pub const LIMITER_CUT: i64 = 100_000;

/// The engine speed that counts as one on the axis of the two curves.
pub const CURVE_UNIT: i64 = 1_000;

/// The largest point on the axis of the curves: [`MAX_RPM`] in curve units.
pub const CURVE_LIMIT: i64 = 8_000;

/// Revolutions per minute that the engine gains in one tick at full
/// throttle where the acceleration curve is at one.
pub const ACCEL_PER_TICK: i64 = 25;

/// Revolutions per minute that an engine in gear loses in a second where
/// the decay curve is at one.
pub const LOADED_DECAY: i64 = 250;

/// Revolutions per minute that an engine out of gear loses in a second
/// where the decay curve is at one.
pub const FREE_DECAY: i64 = 500;

/// Ticks in a second.
pub const TICK_RATE: i64 = 60;

/// The road speed lost in one tick of coasting.
pub const COAST_RATE: i64 = 1_000;

/// The road speed lost in one tick of full braking.
pub const BRAKE_RATE: i64 = 2_000;

/// How far the clutch timer moves in one tick: a fifteenth, rounded up, so
/// that it is through on the fifteenth tick.
pub const CLUTCH_STEP: i64 = 67;

/// How far the engine may be from the speed of the wheels while the clutch
/// bites before the driver is shaken.
pub const LURCH: i64 = 500_000;

/// The tenth power of `t`.
pub open spec fn tenth_power(t: int) -> int {
    let square = t * t;
    let fourth = square * square;
    let fifth = fourth * t;
    fifth * fifth
}

/// Whether `t` is the tenth root of `n`, rounded down.
pub open spec fn is_tenth_root(n: int, t: int) -> bool {
    0 <= t && tenth_power(t) <= n < tenth_power(t + 1)
}

/// The tenth root of `n`, rounded down.
pub open spec fn tenth_root(n: int) -> int {
    choose|t: int| is_tenth_root(n, t)
}

/// `x` to the power of three tenths, for a grid quantity `x` that is not
/// negative: the tenth root of its cube, rounded down to the grid.
pub open spec fn three_tenths_power(x: int) -> int {
    tenth_root(x * x * x * (ONE * ONE * ONE * ONE * ONE * ONE * ONE))
}

/// `x` to the power of 1.3: `x` times its power of three tenths.
pub open spec fn thirteen_tenths_power(x: int) -> int {
    scaled(x, three_tenths_power(x))
}

/// Among numbers that are not negative the tenth power keeps the order.
pub proof fn lemma_tenth_power_grows(a: int, b: int)
    requires
        0 <= a <= b,
    ensures
        0 <= tenth_power(a) <= tenth_power(b),
{
    let sa = a * a;
    let sb = b * b;
    assert(0 <= sa <= sb) by (nonlinear_arith)
        requires
            0 <= a <= b,
            sa == a * a,
            sb == b * b,
    ;
    let qa = sa * sa;
    let qb = sb * sb;
    assert(0 <= qa <= qb) by (nonlinear_arith)
        requires
            0 <= sa <= sb,
            qa == sa * sa,
            qb == sb * sb,
    ;
    let fa = qa * a;
    let fb = qb * b;
    assert(0 <= fa <= fb) by (nonlinear_arith)
        requires
            0 <= qa <= qb,
            0 <= a <= b,
            fa == qa * a,
            fb == qb * b,
    ;
    assert(0 <= fa * fa <= fb * fb) by (nonlinear_arith)
        requires
            0 <= fa <= fb,
    ;
}

/// A number has one tenth root at most, so whatever passes for it is it.
pub proof fn lemma_tenth_root_is(n: int, t: int)
    requires
        is_tenth_root(n, t),
    ensures
        tenth_root(n) == t,
{
    let c = tenth_root(n);
    assert(is_tenth_root(n, c));
    if c < t {
        lemma_tenth_power_grows(c + 1, t);
    } else if t < c {
        lemma_tenth_power_grows(t + 1, c);
    }
}

/// The tenth power of a number up to 2048.
fn tenth(t: u128) -> (out: u128)
    requires
        t <= 2048,
    ensures
        out == tenth_power(t as int),
        out <= 0x4000_0000_0000_0000_0000_0000_0000,
{
    assert(t * t <= 0x40_0000) by (nonlinear_arith)
        requires
            t <= 2048,
    ;
    let square: u128 = t * t;
    assert(square * square <= 0x1000_0000_0000) by (nonlinear_arith)
        requires
            square <= 0x40_0000,
    ;
    let fourth: u128 = square * square;
    assert(fourth * t <= 0x80_0000_0000_0000) by (nonlinear_arith)
        requires
            fourth <= 0x1000_0000_0000,
            t <= 2048,
    ;
    let fifth: u128 = fourth * t;
    assert(fifth * fifth <= 0x4000_0000_0000_0000_0000_0000_0000) by (nonlinear_arith)
        requires
            fifth <= 0x80_0000_0000_0000,
    ;
    fifth * fifth
}

/// Raises a point on the axis of the curves to the power of three tenths.
pub fn three_tenths(x: i64) -> (out: i64)
    requires
        0 <= x <= CURVE_LIMIT,
    ensures
        out == three_tenths_power(x as int),
        0 <= out < 2048,
{
    let wide: u128 = x as u128;
    assert(wide * wide <= 64_000_000) by (nonlinear_arith)
        requires
            wide <= 8_000,
    ;
    let square: u128 = wide * wide;
    assert(square * wide <= 512_000_000_000) by (nonlinear_arith)
        requires
            square <= 64_000_000,
            wide <= 8_000,
    ;
    let cube: u128 = square * wide;
    let n: u128 = cube * 1_000_000_000_000_000_000_000u128;
    assert(ONE * ONE * ONE * ONE * ONE * ONE * ONE == 1_000_000_000_000_000_000_000int);
    assert(n == x * x * x * (ONE * ONE * ONE * ONE * ONE * ONE * ONE));
    let mut low: u128 = 0;
    let mut high: u128 = 2048;
    assert(tenth_power(0) == 0);
    assert(tenth_power(2048) == 0x4000_0000_0000_0000_0000_0000_0000int) by {
        let square: int = 2048int * 2048int;
        let fourth: int = square * square;
        let fifth: int = fourth * 2048int;
        assert(square == 0x40_0000);
        assert(fourth == 0x1000_0000_0000);
        assert(fifth == 0x80_0000_0000_0000);
        assert(fifth * fifth == 0x4000_0000_0000_0000_0000_0000_0000int);
    }
    while high - low > 1
        invariant
            low < high <= 2048,
            tenth_power(low as int) <= n < tenth_power(high as int),
        decreases high - low,
    {
        let middle: u128 = low + (high - low) / 2;
        if tenth(middle) <= n {
            low = middle;
        } else {
            high = middle;
        }
    }
    proof {
        lemma_tenth_root_is(n as int, low as int);
    }
    low as i64
}

/// The point on the axis of the curves at which an engine speed is read:
/// the speed in thousands, held to the range of the dial.
pub open spec fn curve_point(rpm: int) -> int {
    clamped(rpm, 0, MAX_RPM as int) / (CURVE_UNIT as int)
}

/// How eagerly the engine gains speed at `rpm`: `1 + 1.8 x - x^1.3` with
/// `x` the speed in thousands.
pub open spec fn accel_curve(rpm: int) -> int {
    let x = curve_point(rpm);
    ONE + scaled(1_800, x) - thirteen_tenths_power(x)
}

/// How eagerly the engine loses speed at `rpm`: `1 + x^1.3` with `x` the
/// speed in thousands.
pub open spec fn decay_curve(rpm: int) -> int {
    ONE + thirteen_tenths_power(curve_point(rpm))
}

/// The point on the axis of the curves at which an engine speed is read.
fn curve_at(rpm: i64) -> (x: i64)
    ensures
        x == curve_point(rpm as int),
        0 <= x <= CURVE_LIMIT,
{
    let held: i64 = if rpm < 0 {
        0
    } else if rpm > MAX_RPM {
        MAX_RPM
    } else {
        rpm
    };
    held / CURVE_UNIT
}

/// Reads `x^1.3` at an engine speed.
fn curve_power(rpm: i64) -> (out: i64)
    ensures
        out == thirteen_tenths_power(curve_point(rpm as int)),
        0 <= out <= 16_384,
{
    let x: i64 = curve_at(rpm);
    let root: i64 = three_tenths(x);
    assert(0 <= x * root <= 16_384_000) by (nonlinear_arith)
        requires
            0 <= x <= 8_000,
            0 <= root <= 2_048,
    ;
    (x * root) / ONE
}

/// Reads the acceleration curve at an engine speed.
pub fn acceleration_rate(rpm: i64) -> (out: i64)
    ensures
        out == accel_curve(rpm as int),
        -16_384 <= out <= 16_384,
{
    let x: i64 = curve_at(rpm);
    ONE + (1_800 * x) / ONE - curve_power(rpm)
}

/// Reads the decay curve at an engine speed.
pub fn deceleration_rate(rpm: i64) -> (out: i64)
    ensures
        out == decay_curve(rpm as int),
        ONE <= out <= 17_384,
{
    ONE + curve_power(rpm)
}

/// The engine speed after one tick before it is held to the dial. Under
/// throttle it gains [`ACCEL_PER_TICK`] times the acceleration curve times
/// the throttle. Off throttle it loses a tick's share of the decay, which
/// is [`FREE_DECAY`] out of gear and [`LOADED_DECAY`] in gear, times the
/// decay curve.
pub open spec fn revved(rpm: int, accelerating: bool, disengaged: bool, accel_alpha: int) -> int {
    if accelerating {
        rpm + trunc_div(ACCEL_PER_TICK * accel_curve(rpm) * accel_alpha, ONE as int)
    } else if disengaged {
        rpm - trunc_div(FREE_DECAY * decay_curve(rpm), TICK_RATE as int)
    } else {
        rpm - trunc_div(LOADED_DECAY * decay_curve(rpm), TICK_RATE as int)
    }
}

/// An engine speed brought back onto the dial: one that fell below
/// [`MIN_RPM`] is held at it, one that rose above [`MAX_RPM`] is cut to a
/// little below it.
pub open spec fn limited(rpm: int) -> int {
    if rpm < MIN_RPM {
        MIN_RPM as int
    } else if rpm > MAX_RPM {
        MAX_RPM - LIMITER_CUT
    } else {
        rpm
    }
}

/// Lets the flywheel run for one tick. Returns whether it ran past the end
/// of the dial and was cut, which is when the driver is to be shaken.
pub fn update_flywheel_rpm(
    rpm: &mut i64,
    accelerating: bool,
    disengaged: bool,
    accel_alpha: i64,
) -> (overrun: bool)
    ensures
        *final(rpm) == limited(
            revved(*old(rpm) as int, accelerating, disengaged, accel_alpha as int),
        ),
        overrun == (revved(*old(rpm) as int, accelerating, disengaged, accel_alpha as int)
            > MAX_RPM),
        MIN_RPM <= *final(rpm) <= MAX_RPM,
        overrun ==> *final(rpm) == MAX_RPM - LIMITER_CUT,
{
    let raw: i128 = if accelerating {
        let rate: i64 = acceleration_rate(*rpm);
        let push: i128 = (ACCEL_PER_TICK * rate) as i128;
        assert(-0x7fff_ffff_ffff_ffff_ffff_ffff_ffff_ffff <= push * accel_alpha
            <= 0x7fff_ffff_ffff_ffff_ffff_ffff_ffff_ffff) by (nonlinear_arith)
            requires
                -409_600 <= push <= 409_600,
                -0x8000_0000_0000_0000 <= accel_alpha <= 0x7fff_ffff_ffff_ffff,
        ;
        (*rpm as i128) + (push * (accel_alpha as i128)) / (ONE as i128)
    } else {
        let rate: i64 = deceleration_rate(*rpm);
        let lost: i64 = if disengaged {
            (FREE_DECAY * rate) / TICK_RATE
        } else {
            (LOADED_DECAY * rate) / TICK_RATE
        };
        (*rpm as i128) - (lost as i128)
    };
    if raw < MIN_RPM as i128 {
        *rpm = MIN_RPM;
        false
    } else if raw > MAX_RPM as i128 {
        *rpm = MAX_RPM - LIMITER_CUT;
        true
    } else {
        *rpm = raw as i64;
        false
    }
}

/// The phase in which the engine is brought to the speed of the wheels
/// after a gear went in.
#[derive(Clone, Copy, Debug, PartialEq, Eq, Structural)]
pub struct ClutchCooldown {
    pub active: bool,
    pub start_rpm: i64,
    pub timer: i64,
}

/// Engine and road together.
#[derive(Clone, Copy, Debug, PartialEq, Eq, Structural)]
pub struct Powertrain {
    pub rpm: i64,
    pub kmh: i64,
    pub previous_gear: Gear,
    pub clutch_cooldown: ClutchCooldown,
}

/// What the driver's feet do during one tick.
#[derive(Clone, Copy, Debug, PartialEq, Eq, Structural)]
pub struct Controls {
    pub accelerating: bool,
    pub accel_alpha: i64,
    pub braking: bool,
    pub brake_alpha: i64,
}

/// What the powertrain does in a tick. The first that applies is taken.
#[derive(Clone, Copy, Debug, PartialEq, Eq, Structural)]
pub enum Mode {
    /// No gear is in: the engine runs free and the car coasts.
    Free,
    /// A gear has just gone in from neutral: the clutch begins to bite.
    Engage,
    /// The clutch bites: the engine is led to the speed of the wheels.
    Bite,
    /// The clutch holds: the wheels follow the engine.
    Drive,
}

/// A cooldown that is not under way.
pub open spec fn no_cooldown() -> ClutchCooldown {
    ClutchCooldown { active: false, start_rpm: 0, timer: 0 }
}

/// The mode of a tick that finds the powertrain in `state` and the gearbox
/// in `gear`.
pub open spec fn mode_of(state: Powertrain, gear: Gear) -> Mode {
    if gear == Gear::Neutral {
        Mode::Free
    } else if state.previous_gear == Gear::Neutral && !state.clutch_cooldown.active {
        Mode::Engage
    } else if state.clutch_cooldown.active && state.clutch_cooldown.timer < ONE {
        Mode::Bite
    } else {
        Mode::Drive
    }
}

/// The road speed of a car that idles in neutral: coasting ends there.
pub open spec fn idle_kmh() -> int {
    kmh_at(MIN_RPM as int, ratio_of(Gear::Neutral))
}

/// A road speed after one tick of coasting: less by [`COAST_RATE`], and the
/// idle speed at least.
pub open spec fn coasted(kmh: int) -> int {
    let slower = saturated(kmh - COAST_RATE);
    if slower < idle_kmh() {
        idle_kmh()
    } else {
        slower
    }
}

/// The clutch timer after one more tick: further by [`CLUTCH_STEP`], and
/// through at one.
pub open spec fn wound(timer: int) -> int {
    if timer + CLUTCH_STEP > ONE {
        ONE as int
    } else {
        timer + CLUTCH_STEP
    }
}

/// The engine speed to which a biting clutch has led the engine when its
/// timer shows `timer`: that far from the speed at which the gear went in
/// to the speed of the wheels, and on the dial.
pub open spec fn led(timer: int, start_rpm: int, wheels: int) -> int {
    clamped(lerp(timer, start_rpm, wheels), MIN_RPM as int, MAX_RPM as int)
}

/// The powertrain after the part of a tick that depends on its mode, and
/// whether the driver is to be shaken. Out of gear the flywheel runs free,
/// the car coasts and the cooldown is cleared. When a gear has just gone in
/// the cooldown begins at the present engine speed. While the clutch bites,
/// its timer advances and the engine is led to the speed of the wheels; the
/// driver is shaken while the engine is further than [`LURCH`] from that
/// speed, and the cooldown ends when the timer is through. After that the
/// flywheel runs under load and the road speed is that of the engine in the
/// gear.
pub open spec fn driven(state: Powertrain, gear: Gear, controls: Controls) -> (Powertrain, bool) {
    match mode_of(state, gear) {
        Mode::Free => {
            let raw = revved(
                state.rpm as int,
                controls.accelerating,
                true,
                controls.accel_alpha as int,
            );
            (
                Powertrain {
                    rpm: limited(raw) as i64,
                    kmh: coasted(state.kmh as int) as i64,
                    clutch_cooldown: no_cooldown(),
                    ..state
                },
                raw > MAX_RPM,
            )
        },
        Mode::Engage => (
            Powertrain {
                clutch_cooldown: ClutchCooldown { active: true, start_rpm: state.rpm, timer: 0 },
                ..state
            },
            false,
        ),
        Mode::Bite => {
            let timer = wound(state.clutch_cooldown.timer as int);
            let wheels = rpm_at(state.kmh as int, ratio_of(gear));
            let rpm = led(timer, state.clutch_cooldown.start_rpm as int, wheels);
            (
                Powertrain {
                    rpm: rpm as i64,
                    clutch_cooldown: ClutchCooldown {
                        active: timer < ONE,
                        timer: timer as i64,
                        ..state.clutch_cooldown
                    },
                    ..state
                },
                rpm - wheels > LURCH || wheels - rpm > LURCH,
            )
        },
        Mode::Drive => {
            let raw = revved(
                state.rpm as int,
                controls.accelerating,
                false,
                controls.accel_alpha as int,
            );
            (
                Powertrain {
                    rpm: limited(raw) as i64,
                    kmh: kmh_at(limited(raw), ratio_of(gear)) as i64,
                    ..state
                },
                raw > MAX_RPM,
            )
        },
    }
}

/// The road speed that the brake takes off in one tick.
pub open spec fn brake_bite(brake_alpha: int) -> int {
    saturated(scaled(BRAKE_RATE as int, brake_alpha))
}

/// The powertrain after the brake has had its share of a tick. The road
/// speed drops by [`BRAKE_RATE`] times the brake pedal. In gear the engine
/// drops by what that is worth in the gear.
pub open spec fn braked(state: Powertrain, gear: Gear, controls: Controls) -> Powertrain {
    if !controls.braking {
        state
    } else {
        let bite = brake_bite(controls.brake_alpha as int);
        Powertrain {
            kmh: saturated(state.kmh - bite) as i64,
            rpm: if gear == Gear::Neutral {
                state.rpm
            } else {
                saturated(state.rpm - rpm_at(bite, ratio_of(gear))) as i64
            },
            ..state
        }
    }
}

/// The powertrain after one tick, and whether the driver is to be shaken:
/// first what the mode asks, then the brake; at the end the engine speed is
/// held to the dial and the gear is remembered.
pub open spec fn stepped(state: Powertrain, gear: Gear, controls: Controls) -> (Powertrain, bool) {
    let (moved, shake) = driven(state, gear, controls);
    let slowed = braked(moved, gear, controls);
    (
        Powertrain {
            rpm: clamped(slowed.rpm as int, MIN_RPM as int, MAX_RPM as int) as i64,
            previous_gear: gear,
            ..slowed
        },
        shake,
    )
}

impl Powertrain {
    /// A standing engine in a car that rolls at five, out of gear.
    pub fn new() -> (state: Powertrain)
        ensures
            state == (Powertrain {
                rpm: 0,
                kmh: 5_000,
                previous_gear: Gear::Neutral,
                clutch_cooldown: no_cooldown(),
            }),
    {
        Powertrain {
            rpm: 0,
            kmh: 5_000,
            previous_gear: Gear::Neutral,
            clutch_cooldown: ClutchCooldown { active: false, start_rpm: 0, timer: 0 },
        }
    }

    /// The mode of a tick that finds the gearbox in `gear`.
    pub fn mode(&self, gear: Gear) -> (mode: Mode)
        ensures
            mode == mode_of(*self, gear),
    {
        if gear == Gear::Neutral {
            Mode::Free
        } else if self.previous_gear == Gear::Neutral && !self.clutch_cooldown.active {
            Mode::Engage
        } else if self.clutch_cooldown.active && self.clutch_cooldown.timer < ONE {
            Mode::Bite
        } else {
            Mode::Drive
        }
    }

    /// The part of a tick that depends on the mode.
    fn drive(&mut self, gear: Gear, controls: &Controls) -> (shake: bool)
        ensures
            (*final(self), shake) == driven(*old(self), gear, *controls),
    {
        match self.mode(gear) {
            Mode::Free => {
                let shake = update_flywheel_rpm(
                    &mut self.rpm,
                    controls.accelerating,
                    true,
                    controls.accel_alpha,
                );
                let slower = saturate((self.kmh as i128) - (COAST_RATE as i128));
                let idle = expected_kmh(MIN_RPM, Gear::Neutral.gear_ratio());
                self.kmh = if slower < idle {
                    idle
                } else {
                    slower
                };
                self.clutch_cooldown = ClutchCooldown { active: false, start_rpm: 0, timer: 0 };
                shake
            },
            Mode::Engage => {
                self.clutch_cooldown = ClutchCooldown {
                    active: true,
                    start_rpm: self.rpm,
                    timer: 0,
                };
                false
            },
            Mode::Bite => {
                let timer: i64 = if self.clutch_cooldown.timer + CLUTCH_STEP > ONE {
                    ONE
                } else {
                    self.clutch_cooldown.timer + CLUTCH_STEP
                };
                let wheels = expected_rpm(self.kmh, gear.gear_ratio());
                let met = one_dimensional(timer, self.clutch_cooldown.start_rpm, wheels);
                let rpm: i64 = if met < MIN_RPM {
                    MIN_RPM
                } else if met > MAX_RPM {
                    MAX_RPM
                } else {
                    met
                };
                let apart: i128 = (rpm as i128) - (wheels as i128);
                self.rpm = rpm;
                self.clutch_cooldown.timer = timer;
                self.clutch_cooldown.active = timer < ONE;
                apart > LURCH as i128 || -apart > LURCH as i128
            },
            Mode::Drive => {
                let shake = update_flywheel_rpm(
                    &mut self.rpm,
                    controls.accelerating,
                    false,
                    controls.accel_alpha,
                );
                self.kmh = expected_kmh(self.rpm, gear.gear_ratio());
                shake
            },
        }
    }

    /// The brake's share of a tick.
    fn brake(&mut self, gear: Gear, controls: &Controls)
        ensures
            *final(self) == braked(*old(self), gear, *controls),
    {
        if controls.braking {
            assert(-0x7fff_ffff_ffff_ffff_ffff_ffff_ffff_ffff <= BRAKE_RATE * controls.brake_alpha
                <= 0x7fff_ffff_ffff_ffff_ffff_ffff_ffff_ffff) by (nonlinear_arith)
                requires
                    BRAKE_RATE == 2_000,
                    -0x8000_0000_0000_0000 <= controls.brake_alpha <= 0x7fff_ffff_ffff_ffff,
            ;
            let bite = saturate(
                ((BRAKE_RATE as i128) * (controls.brake_alpha as i128)) / (ONE as i128),
            );
            self.kmh = saturate((self.kmh as i128) - (bite as i128));
            if gear != Gear::Neutral {
                let worth = expected_rpm(bite, gear.gear_ratio());
                self.rpm = saturate((self.rpm as i128) - (worth as i128));
            }
        }
    }

    /// Advances engine and road by one tick with the gearbox in `gear`.
    /// Returns whether the driver is to be shaken.
    pub fn step(&mut self, gear: Gear, controls: &Controls) -> (shake: bool)
        ensures
            (*final(self), shake) == stepped(*old(self), gear, *controls),
            MIN_RPM <= final(self).rpm <= MAX_RPM,
            final(self).previous_gear == gear,
            gear == Gear::Neutral ==> !final(self).clutch_cooldown.active,
    {
        let shake = self.drive(gear, controls);
        self.brake(gear, controls);
        if self.rpm < MIN_RPM {
            self.rpm = MIN_RPM;
        } else if self.rpm > MAX_RPM {
            self.rpm = MAX_RPM;
        }
        self.previous_gear = gear;
        shake
    }
}

/// The powertrain after `ticks` ticks with the same gear and the same
/// controls.
pub open spec fn run(state: Powertrain, gear: Gear, controls: Controls, ticks: nat) -> Powertrain
    decreases ticks,
{
    if ticks == 0 {
        state
    } else {
        stepped(run(state, gear, controls, (ticks - 1) as nat), gear, controls).0
    }
}

/// The ticks that a biting clutch takes.
pub const CLUTCH_TICKS: u64 = 15;

/// A clutch that has bitten for `ticks` ticks, up to [`CLUTCH_TICKS`], with
/// the brake off: the cooldown still holds the engine speed at which the
/// gear went in, the road speed has not changed, the timer shows that many
/// steps, and the engine has been led as far as the timer shows.
proof fn lemma_biting(state: Powertrain, gear: Gear, controls: Controls, ticks: nat)
    requires
        gear != Gear::Neutral,
        !controls.braking,
        state.clutch_cooldown.active,
        state.clutch_cooldown.timer == 0,
        ticks <= CLUTCH_TICKS,
    ensures
        ({
            let after = run(state, gear, controls, ticks);
            &&& after.kmh == state.kmh
            &&& after.clutch_cooldown.start_rpm == state.clutch_cooldown.start_rpm
            &&& after.clutch_cooldown.timer == if ticks == CLUTCH_TICKS {
                ONE as int
            } else {
                ticks * CLUTCH_STEP
            }
            &&& after.clutch_cooldown.active == (ticks < CLUTCH_TICKS)
            &&& ticks > 0 ==> after.rpm == led(
                after.clutch_cooldown.timer as int,
                state.clutch_cooldown.start_rpm as int,
                rpm_at(state.kmh as int, ratio_of(gear)),
            )
        }),
    decreases ticks,
{
    if ticks > 0 {
        lemma_biting(state, gear, controls, (ticks - 1) as nat);
        let before = run(state, gear, controls, (ticks - 1) as nat);
        assert(mode_of(before, gear) == Mode::Bite);
        assert(run(state, gear, controls, ticks) == stepped(before, gear, controls).0);
    }
}

/// Once a gear has gone in, the clutch bites for exactly [`CLUTCH_TICKS`]
/// ticks: through all the ticks before the last the cooldown is under way,
/// and with the last it is over and has left the engine at the speed of the
/// wheels, held to the dial, whatever speed the engine had when the gear
/// went in. The brake is off meanwhile.
pub proof fn lemma_clutch_bites_fifteen_ticks(
    state: Powertrain,
    gear: Gear,
    controls: Controls,
    ticks: nat,
)
    requires
        gear != Gear::Neutral,
        !controls.braking,
        state.clutch_cooldown.active,
        state.clutch_cooldown.timer == 0,
        ticks <= CLUTCH_TICKS,
    ensures
        ticks < CLUTCH_TICKS ==> run(state, gear, controls, ticks).clutch_cooldown.active,
        ticks == CLUTCH_TICKS ==> !run(state, gear, controls, ticks).clutch_cooldown.active,
        ticks == CLUTCH_TICKS ==> run(state, gear, controls, ticks).rpm == clamped(
            rpm_at(state.kmh as int, ratio_of(gear)),
            MIN_RPM as int,
            MAX_RPM as int,
        ),
        run(state, gear, controls, ticks).kmh == state.kmh,
{
    lemma_biting(state, gear, controls, ticks);
    if ticks == CLUTCH_TICKS {
        crate::lerp::lemma_lerp_ends(
            state.clutch_cooldown.start_rpm as int,
            rpm_at(state.kmh as int, ratio_of(gear)),
        );
    }
}

/// A tick in which a gear goes in from neutral begins the cooldown at the
/// engine speed of that moment, and a tick out of gear ends it: so the
/// clutch bites once for each time a gear goes in.
pub proof fn lemma_cooldown_begins_once(state: Powertrain, gear: Gear, controls: Controls)
    ensures
        mode_of(state, gear) == Mode::Engage ==> {
            &&& stepped(state, gear, controls).0.clutch_cooldown.active
            &&& stepped(state, gear, controls).0.clutch_cooldown.timer == 0
            &&& stepped(state, gear, controls).0.clutch_cooldown.start_rpm == state.rpm
        },
        gear != Gear::Neutral ==> mode_of(stepped(state, gear, controls).0, gear) != Mode::Engage,
        gear == Gear::Neutral ==> !stepped(state, gear, controls).0.clutch_cooldown.active,
{
}

/// Whatever the tick, the engine speed ends on the dial.
pub proof fn lemma_rpm_stays_on_dial(state: Powertrain, gear: Gear, controls: Controls)
    ensures
        MIN_RPM <= stepped(state, gear, controls).0.rpm <= MAX_RPM,
{
}

/// While the clutch holds and the brake is off, the wheels follow the
/// engine: after the tick the road speed is that of the engine speed in the
/// gear.
pub proof fn lemma_wheels_follow_engine(state: Powertrain, gear: Gear, controls: Controls)
    requires
        mode_of(state, gear) == Mode::Drive,
        !controls.braking,
    ensures
        stepped(state, gear, controls).0.kmh == kmh_at(
            stepped(state, gear, controls).0.rpm as int,
            ratio_of(gear),
        ),
{
}

/// The quotient of a difference is the difference of the quotients, give
/// or take one: for `x` and `y` that are not negative and a positive `a`.
pub proof fn lemma_quotient_of_difference(x: int, y: int, a: int)
    requires
        x >= 0,
        y >= 0,
        a > 0,
    ensures
        trunc_div(x, a) - trunc_div(y, a) - 1 <= trunc_div(x - y, a) <= trunc_div(x, a)
            - trunc_div(y, a) + 1,
{
    let qx = x / a;
    let qy = y / a;
    let rx = x % a;
    let ry = y % a;
    vstd::arithmetic::div_mod::lemma_fundamental_div_mod(x, a);
    vstd::arithmetic::div_mod::lemma_fundamental_div_mod(y, a);
    vstd::arithmetic::div_mod::lemma_mod_pos_bound(x, a);
    vstd::arithmetic::div_mod::lemma_mod_pos_bound(y, a);
    assert(x == a * qx + rx && 0 <= rx < a);
    assert(y == a * qy + ry && 0 <= ry < a);
    if x >= y {
        let z = x - y;
        let qz = z / a;
        let rz = z % a;
        vstd::arithmetic::div_mod::lemma_fundamental_div_mod(z, a);
        vstd::arithmetic::div_mod::lemma_mod_pos_bound(z, a);
        assert(z == a * qz + rz && 0 <= rz < a);
        let apart = qz - (qx - qy);
        assert(a * apart == rx - ry - rz) by (nonlinear_arith)
            requires
                apart == qz - (qx - qy),
                x == a * qx + rx,
                y == a * qy + ry,
                x - y == a * qz + rz,
        ;
        assert(-2 < apart < 1) by (nonlinear_arith)
            requires
                -2 * a < a * apart < a,
                a > 0,
        ;
        assert(trunc_div(x - y, a) == qz);
    } else {
        let z = y - x;
        let qz = z / a;
        let rz = z % a;
        vstd::arithmetic::div_mod::lemma_fundamental_div_mod(z, a);
        vstd::arithmetic::div_mod::lemma_mod_pos_bound(z, a);
        assert(z == a * qz + rz && 0 <= rz < a);
        let apart = qz - (qy - qx);
        assert(a * apart == ry - rx - rz) by (nonlinear_arith)
            requires
                apart == qz - (qy - qx),
                x == a * qx + rx,
                y == a * qy + ry,
                y - x == a * qz + rz,
        ;
        assert(-2 < apart < 1) by (nonlinear_arith)
            requires
                -2 * a < a * apart < a,
                a > 0,
        ;
        assert(trunc_div(x - y, a) == -qz);
    }
}

/// Under the brake engine and wheels stay together. After a tick in which
/// the clutch holds and the brake is on, down to idle, the engine speed is
/// that of the road speed in the gear, but for what the grid rounds away:
/// the brake takes from the engine what it takes from the road.
pub proof fn lemma_braking_keeps_engine_with_wheels(
    state: Powertrain,
    gear: Gear,
    controls: Controls,
)
    requires
        mode_of(state, gear) == Mode::Drive,
        controls.braking,
        0 <= controls.brake_alpha <= ONE,
        stepped(state, gear, controls).0.rpm > MIN_RPM,
    ensures
        ({
            let after = stepped(state, gear, controls).0;
            let wheels = rpm_at(after.kmh as int, ratio_of(gear));
            -1 <= after.rpm - wheels <= round_trip_slack(ratio_of(gear)) + 1
        }),
{
    let ratio = ratio_of(gear);
    let tire: int = 26_500_000_000;
    let geared: int = 674_359_400 * ratio;
    assert(TIRE_DIAMETER * ONE * ONE == tire);
    assert(674_359_400 * 820 <= geared <= 674_359_400 * 3_580);

    // what the mode does: the flywheel runs, the wheels follow
    let raw = revved(state.rpm as int, controls.accelerating, false, controls.accel_alpha as int);
    let engine = limited(raw);
    assert(MIN_RPM <= engine <= MAX_RPM);
    let road = kmh_at(engine, ratio);
    assert(engine * TIRE_DIAMETER * ONE * ONE == engine * tire);
    assert(NORMALIZED_RPM * REAR_GEAR_RATIO * ratio == geared);
    let turned = engine * tire;
    assert(0 <= turned <= 8_000_000 * 26_500_000_000);
    assert(0 <= turned / geared <= 383_390) by (nonlinear_arith)
        requires
            0 <= turned <= 8_000_000 * 26_500_000_000,
            geared >= 674_359_400 * 820,
    ;
    assert(road == turned / geared);
    let moved = driven(state, gear, controls).0;
    assert(moved.rpm == engine && moved.kmh == road);

    // what the brake takes
    assert(0 <= BRAKE_RATE * controls.brake_alpha <= 2_000_000) by (nonlinear_arith)
        requires
            BRAKE_RATE == 2_000,
            0 <= controls.brake_alpha <= 1_000,
    ;
    let bite = brake_bite(controls.brake_alpha as int);
    assert(0 <= bite <= 2_000);
    let x = road * geared;
    let y = bite * geared;
    assert(0 <= x <= 383_390 * geared && 0 <= y <= 2_000 * geared) by (nonlinear_arith)
        requires
            x == road * geared,
            y == bite * geared,
            0 <= road <= 383_390,
            0 <= bite <= 2_000,
            geared > 0,
    ;
    assert((road - bite) * geared == x - y) by (nonlinear_arith)
        requires
            x == road * geared,
            y == bite * geared,
    ;
    lemma_geared(road, ratio);
    lemma_geared(bite, ratio);
    lemma_geared(road - bite, ratio);
    let of_road = trunc_div(x, tire);
    let worth = trunc_div(y, tire);
    let wheels = trunc_div(x - y, tire);
    assert(0 <= of_road <= x && 0 <= worth <= y);
    assert(-y <= wheels <= x);
    assert(rpm_at(road, ratio) == of_road);
    assert(rpm_at(bite, ratio) == worth);
    assert(rpm_at(road - bite, ratio) == wheels);

    // the three quotients
    lemma_round_trip(engine, ratio);
    assert(engine - round_trip_slack(ratio) <= of_road <= engine);
    lemma_quotient_of_difference(x, y, tire);
    assert(of_road - worth - 1 <= wheels <= of_road - worth + 1);

    // the tick as a whole
    let slowed = braked(moved, gear, controls);
    assert(slowed.kmh == road - bite);
    assert(slowed.rpm == engine - worth);
    let after = stepped(state, gear, controls).0;
    assert(after.kmh == road - bite);
    assert(after.rpm == clamped(engine - worth, MIN_RPM as int, MAX_RPM as int));
    assert(after.rpm == engine - worth);
}

/// The engine speed of a road speed, with the constants multiplied out.
proof fn lemma_geared(kmh: int, ratio: int)
    ensures
        NORMALIZED_RPM * kmh * REAR_GEAR_RATIO * ratio == kmh * (674_359_400 * ratio),
{
    assert(NORMALIZED_RPM * kmh * REAR_GEAR_RATIO * ratio == kmh * (674_359_400 * ratio))
        by (nonlinear_arith)
        requires
            NORMALIZED_RPM == 208_780,
            REAR_GEAR_RATIO == 3_230,
    ;
}

} // verus!
