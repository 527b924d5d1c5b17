//! What there is to draw of a tick, laid out as commands for whoever holds
//! the canvas: which part of the sprite sheet goes where, and the few
//! shapes between them.

use vstd::prelude::*;
use crate::fixed::{clamped, saturate, saturated, trunc_div, ONE};
use crate::gear_stick::Gear;

verus! {

/// How many pixels one unit of offset moves a sprite.
pub const SPRITE_REACH: i64 = 128;

/// The engine speed at the end of the tachometer's scale.
pub const DIAL_RPM: i64 = 8_000;

/// The angle of the tachometer's needle at a standing engine, in
/// thousandths of a degree.
pub const DIAL_START: i64 = -12_500;

/// The degrees that the needle sweeps over the whole scale.
pub const DIAL_SWEEP: i64 = 335;

/// A rectangle of pixels: its corner and its size.
#[derive(Clone, Copy, Debug, PartialEq, Eq, Structural)]
pub struct Rect {
    pub x: i32,
    pub y: i32,
    pub w: u32,
    pub h: u32,
}

/// A colour by its red, green and blue.
#[derive(Clone, Copy, Debug, PartialEq, Eq, Structural)]
pub struct Color {
    pub r: u8,
    pub g: u8,
    pub b: u8,
}

/// One thing to put on the canvas.
#[derive(Clone, Copy, Debug, PartialEq, Eq, Structural)]
pub enum Command {
    /// Copies the part `source` of the sprite sheet to `target`.
    Copy { source: Rect, target: Rect },
    /// A filled circle around a point.
    FilledCircle { x: i16, y: i16, radius: i16, color: Color },
    /// A thick line between two points.
    ThickLine { x1: i16, y1: i16, x2: i16, y2: i16, width: u8, color: Color },
    /// A thick line of a given length from a point, at `angle` thousandths
    /// of a degree; the needle points by the sine of the angle across and
    /// by its cosine down.
    Needle { x: i16, y: i16, angle: i64, length: i16, width: u8, color: Color },
}

/// Which pedals are down.
#[derive(Clone, Copy, Debug, PartialEq, Eq, Structural)]
pub struct Pedals {
    pub clutch_down: bool,
    pub speeder_down: bool,
    pub brake_down: bool,
}

/// The hand as it is drawn.
#[derive(Clone, Copy, Debug, PartialEq, Eq)]
pub struct Hand {
    pub offset: (i64, i64),
    pub grabbing: bool,
}

/// What the instruments show.
#[derive(Clone, Copy, Debug)]
pub struct Peripherals<'a> {
    pub rpm: i64,
    pub kmh: i64,
    pub speed: &'a Gear,
}

/// A digit of the speedometer, or the blank in its place.
#[derive(Clone, Copy, Debug, PartialEq, Eq, Structural)]
pub enum Digit {
    Zero,
    One,
    Two,
    Three,
    Four,
    Five,
    Six,
    Seven,
    Eight,
    Nine,
    Blank,
}

/// The red of stick and needle.
pub open spec fn red() -> Color {
    Color { r: 178, g: 16, b: 48 }
}

/// The grey behind the needle.
pub open spec fn grey() -> Color {
    Color { r: 127, g: 127, b: 127 }
}

/// `value` held to what an `i16` can carry.
pub open spec fn short(value: int) -> int {
    clamped(value, i16::MIN as int, i16::MAX as int)
}

/// `value` held to what an `i32` can carry.
pub open spec fn medium(value: int) -> int {
    clamped(value, i32::MIN as int, i32::MAX as int)
}

/// The pixels by which an offset moves the head of the stick, without the
/// fraction.
pub open spec fn reach(offset: int) -> int {
    short(trunc_div(offset * SPRITE_REACH, ONE as int))
}

/// The pixel at which a sprite anchored at `position` is drawn when it is
/// `offset` away: their sum without the fraction.
pub open spec fn sprite_at(position: int, offset: int) -> int {
    medium(trunc_div(position * ONE + offset * SPRITE_REACH, ONE as int))
}

/// A rectangle from its four numbers.
pub open spec fn rect(x: int, y: int, w: int, h: int) -> Rect {
    Rect { x: x as i32, y: y as i32, w: w as u32, h: h as u32 }
}

/// The copy of one part of the sprite sheet.
pub open spec fn copy(source: Rect, target: Rect) -> Command {
    Command::Copy { source, target }
}

/// The stick: its base, then the shaft from the base to the head unless
/// both are at the same pixel, then the head.
pub open spec fn gearstick_view(position: (i16, i16), offset: (i64, i64)) -> Seq<Command> {
    let start_x = short(position.0 + 80);
    let start_y = short(position.1 + 80);
    let end_x = short(position.0 + 80 + reach(offset.0 as int));
    let end_y = short(position.1 + 80 + reach(offset.1 as int));
    let base = seq![
        copy(rect(128, 0, 64, 64), rect(position.0 as int, position.1 as int, 160, 160)),
    ];
    let shaft = if !(start_x == end_x && start_y == end_y) {
        seq![
            Command::FilledCircle {
                x: start_x as i16,
                y: start_y as i16,
                radius: 32,
                color: red(),
            },
            Command::ThickLine {
                x1: start_x as i16,
                y1: start_y as i16,
                x2: end_x as i16,
                y2: end_y as i16,
                width: 64,
                color: red(),
            },
        ]
    } else {
        Seq::<Command>::empty()
    };
    let head = seq![
        copy(
            rect(64, 0, 64, 64),
            rect(
                sprite_at(position.0 as int, offset.0 as int),
                sprite_at(position.1 as int, offset.1 as int),
                160,
                160,
            ),
        ),
    ];
    base + shaft + head
}

/// The hand, open or closed.
pub open spec fn hand_view(position: (i16, i16), offset: (i64, i64), grabbing: bool) -> Seq<
    Command,
> {
    seq![
        copy(
            rect(
                if grabbing {
                    64
                } else {
                    0
                },
                64,
                64,
                64,
            ),
            rect(
                sprite_at(position.0 as int, offset.0 as int),
                sprite_at(position.1 as int, offset.1 as int),
                160,
                160,
            ),
        ),
    ]
}

/// The sprite of a pedal, down or up.
pub open spec fn pedal_sprite(down: bool) -> Rect {
    rect(
        if down {
            224
        } else {
            192
        },
        32,
        32,
        32,
    )
}

/// The three pedals side by side: clutch, brake, speeder.
pub open spec fn pedals_view(position: (i16, i16), pedals: Pedals) -> Seq<Command> {
    seq![
        copy(
            pedal_sprite(pedals.clutch_down),
            rect(position.0 - 160, position.1 as int, 160, 160),
        ),
        copy(pedal_sprite(pedals.brake_down), rect(position.0 as int, position.1 as int, 160, 160)),
        copy(
            pedal_sprite(pedals.speeder_down),
            rect(position.0 + 160, position.1 as int, 160, 160),
        ),
    ]
}

/// The row of the sprite sheet that names a gear.
pub open spec fn gear_row(gear: Gear) -> int {
    match gear {
        Gear::Neutral => 0,
        Gear::Rocket => 1,
        Gear::First => 2,
        Gear::Second => 3,
        Gear::Third => 4,
        Gear::Fourth => 5,
        Gear::Fifth => 6,
    }
}

/// The name of the gear that is in; with the clutch down that of neutral.
pub open spec fn gear_state_view(position: (i16, i16), speed: Gear, is_clutched: bool) -> Seq<
    Command,
> {
    let shown = if is_clutched {
        Gear::Neutral
    } else {
        speed
    };
    seq![
        copy(
            rect(128, 64 + gear_row(shown) * 6, 24, 5),
            rect(position.0 as int, position.1 as int, 192, 40),
        ),
    ]
}

/// Column and row of a digit on the sheet of digits.
pub open spec fn digit_cell(digit: Digit) -> (int, int) {
    match digit {
        Digit::Zero => (0, 0),
        Digit::One => (1, 0),
        Digit::Two => (2, 0),
        Digit::Three => (3, 0),
        Digit::Four => (0, 1),
        Digit::Five => (1, 1),
        Digit::Six => (2, 1),
        Digit::Seven => (3, 1),
        Digit::Eight => (0, 2),
        Digit::Nine => (1, 2),
        Digit::Blank => (2, 2),
    }
}

/// The corner of a digit's sprite; the digits of a negative number have a
/// sheet of their own.
pub open spec fn digit_texture(digit: Digit, negative: bool) -> (int, int) {
    (
        digit_cell(digit).0 * 4 + if negative {
            176int
        } else {
            160int
        },
        digit_cell(digit).1 * 5 + 64,
    )
}

/// The digit for a number from 0 to 9.
pub open spec fn digit_of(value: int) -> Digit
    recommends
        0 <= value <= 9,
{
    if value == 0 {
        Digit::Zero
    } else if value == 1 {
        Digit::One
    } else if value == 2 {
        Digit::Two
    } else if value == 3 {
        Digit::Three
    } else if value == 4 {
        Digit::Four
    } else if value == 5 {
        Digit::Five
    } else if value == 6 {
        Digit::Six
    } else if value == 7 {
        Digit::Seven
    } else if value == 8 {
        Digit::Eight
    } else {
        Digit::Nine
    }
}

/// The digit of `value` at `digit_place`, which is 1, 10, 100 and so on; a
/// blank where the number does not reach that place, as no negative number
/// does.
pub open spec fn digit_at(value: int, digit_place: int) -> Digit
    recommends
        digit_place > 0,
{
    if value >= digit_place {
        digit_of((value % (digit_place * 10)) / digit_place)
    } else {
        Digit::Blank
    }
}

/// One digit at its place.
pub open spec fn digit_view(digit: Digit, position: (int, int), negative: bool) -> Command {
    copy(
        rect(digit_texture(digit, negative).0, digit_texture(digit, negative).1, 3, 5),
        rect(position.0, position.1, 24, 40),
    )
}

/// A road speed in whole units, the half rounded away from zero.
pub open spec fn rounded(kmh: int) -> int {
    if kmh >= 0 {
        (kmh + ONE / 2) / (ONE as int)
    } else {
        -((-kmh + ONE / 2) / (ONE as int))
    }
}

/// The speedometer: its label and three digits, the last of them first. A
/// place that a negative number leaves blank next to its digits shows the
/// blank of the other sheet.
pub open spec fn speedometer_view(position: (i16, i16), kmh: i64) -> Seq<Command> {
    let whole = rounded(kmh as int);
    let negative = whole < 0;
    let size = if negative {
        -whole
    } else {
        whole
    };
    seq![
        copy(rect(128, 106, 20, 5), rect(position.0 as int, position.1 as int, 160, 40)),
        digit_view(digit_of(size % 10), (position.0 + 248, position.1 as int), negative),
        digit_view(
            digit_at(size, 10),
            (position.0 + 216, position.1 as int),
            negative && 0 <= size < 10,
        ),
        digit_view(
            digit_at(size, 100),
            (position.0 + 184, position.1 as int),
            negative && 10 <= size < 100,
        ),
    ]
}

/// The angle of the needle at an engine speed, in thousandths of a degree:
/// from [`DIAL_START`] it sweeps [`DIAL_SWEEP`] degrees backwards over
/// [`DIAL_RPM`] revolutions per minute.
pub open spec fn needle_angle(rpm: int) -> int {
    saturated(DIAL_START - trunc_div(DIAL_SWEEP * rpm, DIAL_RPM as int))
}

/// The tachometer: its face, the shadow of the needle and the needle.
pub open spec fn tachometer_view(position: (i16, i16), rpm: i64) -> Seq<Command> {
    let x = short(position.0 + 128) as i16;
    let y = short(position.1 + 128) as i16;
    let angle = needle_angle(rpm as int) as i64;
    seq![
        copy(rect(0, 0, 64, 64), rect(position.0 as int, position.1 as int, 256, 256)),
        Command::Needle { x, y, angle, length: 118, width: 8, color: grey() },
        Command::Needle { x, y, angle, length: 116, width: 4, color: red() },
    ]
}

/// Where something of length `length` begins that ends 256 pixels before
/// `max`, by its middle.
pub open spec fn padded(max: int, length: int) -> int {
    max - 256 - trunc_div(length, 2)
}

/// Where something of length `length` begins that lies in the middle of
/// `max`.
pub open spec fn centered(max: int, length: int) -> int {
    trunc_div(max, 2) - trunc_div(length, 2)
}

/// The whole picture in a window of the given size: tachometer, stick,
/// hand, pedals, the name of the gear and the speedometer, in this order.
pub open spec fn all_view(
    window_size: (i16, i16),
    peripherals: Peripherals,
    gear_offset: (i64, i64),
    hand_state: Hand,
    pedal_state: Pedals,
) -> Seq<Command> {
    let (width, height) = window_size;
    let stick_at = ((width - 512) as i16, padded(height as int, 160) as i16);
    tachometer_view((128, padded(height as int, 256) as i16), peripherals.rpm) + gearstick_view(
        stick_at,
        gear_offset,
    ) + hand_view(stick_at, hand_state.offset, hand_state.grabbing) + pedals_view(
        (centered(width as int, 160) as i16, (padded(height as int, 160) + 96) as i16),
        pedal_state,
    ) + gear_state_view(
        (centered(width as int, 192) as i16, (padded(height as int, 128) - 64) as i16),
        *peripherals.speed,
        pedal_state.clutch_down,
    ) + speedometer_view(
        (centered(width as int, 256) as i16, (padded(height as int, 128) - 128) as i16),
        peripherals.kmh,
    )
}

fn to_short(value: i128) -> (out: i16)
    ensures
        out == short(value as int),
{
    if value < i16::MIN as i128 {
        i16::MIN
    } else if value > i16::MAX as i128 {
        i16::MAX
    } else {
        value as i16
    }
}

fn to_medium(value: i128) -> (out: i32)
    ensures
        out == medium(value as int),
{
    if value < i32::MIN as i128 {
        i32::MIN
    } else if value > i32::MAX as i128 {
        i32::MAX
    } else {
        value as i32
    }
}

fn head_reach(offset: i64) -> (out: i16)
    ensures
        out == reach(offset as int),
{
    to_short(((offset as i128) * (SPRITE_REACH as i128)) / (ONE as i128))
}

fn sprite_pixel(position: i16, offset: i64) -> (out: i32)
    ensures
        out == sprite_at(position as int, offset as int),
{
    to_medium(
        ((position as i128) * (ONE as i128) + (offset as i128) * (SPRITE_REACH as i128)) / (
        ONE as i128),
    )
}

fn red_paint() -> (out: Color)
    ensures
        out == red(),
{
    Color { r: 178, g: 16, b: 48 }
}

fn grey_paint() -> (out: Color)
    ensures
        out == grey(),
{
    Color { r: 127, g: 127, b: 127 }
}

/// Lays out the stick.
pub fn gearstick(position: (i16, i16), offset: (i64, i64)) -> (out: Vec<Command>)
    ensures
        out@ == gearstick_view(position, offset),
{
    let mut out: Vec<Command> = Vec::new();
    out.push(
        Command::Copy {
            source: Rect { x: 128, y: 0, w: 64, h: 64 },
            target: Rect { x: position.0 as i32, y: position.1 as i32, w: 160, h: 160 },
        },
    );
    let start_x = to_short((position.0 as i128) + 80);
    let start_y = to_short((position.1 as i128) + 80);
    let end_x = to_short((position.0 as i128) + 80 + (head_reach(offset.0) as i128));
    let end_y = to_short((position.1 as i128) + 80 + (head_reach(offset.1) as i128));
    if !(start_x == end_x && start_y == end_y) {
        out.push(Command::FilledCircle { x: start_x, y: start_y, radius: 32, color: red_paint() });
        out.push(
            Command::ThickLine {
                x1: start_x,
                y1: start_y,
                x2: end_x,
                y2: end_y,
                width: 64,
                color: red_paint(),
            },
        );
    }
    out.push(
        Command::Copy {
            source: Rect { x: 64, y: 0, w: 64, h: 64 },
            target: Rect {
                x: sprite_pixel(position.0, offset.0),
                y: sprite_pixel(position.1, offset.1),
                w: 160,
                h: 160,
            },
        },
    );
    assert(out@ =~= gearstick_view(position, offset));
    out
}

/// Lays out the hand.
pub fn hand(position: (i16, i16), offset: (i64, i64), grabbing: bool) -> (out: Vec<Command>)
    ensures
        out@ == hand_view(position, offset, grabbing),
{
    let sprite_offset: i32 = if grabbing {
        64
    } else {
        0
    };
    let mut out: Vec<Command> = Vec::new();
    out.push(
        Command::Copy {
            source: Rect { x: sprite_offset, y: 64, w: 64, h: 64 },
            target: Rect {
                x: sprite_pixel(position.0, offset.0),
                y: sprite_pixel(position.1, offset.1),
                w: 160,
                h: 160,
            },
        },
    );
    assert(out@ =~= hand_view(position, offset, grabbing));
    out
}

fn pedal(down: bool) -> (out: Rect)
    ensures
        out == pedal_sprite(down),
{
    let texture_x: i32 = if down {
        224
    } else {
        192
    };
    Rect { x: texture_x, y: 32, w: 32, h: 32 }
}

/// Lays out the three pedals.
pub fn pedals(position: (i16, i16), pedal_state: &Pedals) -> (out: Vec<Command>)
    ensures
        out@ == pedals_view(position, *pedal_state),
{
    let size: i32 = 160;
    let x = position.0 as i32;
    let y = position.1 as i32;
    let mut out: Vec<Command> = Vec::new();
    out.push(
        Command::Copy {
            source: pedal(pedal_state.clutch_down),
            target: Rect { x: x - size, y, w: 160, h: 160 },
        },
    );
    out.push(
        Command::Copy {
            source: pedal(pedal_state.brake_down),
            target: Rect { x, y, w: 160, h: 160 },
        },
    );
    out.push(
        Command::Copy {
            source: pedal(pedal_state.speeder_down),
            target: Rect { x: x + size, y, w: 160, h: 160 },
        },
    );
    assert(out@ =~= pedals_view(position, *pedal_state));
    out
}

/// Lays out the name of the gear that is in.
pub fn gear_state(position: (i16, i16), speed: &Gear, is_clutched: bool) -> (out: Vec<Command>)
    ensures
        out@ == gear_state_view(position, *speed, is_clutched),
{
    let shown: Gear = if is_clutched {
        Gear::Neutral
    } else {
        *speed
    };
    let row: i32 = match shown {
        Gear::Neutral => 0,
        Gear::Rocket => 1,
        Gear::First => 2,
        Gear::Second => 3,
        Gear::Third => 4,
        Gear::Fourth => 5,
        Gear::Fifth => 6,
    };
    let mut out: Vec<Command> = Vec::new();
    out.push(
        Command::Copy {
            source: Rect { x: 128, y: 64 + row * 6, w: 24, h: 5 },
            target: Rect { x: position.0 as i32, y: position.1 as i32, w: 192, h: 40 },
        },
    );
    assert(out@ =~= gear_state_view(position, *speed, is_clutched));
    out
}

impl Digit {
    /// The corner of this digit's sprite.
    pub fn digit_to_texture(&self, negative: bool) -> (out: (u32, u32))
        ensures
            (out.0 as int, out.1 as int) == digit_texture(*self, negative),
    {
        let (x, y): (u32, u32) = match self {
            Digit::Zero => (0, 0),
            Digit::One => (1, 0),
            Digit::Two => (2, 0),
            Digit::Three => (3, 0),
            Digit::Four => (0, 1),
            Digit::Five => (1, 1),
            Digit::Six => (2, 1),
            Digit::Seven => (3, 1),
            Digit::Eight => (0, 2),
            Digit::Nine => (1, 2),
            Digit::Blank => (2, 2),
        };
        let start_x: u32 = if negative {
            176
        } else {
            160
        };
        let start_y: u32 = 64;
        (x * 4 + start_x, y * 5 + start_y)
    }

    /// The digit for a number from 0 to 9.
    pub fn from(value: i64) -> (digit: Digit)
        requires
            0 <= value <= 9,
        ensures
            digit == digit_of(value as int),
    {
        if value == 0 {
            Digit::Zero
        } else if value == 1 {
            Digit::One
        } else if value == 2 {
            Digit::Two
        } else if value == 3 {
            Digit::Three
        } else if value == 4 {
            Digit::Four
        } else if value == 5 {
            Digit::Five
        } else if value == 6 {
            Digit::Six
        } else if value == 7 {
            Digit::Seven
        } else if value == 8 {
            Digit::Eight
        } else {
            Digit::Nine
        }
    }
}

/// Picks the digit of `value` at `digit_place`.
pub fn get_digit(value: i64, digit_place: i64) -> (digit: Digit)
    requires
        digit_place > 0,
        digit_place * 10 <= i64::MAX,
    ensures
        digit == digit_at(value as int, digit_place as int),
        value < digit_place <==> digit == Digit::Blank,
{
    if value >= digit_place {
        let ghost whole = value as int;
        let ghost place = digit_place as int;
        let value = value % (digit_place * 10);
        let ghost part = value as int;
        assert(part == whole % (place * 10) && 0 <= part < place * 10) by (nonlinear_arith)
            requires
                part == whole % (place * 10),
                whole >= 0,
                place > 0,
        ;
        let rest = value % digit_place;
        assert(rest == part % place && 0 <= rest <= part) by (nonlinear_arith)
            requires
                rest == part % place,
                part >= 0,
                place > 0,
        ;
        let digit = (value - rest) / digit_place;
        assert(digit == part / place && 0 <= digit <= 9) by (nonlinear_arith)
            requires
                digit == (part - rest) / place,
                rest == part % place,
                0 <= part < place * 10,
                place > 0,
        ;
        Digit::from(digit)
    } else {
        Digit::Blank
    }
}

/// Lays out one digit.
pub fn draw_digit(digit: &Digit, position: (i32, i32), negative: bool) -> (out: Command)
    ensures
        out == digit_view(*digit, (position.0 as int, position.1 as int), negative),
{
    let (texture_x, texture_y) = digit.digit_to_texture(negative);
    Command::Copy {
        source: Rect { x: texture_x as i32, y: texture_y as i32, w: 3, h: 5 },
        target: Rect { x: position.0, y: position.1, w: 24, h: 40 },
    }
}

/// Rounds a road speed to whole units, the half away from zero.
pub fn round(kmh: i64) -> (whole: i64)
    ensures
        whole == rounded(kmh as int),
        -9_223_372_036_854_776 <= whole <= 9_223_372_036_854_776,
{
    if kmh >= 0 {
        (((kmh as i128) + 500) / 1000) as i64
    } else {
        (-((-(kmh as i128) + 500) / 1000)) as i64
    }
}

/// Lays out the speedometer.
pub fn speedometer(position: (i16, i16), kmh: i64) -> (out: Vec<Command>)
    ensures
        out@ == speedometer_view(position, kmh),
{
    let whole = round(kmh);
    let negative = whole < 0;
    let size: i64 = if negative {
        -whole
    } else {
        whole
    };
    let first_digit = Digit::from(size % 10);
    let second_digit = get_digit(size, 10);
    let third_digit = get_digit(size, 100);
    let x = position.0 as i32;
    let y = position.1 as i32;
    let mut out: Vec<Command> = Vec::new();
    out.push(
        Command::Copy {
            source: Rect { x: 128, y: 106, w: 20, h: 5 },
            target: Rect { x, y, w: 160, h: 40 },
        },
    );
    out.push(draw_digit(&first_digit, (x + 160 + 96 - 8, y), negative));
    out.push(draw_digit(&second_digit, (x + 160 + 64 - 8, y), negative && 0 <= size && size < 10));
    out.push(
        draw_digit(&third_digit, (x + 160 + 32 - 8, y), negative && 10 <= size && size < 100),
    );
    assert(out@ =~= speedometer_view(position, kmh));
    out
}

/// The angle of the needle at an engine speed: see [`needle_angle`].
pub fn tachometer_angle(rpm: i64) -> (angle: i64)
    ensures
        angle == needle_angle(rpm as int),
{
    saturate((DIAL_START as i128) - ((DIAL_SWEEP as i128) * (rpm as i128)) / (DIAL_RPM as i128))
}

/// Lays out the tachometer.
pub fn tachometer(position: (i16, i16), rpm: i64) -> (out: Vec<Command>)
    ensures
        out@ == tachometer_view(position, rpm),
{
    let x = to_short((position.0 as i128) + 128);
    let y = to_short((position.1 as i128) + 128);
    let angle = tachometer_angle(rpm);
    let mut out: Vec<Command> = Vec::new();
    out.push(
        Command::Copy {
            source: Rect { x: 0, y: 0, w: 64, h: 64 },
            target: Rect { x: position.0 as i32, y: position.1 as i32, w: 256, h: 256 },
        },
    );
    out.push(Command::Needle { x, y, angle, length: 118, width: 8, color: grey_paint() });
    out.push(Command::Needle { x, y, angle, length: 116, width: 4, color: red_paint() });
    assert(out@ =~= tachometer_view(position, rpm));
    out
}

/// Where something of length `length` begins that ends 256 pixels before
/// `max`, by its middle.
pub fn padded_end(max: i16, length: i16) -> (out: i16)
    requires
        i16::MIN <= padded(max as int, length as int) <= i16::MAX,
    ensures
        out == padded(max as int, length as int),
{
    ((max as i32) - 256 - (length as i32) / 2) as i16
}

/// Where something of length `length` begins that lies in the middle of
/// `max`.
pub fn center(max: i16, length: i16) -> (out: i16)
    requires
        i16::MIN <= centered(max as int, length as int) <= i16::MAX,
    ensures
        out == centered(max as int, length as int),
{
    ((max as i32) / 2 - (length as i32) / 2) as i16
}

/// Lays out the whole picture for a window that is `window_size` wide and
/// high.
pub fn all(
    window_size: (i16, i16),
    peripherals: &Peripherals,
    gear_offset: (i64, i64),
    hand_state: &Hand,
    pedal_state: &Pedals,
) -> (out: Vec<Command>)
    requires
        window_size.0 >= 0,
        window_size.1 >= 0,
    ensures
        out@ == all_view(window_size, *peripherals, gear_offset, *hand_state, *pedal_state),
{
    let (width, height) = window_size;
    let gearstick_position = (width - 128 * 4, padded_end(height, 160));

    let mut out = tachometer((128, padded_end(height, 256)), peripherals.rpm);
    let mut part = gearstick(gearstick_position, gear_offset);
    out.append(&mut part);
    let mut part = hand(gearstick_position, hand_state.offset, hand_state.grabbing);
    out.append(&mut part);
    let mut part = pedals((center(width, 160), padded_end(height, 160) + 96), pedal_state);
    out.append(&mut part);
    let mut part = gear_state(
        (center(width, 192), padded_end(height, 128) - 64),
        peripherals.speed,
        pedal_state.clutch_down,
    );
    out.append(&mut part);
    let mut part = speedometer(
        (center(width, 160 + 96), padded_end(height, 128) - 128),
        peripherals.kmh,
    );
    out.append(&mut part);
    out
}

} // verus!
