use car_demo::draw::{
    all, center, draw_digit, gear_state, gearstick, get_digit, hand, padded_end, pedals, round,
    speedometer, tachometer, tachometer_angle, Color, Command, Digit, Hand, Pedals, Peripherals,
    Rect,
};
use car_demo::gear_stick::Gear;

const RED: Color = Color { r: 178, g: 16, b: 48 };
const GREY: Color = Color { r: 127, g: 127, b: 127 };

fn rect(x: i32, y: i32, w: u32, h: u32) -> Rect {
    Rect { x, y, w, h }
}

fn copy(source: Rect, target: Rect) -> Command {
    Command::Copy { source, target }
}

#[test]
fn the_stick_with_its_shaft() {
    assert_eq!(
        gearstick((100, 200), (500, -250)),
        vec![
            copy(rect(128, 0, 64, 64), rect(100, 200, 160, 160)),
            Command::FilledCircle { x: 180, y: 280, radius: 32, color: RED },
            Command::ThickLine { x1: 180, y1: 280, x2: 244, y2: 248, width: 64, color: RED },
            copy(rect(64, 0, 64, 64), rect(164, 168, 160, 160)),
        ]
    );
}

#[test]
fn a_stick_in_the_middle_has_no_shaft() {
    assert_eq!(
        gearstick((100, 200), (0, 0)),
        vec![
            copy(rect(128, 0, 64, 64), rect(100, 200, 160, 160)),
            copy(rect(64, 0, 64, 64), rect(100, 200, 160, 160)),
        ]
    );
    // less than a pixel from the middle
    assert_eq!(gearstick((100, 200), (7, -7)).len(), 2);
    assert_eq!(gearstick((100, 200), (8, 0)).len(), 4);
    assert_eq!(gearstick((100, 200), (0, -8)).len(), 4);
}

#[test]
fn sprites_are_placed_without_the_fraction() {
    // -100 + 0.896 = -99.104
    assert_eq!(
        gearstick((-100, -100), (7, -7))[1],
        copy(rect(64, 0, 64, 64), rect(-99, -100, 160, 160))
    );
    // 100 - 0.896 = 99.104
    assert_eq!(
        hand((100, 100), (-7, 7), false),
        vec![copy(rect(0, 64, 64, 64), rect(99, 100, 160, 160))]
    );
}

#[test]
fn the_stick_at_the_ends_of_the_range() {
    assert_eq!(
        gearstick((i16::MAX, i16::MIN), (i64::MAX, i64::MIN)),
        vec![
            copy(rect(128, 0, 64, 64), rect(32_767, -32_768, 160, 160)),
            Command::FilledCircle { x: 32_767, y: -32_688, radius: 32, color: RED },
            Command::ThickLine {
                x1: 32_767,
                y1: -32_688,
                x2: 32_767,
                y2: -32_768,
                width: 64,
                color: RED
            },
            copy(rect(64, 0, 64, 64), rect(i32::MAX, i32::MIN, 160, 160)),
        ]
    );
}

#[test]
fn the_hand_open_and_closed() {
    assert_eq!(
        hand((100, 200), (500, -250), true),
        vec![copy(rect(64, 64, 64, 64), rect(164, 168, 160, 160))]
    );
    assert_eq!(
        hand((100, 200), (500, -250), false),
        vec![copy(rect(0, 64, 64, 64), rect(164, 168, 160, 160))]
    );
}

#[test]
fn the_pedals_side_by_side() {
    let state = Pedals { clutch_down: true, speeder_down: false, brake_down: true };
    assert_eq!(
        pedals((500, 600), &state),
        vec![
            copy(rect(224, 32, 32, 32), rect(340, 600, 160, 160)),
            copy(rect(224, 32, 32, 32), rect(500, 600, 160, 160)),
            copy(rect(192, 32, 32, 32), rect(660, 600, 160, 160)),
        ]
    );
    let state = Pedals { clutch_down: false, speeder_down: true, brake_down: false };
    assert_eq!(
        pedals((i16::MIN, 0), &state),
        vec![
            copy(rect(192, 32, 32, 32), rect(-32_928, 0, 160, 160)),
            copy(rect(192, 32, 32, 32), rect(-32_768, 0, 160, 160)),
            copy(rect(224, 32, 32, 32), rect(-32_608, 0, 160, 160)),
        ]
    );
}

#[test]
fn the_name_of_each_gear() {
    let rows = [
        (Gear::Neutral, 64),
        (Gear::Rocket, 70),
        (Gear::First, 76),
        (Gear::Second, 82),
        (Gear::Third, 88),
        (Gear::Fourth, 94),
        (Gear::Fifth, 100),
    ];
    for (gear, y) in rows {
        assert_eq!(
            gear_state((10, 20), &gear, false),
            vec![copy(rect(128, y, 24, 5), rect(10, 20, 192, 40))]
        );
        assert_eq!(
            gear_state((10, 20), &gear, true),
            vec![copy(rect(128, 64, 24, 5), rect(10, 20, 192, 40))]
        );
    }
}

#[test]
fn the_sprite_of_each_digit() {
    let cells = [
        (Digit::Zero, 160, 64),
        (Digit::One, 164, 64),
        (Digit::Two, 168, 64),
        (Digit::Three, 172, 64),
        (Digit::Four, 160, 69),
        (Digit::Five, 164, 69),
        (Digit::Six, 168, 69),
        (Digit::Seven, 172, 69),
        (Digit::Eight, 160, 74),
        (Digit::Nine, 164, 74),
        (Digit::Blank, 168, 74),
    ];
    for (digit, x, y) in cells {
        assert_eq!(digit.digit_to_texture(false), (x, y));
        assert_eq!(digit.digit_to_texture(true), (x + 16, y));
    }
}

#[test]
fn the_digit_of_a_number() {
    let digits = [
        Digit::Zero,
        Digit::One,
        Digit::Two,
        Digit::Three,
        Digit::Four,
        Digit::Five,
        Digit::Six,
        Digit::Seven,
        Digit::Eight,
        Digit::Nine,
    ];
    for (value, digit) in digits.iter().enumerate() {
        assert_eq!(Digit::from(value as i64), *digit);
    }
}

#[test]
fn the_digit_at_a_place() {
    assert_eq!(get_digit(123, 1), Digit::Three);
    assert_eq!(get_digit(123, 10), Digit::Two);
    assert_eq!(get_digit(123, 100), Digit::One);
    assert_eq!(get_digit(123, 1000), Digit::Blank);
    assert_eq!(get_digit(5, 10), Digit::Blank);
    assert_eq!(get_digit(10, 10), Digit::One);
    assert_eq!(get_digit(99, 100), Digit::Blank);
    assert_eq!(get_digit(100, 10), Digit::Zero);
    assert_eq!(get_digit(1234, 100), Digit::Two);
    assert_eq!(get_digit(0, 1), Digit::Blank);
    // a negative number reaches no place
    assert_eq!(get_digit(-1, 1), Digit::Blank);
    assert_eq!(get_digit(-123, 10), Digit::Blank);
    assert_eq!(get_digit(i64::MIN, 100), Digit::Blank);
    assert_eq!(get_digit(i64::MAX, 100_000_000_000_000_000), Digit::Two);
    assert_eq!(get_digit(i64::MAX, 1), Digit::Seven);
}

#[test]
fn one_digit_at_its_place() {
    assert_eq!(
        draw_digit(&Digit::Seven, (10, -20), false),
        copy(rect(172, 69, 3, 5), rect(10, -20, 24, 40))
    );
    assert_eq!(
        draw_digit(&Digit::Blank, (0, 0), true),
        copy(rect(184, 74, 3, 5), rect(0, 0, 24, 40))
    );
}

#[test]
fn rounding_a_road_speed() {
    assert_eq!(round(0), 0);
    assert_eq!(round(499), 0);
    assert_eq!(round(500), 1);
    assert_eq!(round(1_499), 1);
    assert_eq!(round(1_500), 2);
    assert_eq!(round(-499), 0);
    assert_eq!(round(-500), -1);
    assert_eq!(round(-1_500), -2);
    assert_eq!(round(117_889), 118);
    assert_eq!(round(i64::MAX), 9_223_372_036_854_776);
    assert_eq!(round(i64::MIN), -9_223_372_036_854_776);
}

#[test]
fn the_speedometer_shows_three_digits() {
    assert_eq!(
        speedometer((300, 400), 117_889),
        vec![
            copy(rect(128, 106, 20, 5), rect(300, 400, 160, 40)),
            copy(rect(160, 74, 3, 5), rect(548, 400, 24, 40)),
            copy(rect(164, 64, 3, 5), rect(516, 400, 24, 40)),
            copy(rect(164, 64, 3, 5), rect(484, 400, 24, 40)),
        ]
    );
}

#[test]
fn the_speedometer_leaves_unused_places_blank() {
    assert_eq!(
        speedometer((300, 400), 7_748),
        vec![
            copy(rect(128, 106, 20, 5), rect(300, 400, 160, 40)),
            copy(rect(160, 74, 3, 5), rect(548, 400, 24, 40)),
            copy(rect(168, 74, 3, 5), rect(516, 400, 24, 40)),
            copy(rect(168, 74, 3, 5), rect(484, 400, 24, 40)),
        ]
    );
    assert_eq!(
        speedometer((300, 400), 42_000),
        vec![
            copy(rect(128, 106, 20, 5), rect(300, 400, 160, 40)),
            copy(rect(168, 64, 3, 5), rect(548, 400, 24, 40)),
            copy(rect(160, 69, 3, 5), rect(516, 400, 24, 40)),
            copy(rect(168, 74, 3, 5), rect(484, 400, 24, 40)),
        ]
    );
}

#[test]
fn the_speedometer_marks_a_negative_speed_before_its_digits() {
    assert_eq!(
        speedometer((300, 400), -7_500),
        vec![
            copy(rect(128, 106, 20, 5), rect(300, 400, 160, 40)),
            copy(rect(176, 74, 3, 5), rect(548, 400, 24, 40)),
            copy(rect(184, 74, 3, 5), rect(516, 400, 24, 40)),
            copy(rect(168, 74, 3, 5), rect(484, 400, 24, 40)),
        ]
    );
    assert_eq!(
        speedometer((300, 400), -42_000),
        vec![
            copy(rect(128, 106, 20, 5), rect(300, 400, 160, 40)),
            copy(rect(184, 64, 3, 5), rect(548, 400, 24, 40)),
            copy(rect(160, 69, 3, 5), rect(516, 400, 24, 40)),
            copy(rect(184, 74, 3, 5), rect(484, 400, 24, 40)),
        ]
    );
    assert_eq!(
        speedometer((300, 400), -142_000),
        vec![
            copy(rect(128, 106, 20, 5), rect(300, 400, 160, 40)),
            copy(rect(184, 64, 3, 5), rect(548, 400, 24, 40)),
            copy(rect(160, 69, 3, 5), rect(516, 400, 24, 40)),
            copy(rect(164, 64, 3, 5), rect(484, 400, 24, 40)),
        ]
    );
}

#[test]
fn the_speedometer_at_the_ends_of_the_range() {
    assert_eq!(speedometer((i16::MAX, i16::MAX), i64::MAX).len(), 4);
    assert_eq!(
        speedometer((i16::MAX, i16::MIN), i64::MIN)[1],
        copy(rect(184, 69, 3, 5), rect(33_015, -32_768, 24, 40))
    );
}

#[test]
fn the_angle_of_the_needle() {
    assert_eq!(tachometer_angle(0), -12_500);
    assert_eq!(tachometer_angle(4_000_000), -180_000);
    assert_eq!(tachometer_angle(8_000_000), -347_500);
    // 335 / 8000 of 700 is 29.3125
    assert_eq!(tachometer_angle(700_000), -41_812);
    assert_eq!(tachometer_angle(1), -12_500);
    assert_eq!(tachometer_angle(24), -12_501);
    assert_eq!(tachometer_angle(-24), -12_499);
    assert_eq!(tachometer_angle(i64::MAX), -386_228_704_043_306_236);
    assert_eq!(tachometer_angle(i64::MIN), 386_228_704_043_281_236);
}

#[test]
fn the_tachometer_with_its_needle() {
    assert_eq!(
        tachometer((128, 500), 4_000_000),
        vec![
            copy(rect(0, 0, 64, 64), rect(128, 500, 256, 256)),
            Command::Needle { x: 256, y: 628, angle: -180_000, length: 118, width: 8, color: GREY },
            Command::Needle { x: 256, y: 628, angle: -180_000, length: 116, width: 4, color: RED },
        ]
    );
    assert_eq!(
        tachometer((i16::MAX, i16::MIN), 0)[1],
        Command::Needle {
            x: 32_767,
            y: -32_640,
            angle: -12_500,
            length: 118,
            width: 8,
            color: GREY
        }
    );
}

#[test]
fn padding_and_centering() {
    assert_eq!(padded_end(800, 160), 464);
    assert_eq!(padded_end(800, 256), 416);
    assert_eq!(padded_end(0, 256), -384);
    assert_eq!(padded_end(800, 5), 542);
    assert_eq!(padded_end(800, -5), 546);
    assert_eq!(center(1920, 256), 832);
    assert_eq!(center(1920, 160), 880);
    assert_eq!(center(5, 3), 1);
    assert_eq!(center(-5, -3), -1);
    assert_eq!(center(i16::MAX, i16::MIN), 32_767);
}

#[test]
fn the_whole_picture() {
    let gear = Gear::Third;
    let peripherals = Peripherals { rpm: 4_000_000, kmh: 117_889, speed: &gear };
    let hand_state = Hand { offset: (250, -500), grabbing: true };
    let pedal_state = Pedals { clutch_down: false, speeder_down: true, brake_down: false };
    let picture = all((1920, 800), &peripherals, (500, -250), &hand_state, &pedal_state);

    let mut expected = Vec::new();
    expected.extend(tachometer((128, 416), 4_000_000));
    expected.extend(gearstick((1408, 464), (500, -250)));
    expected.extend(hand((1408, 464), (250, -500), true));
    expected.extend(pedals((880, 560), &pedal_state));
    expected.extend(gear_state((864, 416), &gear, false));
    expected.extend(speedometer((832, 352), 117_889));
    assert_eq!(picture, expected);
    assert_eq!(picture.len(), 16);
    assert_eq!(picture[0], copy(rect(0, 0, 64, 64), rect(128, 416, 256, 256)));
    assert_eq!(picture[3], copy(rect(128, 0, 64, 64), rect(1408, 464, 160, 160)));
    assert_eq!(picture[7], copy(rect(64, 64, 64, 64), rect(1440, 400, 160, 160)));
    assert_eq!(picture[11], copy(rect(128, 88, 24, 5), rect(864, 416, 192, 40)));
    assert_eq!(picture[15], copy(rect(164, 64, 3, 5), rect(1016, 352, 24, 40)));
}

#[test]
fn the_picture_in_the_smallest_and_the_largest_window() {
    let gear = Gear::Neutral;
    let peripherals = Peripherals { rpm: 0, kmh: 0, speed: &gear };
    let hand_state = Hand { offset: (0, 0), grabbing: false };
    let pedal_state = Pedals { clutch_down: true, speeder_down: false, brake_down: false };
    let small = all((0, 0), &peripherals, (0, 0), &hand_state, &pedal_state);
    assert_eq!(small.len(), 14);
    assert_eq!(small[3], copy(rect(128, 0, 64, 64), rect(-512, -336, 160, 160)));
    let large = all((i16::MAX, i16::MAX), &peripherals, (0, 0), &hand_state, &pedal_state);
    assert_eq!(large.len(), 14);
    assert_eq!(large[3], copy(rect(128, 0, 64, 64), rect(32_255, 32_431, 160, 160)));
}
