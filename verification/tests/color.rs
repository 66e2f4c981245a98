use solar_renderer::fixed::ONE;
use solar_renderer::screen::color::Color;

#[test]
fn new_pins_each_channel() {
    assert_eq!(Color::new(10, 20, 30), Color { r: 10, g: 20, b: 30 });
    assert_eq!(Color::new(-1, 256, 255), Color { r: 0, g: 255, b: 255 });
    assert_eq!(Color::new(i32::MIN, i32::MAX, 0), Color { r: 0, g: 255, b: 0 });
}

#[test]
fn black_is_all_zero() {
    assert_eq!(Color::black(), Color { r: 0, g: 0, b: 0 });
    assert_eq!(Color::black().to_hex(), 0);
}

#[test]
fn hex_packs_red_highest() {
    assert_eq!(Color::from_hex(0x123456), Color { r: 0x12, g: 0x34, b: 0x56 });
    assert_eq!(Color { r: 0x12, g: 0x34, b: 0x56 }.to_hex(), 0x123456);
    assert_eq!(Color::from_hex(0xff00_0001), Color { r: 0, g: 0, b: 1 });
    assert_eq!(Color::from_hex(0xffff_ffff).to_hex(), 0x00ff_ffff);
}

#[test]
fn hex_round_trip_gives_the_colour_back() {
    for r in [0u8, 1, 127, 128, 255] {
        for g in [0u8, 17, 255] {
            for b in [0u8, 200, 255] {
                let c = Color { r, g, b };
                assert_eq!(Color::from_hex(c.to_hex()), c);
            }
        }
    }
}

#[test]
fn sum_stops_at_white() {
    let a = Color { r: 200, g: 100, b: 0 };
    let b = Color { r: 100, g: 100, b: 0 };
    assert_eq!(a + b, Color { r: 255, g: 200, b: 0 });
}

#[test]
fn scaling_rounds_down_and_pins() {
    let c = Color { r: 200, g: 100, b: 51 };
    assert_eq!(c * ONE, c);
    assert_eq!(c * (ONE / 2), Color { r: 100, g: 50, b: 25 });
    assert_eq!(c * (2 * ONE), Color { r: 255, g: 200, b: 102 });
    assert_eq!(c * 0, Color::black());
    assert_eq!(c * -ONE, Color::black());
    assert_eq!(c * i32::MAX, Color { r: 255, g: 255, b: 255 });
    assert_eq!(c * i32::MIN, Color::black());
}
