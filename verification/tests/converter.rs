use colourado::units::{FULL_TURN, ONE, SECTOR};
use colourado::Color;

fn rgb(red: u32, green: u32, blue: u32) -> Color {
    Color { red, green, blue }
}

#[test]
fn primaries_sit_at_0_120_and_240_degrees() {
    assert_eq!(Color::hsv_to_rgb(0, ONE, ONE), rgb(ONE, 0, 0));
    assert_eq!(Color::hsv_to_rgb(120_000_000, ONE, ONE), rgb(0, ONE, 0));
    assert_eq!(Color::hsv_to_rgb(240_000_000, ONE, ONE), rgb(0, 0, ONE));
}

#[test]
fn each_sector_uses_its_own_channel_order() {
    assert_eq!(Color::hsv_to_rgb(30_000_000, ONE, ONE), rgb(1_000_000, 500_000, 0));
    assert_eq!(Color::hsv_to_rgb(90_000_000, ONE, ONE), rgb(500_000, 1_000_000, 0));
    assert_eq!(Color::hsv_to_rgb(150_000_000, ONE, ONE), rgb(0, 1_000_000, 500_000));
    assert_eq!(Color::hsv_to_rgb(210_000_000, ONE, ONE), rgb(0, 500_000, 1_000_000));
    assert_eq!(Color::hsv_to_rgb(270_000_000, ONE, ONE), rgb(500_000, 0, 1_000_000));
    assert_eq!(Color::hsv_to_rgb(330_000_000, ONE, ONE), rgb(1_000_000, 0, 500_000));
}

#[test]
fn converts_a_muted_colour_exactly() {
    // chroma 0.15, ramp 0.75, offset 0.15
    assert_eq!(
        Color::hsv_to_rgb(315_000_000, 500_000, 300_000),
        rgb(300_000, 150_000, 262_500)
    );
    // chroma 0.675, ramp 45.5 / 60, offset 0.225
    assert_eq!(
        Color::hsv_to_rgb(45_500_000, 750_000, 900_000),
        rgb(900_000, 736_875, 225_000)
    );
}

#[test]
fn divisions_round_down() {
    // chroma is 333_333 * 333_333 / 1_000_000 = 111_110.88..., kept as 111_110
    assert_eq!(
        Color::hsv_to_rgb(0, 333_333, 333_333),
        rgb(333_333, 222_223, 222_223)
    );
}

#[test]
fn hue_outside_the_circle_gives_grey() {
    assert_eq!(Color::hsv_to_rgb(FULL_TURN, ONE, ONE), rgb(0, 0, 0));
    assert_eq!(
        Color::hsv_to_rgb(400_000_000, 500_000, 800_000),
        rgb(400_000, 400_000, 400_000)
    );
    assert_eq!(
        Color::hsv_to_rgb(u32::MAX, 250_000, ONE),
        rgb(750_000, 750_000, 750_000)
    );
}

#[test]
fn zero_saturation_is_grey_and_zero_value_is_black() {
    assert_eq!(
        Color::hsv_to_rgb(200_000_000, 0, 700_000),
        rgb(700_000, 700_000, 700_000)
    );
    assert_eq!(Color::hsv_to_rgb(77_000_000, ONE, 0), rgb(0, 0, 0));
}

#[test]
fn colour_is_continuous_across_sector_boundaries() {
    assert_eq!(Color::hsv_to_rgb(SECTOR - 1, ONE, ONE), rgb(1_000_000, 999_999, 0));
    assert_eq!(Color::hsv_to_rgb(SECTOR, ONE, ONE), rgb(1_000_000, 1_000_000, 0));
    for boundary in 1..6u32 {
        let before = Color::hsv_to_rgb(boundary * SECTOR - 1, 900_000, 800_000).to_array();
        let after = Color::hsv_to_rgb(boundary * SECTOR, 900_000, 800_000).to_array();
        for channel in 0..3 {
            assert!(before[channel].abs_diff(after[channel]) <= 1);
        }
    }
}

#[test]
fn colour_is_continuous_across_the_wrap() {
    assert_eq!(Color::hsv_to_rgb(FULL_TURN - 1, ONE, ONE), rgb(1_000_000, 0, 0));
    assert_eq!(
        Color::hsv_to_rgb(FULL_TURN - 1, 640_000, 810_000),
        Color::hsv_to_rgb(0, 640_000, 810_000)
    );
}

#[test]
fn channels_stay_in_the_unit_interval() {
    let mut hue: u32 = 0;
    while hue < FULL_TURN + SECTOR {
        for saturation in [0, 1, 250_000, 499_999, 999_999, ONE] {
            for value in [0, 1, 123_456, 500_000, 999_999, ONE] {
                let color = Color::hsv_to_rgb(hue, saturation, value);
                assert!(color.red <= ONE);
                assert!(color.green <= ONE);
                assert!(color.blue <= ONE);
                assert!(color.red <= value && color.green <= value && color.blue <= value);
            }
        }
        hue += 1_234_567;
    }
}

#[test]
fn to_array_lists_red_green_blue() {
    let color = rgb(1, 20, 300);
    assert_eq!(color.to_array(), [1, 20, 300]);
    let converted = Color::hsv_to_rgb(315_000_000, 500_000, 300_000);
    assert_eq!(converted.to_array(), [300_000, 150_000, 262_500]);
}
