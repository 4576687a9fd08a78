use colourado::recurrence::MIN_DIVERGENCE;
use colourado::units::{FULL_TURN, ONE};
use colourado::{ColorPalette, Hsv, Wave};

fn point(hue: u32, saturation: u32, value: u32) -> Hsv {
    Hsv { hue, saturation, value }
}

fn wave(hue: i64, saturation: i32, value: i32) -> Wave {
    Wave { hue, saturation, value }
}

#[test]
fn base_divergence_shrinks_with_the_count() {
    assert_eq!(ColorPalette::base_divergence(0, false), 80_000_000);
    assert_eq!(ColorPalette::base_divergence(0, true), 25_000_000);
    assert_eq!(ColorPalette::base_divergence(26, false), 70_000_000);
    assert_eq!(ColorPalette::base_divergence(13, true), 20_000_000);
    assert_eq!(ColorPalette::base_divergence(7, false), 77_307_693);
    assert_eq!(ColorPalette::base_divergence(4, true), 23_461_539);
}

#[test]
fn base_divergence_may_fall_below_the_minimum() {
    assert_eq!(ColorPalette::base_divergence(169, false), 15_000_000);
    assert_eq!(ColorPalette::base_divergence(170, false), 14_615_385);
    assert_eq!(
        ColorPalette::base_divergence(u32::MAX, true),
        -1_651_910_473_076_923
    );
}

#[test]
fn dark_step_follows_its_formula() {
    let mut p = point(350_000_000, 500_000, 500_000);
    ColorPalette::palette_dark(&mut p, &wave(500_000, 1_000_000, 600_000), 77_307_693);
    assert_eq!(p, point(67_807_693, 820_000, 200_000));
}

#[test]
fn pastel_step_follows_its_formula() {
    let mut p = point(10_000_000, 600_000, 900_000);
    ColorPalette::palette_pastel(&mut p, &wave(250_000, 800_000, 300_000), 23_846_154);
    assert_eq!(p, point(34_096_154, 160_000, 650_000));
}

#[test]
fn random_step_follows_its_formula() {
    let mut p = point(10_000_000, 600_000, 900_000);
    ColorPalette::palette_random(&mut p, &wave(3_000_000, 800_000, 300_000), 40_000_000);
    assert_eq!(p, point(53_000_000, 800_000, 300_000));
}

#[test]
fn random_step_clamps_saturation_and_value() {
    let mut low = point(0, 0, 0);
    ColorPalette::palette_random(&mut low, &wave(0, 399_999, 199_999), 20_000_000);
    assert_eq!(low, point(20_000_000, 400_000, 200_000));

    let mut edge = point(0, 0, 0);
    ColorPalette::palette_random(&mut edge, &wave(0, 400_000, 200_000), 20_000_000);
    assert_eq!(edge, point(20_000_000, 400_000, 200_000));

    let mut high = point(0, 0, 0);
    ColorPalette::palette_random(&mut high, &wave(0, 1_000_000, 850_001), 20_000_000);
    assert_eq!(high, point(20_000_000, 1_000_000, 850_000));

    let mut top = point(0, 0, 0);
    ColorPalette::palette_random(&mut top, &wave(0, 999_999, 850_000), 20_000_000);
    assert_eq!(top, point(20_000_000, 999_999, 850_000));
}

#[test]
fn small_divergence_is_raised_to_fifteen_degrees() {
    assert_eq!(MIN_DIVERGENCE, 15_000_000);
    for divergence in [14_999_999, 0, -5, -1_651_910_473_076_923, i64::MIN] {
        let mut dark = point(100_000_000, 0, 0);
        ColorPalette::palette_dark(&mut dark, &wave(0, 0, 0), divergence);
        assert_eq!(dark.hue, 115_000_000);

        let mut pastel = point(100_000_000, 0, 0);
        ColorPalette::palette_pastel(&mut pastel, &wave(0, 0, 0), divergence);
        assert_eq!(pastel.hue, 115_000_000);

        let mut random = point(100_000_000, 0, 0);
        ColorPalette::palette_random(&mut random, &wave(0, 0, 0), divergence);
        assert_eq!(random.hue, 115_000_000);
    }
    let mut kept = point(100_000_000, 0, 0);
    ColorPalette::palette_dark(&mut kept, &wave(0, 0, 0), 15_000_001);
    assert_eq!(kept.hue, 115_000_001);
}

#[test]
fn hue_wraps_round_the_circle() {
    let mut p = point(359_999_999, 0, 0);
    ColorPalette::palette_pastel(&mut p, &wave(0, 0, 0), -5);
    assert_eq!(p.hue, 14_999_999);

    let mut q = point(345_000_000, 0, 0);
    ColorPalette::palette_dark(&mut q, &wave(0, 0, 0), 15_000_000);
    assert_eq!(q.hue, 0);
}

#[test]
fn only_the_magnitude_of_a_sample_counts() {
    let mut up = point(350_000_000, 500_000, 500_000);
    ColorPalette::palette_dark(&mut up, &wave(500_000, 1_000_000, 600_000), 77_307_693);
    let mut down = point(350_000_000, 500_000, 500_000);
    ColorPalette::palette_dark(&mut down, &wave(-500_000, -1_000_000, -600_000), 77_307_693);
    assert_eq!(up, down);
    assert_eq!(down, point(67_807_693, 820_000, 200_000));

    let mut pastel = point(10_000_000, 600_000, 900_000);
    ColorPalette::palette_pastel(&mut pastel, &wave(-250_000, -800_000, -300_000), 23_846_154);
    assert_eq!(pastel, point(34_096_154, 160_000, 650_000));

    let mut random = point(10_000_000, 600_000, 900_000);
    ColorPalette::palette_random(&mut random, &wave(-3_000_000, -800_000, -300_000), 40_000_000);
    assert_eq!(random, point(53_000_000, 800_000, 300_000));

    let mut clamped = point(0, 0, 0);
    ColorPalette::palette_random(&mut clamped, &wave(0, -399_999, -850_001), 20_000_000);
    assert_eq!(clamped, point(20_000_000, 400_000, 850_000));
}

#[test]
fn hue_stays_on_the_circle_for_extreme_inputs() {
    let mut p = point(0, 0, 0);
    ColorPalette::palette_random(&mut p, &wave(i64::MIN, 0, 0), i64::MAX);
    assert_eq!(p.hue, 109_551_615);

    let mut q = point(0, 0, 0);
    ColorPalette::palette_dark(&mut q, &wave(i64::MIN, 0, 0), i64::MIN);
    assert_eq!(q.hue, 69_775_808);

    for hue in [0, 1, FULL_TURN - 1, FULL_TURN, u32::MAX] {
        for sample in [i64::MIN, -22_900_000_000_000, -1, 0, 1, 999_999, i64::MAX] {
            for divergence in [i64::MIN, -1, 0, 15_000_000, 80_000_000, i64::MAX] {
                let w = wave(sample, 1_000_000, 1_000_000);
                let mut dark = point(hue, 0, 0);
                ColorPalette::palette_dark(&mut dark, &w, divergence);
                assert!(dark.hue < FULL_TURN);
                let mut pastel = point(hue, 0, 0);
                ColorPalette::palette_pastel(&mut pastel, &w, divergence);
                assert!(pastel.hue < FULL_TURN);
                let mut random = point(hue, 0, 0);
                ColorPalette::palette_random(&mut random, &w, divergence);
                assert!(random.hue < FULL_TURN);
            }
        }
    }
}

#[test]
fn samples_beyond_one_do_not_overflow() {
    let mut dark = point(0, 0, 0);
    ColorPalette::palette_dark(&mut dark, &wave(0, i32::MIN, i32::MIN), 0);
    assert_eq!(dark, point(15_000_000, 1_074_061_824, 358_013_941));

    let mut pastel = point(0, 0, 0);
    ColorPalette::palette_pastel(&mut pastel, &wave(0, i32::MIN, i32::MIN), 0);
    assert_eq!(pastel, point(15_000_000, 429_496_729, 1_074_241_824));

    let mut random = point(0, 0, 0);
    ColorPalette::palette_random(&mut random, &wave(0, i32::MIN, i32::MIN), 0);
    assert_eq!(random, point(15_000_000, 2_147_483_648, 850_000));
}

#[test]
fn well_formed_points_and_waves_are_recognised() {
    assert!(point(0, 0, 0).is_well_formed());
    assert!(point(FULL_TURN - 1, ONE, ONE).is_well_formed());
    assert!(!point(FULL_TURN, ONE, ONE).is_well_formed());
    assert!(!point(0, ONE + 1, ONE).is_well_formed());
    assert!(!point(0, ONE, ONE + 1).is_well_formed());

    assert!(wave(0, 0, 0).is_well_formed());
    assert!(wave(i64::MIN, 1_000_000, -1_000_000).is_well_formed());
    assert!(wave(i64::MAX, -1_000_000, 1_000_000).is_well_formed());
    assert!(!wave(0, 1_000_001, 0).is_well_formed());
    assert!(!wave(0, -1_000_001, 0).is_well_formed());
    assert!(!wave(0, 0, 1_000_001).is_well_formed());
    assert!(!wave(0, 0, -1_000_001).is_well_formed());
}

#[test]
fn steps_keep_saturation_and_value_in_the_unit_interval() {
    for magnitude in [-1_000_000, -400_000, 0, 1, 400_000, 999_999, 1_000_000] {
        let w = wave(0, magnitude, magnitude);

        let mut dark = point(0, ONE, ONE);
        ColorPalette::palette_dark(&mut dark, &w, 0);
        assert!(320_000 <= dark.saturation && dark.saturation <= 820_000);
        assert!(100_000 <= dark.value && dark.value <= 266_666);

        let mut pastel = point(0, ONE, ONE);
        ColorPalette::palette_pastel(&mut pastel, &w, 0);
        assert!(pastel.saturation <= 200_000);
        assert!(500_000 <= pastel.value && pastel.value <= ONE);

        let mut random = point(0, ONE, ONE);
        ColorPalette::palette_random(&mut random, &w, 0);
        assert!(400_000 <= random.saturation && random.saturation <= ONE);
        assert!(200_000 <= random.value && random.value <= 850_000);
    }
}
