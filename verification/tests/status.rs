use buds_link::codec::{
    ExtendedStatusUpdate, NoiseControlMode, NoiseControlsUpdated, StatusUpdate,
};
use buds_link::model::buds_status::{noise_control_from_status_update, BudsStatus, UpdateFrom};
use buds_link::model::util::OptionNaExt;

fn extended(left: i8, right: i8, case: i8, noise: bool, ambient: bool) -> ExtendedStatusUpdate {
    ExtendedStatusUpdate {
        battery_left: left,
        battery_right: right,
        battery_case: case,
        noise_reduction: noise,
        ambient_sound_enabled: ambient,
    }
}

#[test]
fn battery_text_shows_one_figure_for_equal_levels() {
    let status = BudsStatus::from(&extended(80, 80, 55, false, false));
    assert_eq!(status.battery_text(), "L / R 80%");
}

#[test]
fn battery_text_shows_both_figures_for_different_levels() {
    let status = BudsStatus::from(&extended(100, 7, 55, false, false));
    assert_eq!(status.battery_text(), "L 100% / R 7%");
}

#[test]
fn battery_text_matches_the_standard_formatting_for_every_level() {
    for level in i8::MIN..=i8::MAX {
        let status = BudsStatus::from(&extended(level, level, level, false, false));
        assert_eq!(status.battery_text(), format!("L / R {}%", level));
        assert_eq!(status.case_battery_text(), format!("{}%", level));
        let other = BudsStatus::from(&extended(level, 0, 0, false, false));
        if level != 0 {
            assert_eq!(other.battery_text(), format!("L {}% / R {}%", level, 0));
        }
    }
}

#[test]
fn case_battery_text_is_a_percentage() {
    assert_eq!(BudsStatus::from(&extended(1, 2, 0, false, false)).case_battery_text(), "0%");
    assert_eq!(BudsStatus::from(&extended(1, 2, 9, false, false)).case_battery_text(), "9%");
    assert_eq!(BudsStatus::from(&extended(1, 2, 10, false, false)).case_battery_text(), "10%");
    assert_eq!(BudsStatus::from(&extended(1, 2, 127, false, false)).case_battery_text(), "127%");
    assert_eq!(BudsStatus::from(&extended(1, 2, -1, false, false)).case_battery_text(), "-1%");
    assert_eq!(BudsStatus::from(&extended(1, 2, -128, false, false)).case_battery_text(), "-128%");
}

#[test]
fn mode_comes_from_the_extended_status() {
    assert_eq!(
        noise_control_from_status_update(&extended(0, 0, 0, true, false)),
        NoiseControlMode::NoiseReduction
    );
    assert_eq!(
        noise_control_from_status_update(&extended(0, 0, 0, true, true)),
        NoiseControlMode::NoiseReduction
    );
    assert_eq!(
        noise_control_from_status_update(&extended(0, 0, 0, false, true)),
        NoiseControlMode::AmbientSound
    );
    assert_eq!(
        noise_control_from_status_update(&extended(0, 0, 0, false, false)),
        NoiseControlMode::Off
    );
}

#[test]
fn mode_text_names_the_mode() {
    assert_eq!(
        BudsStatus::from(&extended(0, 0, 0, true, false)).noise_control_mode_text(),
        "Noise Reduction"
    );
    assert_eq!(
        BudsStatus::from(&extended(0, 0, 0, false, true)).noise_control_mode_text(),
        "Ambient Sound"
    );
    assert_eq!(BudsStatus::from(&extended(0, 0, 0, false, false)).noise_control_mode_text(), "Off");
}

#[test]
fn status_update_changes_the_levels_only() {
    let mut status = BudsStatus::from(&extended(1, 2, 3, true, false));
    status.update(&StatusUpdate { battery_left: 40, battery_right: 41, battery_case: 42 });
    assert_eq!(status.battery_text(), "L 40% / R 41%");
    assert_eq!(status.case_battery_text(), "42%");
    assert_eq!(status.noise_control_mode(), NoiseControlMode::NoiseReduction);
}

#[test]
fn extended_status_update_changes_everything() {
    let mut status = BudsStatus::from(&extended(1, 2, 3, true, false));
    status.update(&extended(9, 9, 8, false, true));
    assert_eq!(status.battery_text(), "L / R 9%");
    assert_eq!(status.case_battery_text(), "8%");
    assert_eq!(status.noise_control_mode(), NoiseControlMode::AmbientSound);
    assert_eq!(status, BudsStatus::from(&extended(9, 9, 8, false, true)));
}

#[test]
fn noise_controls_update_changes_the_mode_only() {
    let mut status = BudsStatus::from(&extended(1, 2, 3, true, false));
    status.update(&NoiseControlsUpdated { noise_control_mode: NoiseControlMode::Off });
    assert_eq!(status.battery_text(), "L 1% / R 2%");
    assert_eq!(status.case_battery_text(), "3%");
    assert_eq!(status.noise_control_mode(), NoiseControlMode::Off);
}

#[test]
fn or_na_shows_the_value_or_its_absence() {
    let known = Some(BudsStatus::from(&extended(5, 5, 6, false, false)));
    let unknown: Option<BudsStatus> = None;
    assert_eq!(known.or_na(BudsStatus::battery_text), "L / R 5%");
    assert_eq!(known.or_na(BudsStatus::case_battery_text), "6%");
    assert_eq!(known.or_na(BudsStatus::noise_control_mode_text), "Off");
    assert_eq!(unknown.or_na(BudsStatus::battery_text), "N/A");
    assert_eq!(Some(3u8).or_na(|n: &u8| format!("<{}>", n)), "<3>");
}
