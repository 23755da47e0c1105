use reload::processor::{GainModel, LEVEL_UNIT};
use reload::ui_state::{format_value, update_value_text, State};

#[test]
fn format_one_decimal_place() {
    let mut text = String::new();
    format_value(&mut text, -60, "Decibels");
    assert_eq!(text, "-6.0 Decibels");
    format_value(&mut text, 30, "Decibels");
    assert_eq!(text, "3.0 Decibels");
    format_value(&mut text, -905, "Decibels");
    assert_eq!(text, "-90.5 Decibels");
    format_value(&mut text, 0, "Decibels");
    assert_eq!(text, "0.0 Decibels");
}

#[test]
fn update_only_on_change() {
    let mut text = String::from("stale");
    update_value_text(&mut text, false, 30, "Decibels");
    assert_eq!(text, "stale");
    update_value_text(&mut text, true, 30, "Decibels");
    assert_eq!(text, "3.0 Decibels");
}

#[test]
fn fresh_state_has_no_rendered_text() {
    let state = State::new(GainModel::default());
    assert_eq!(state.model.gain_left, LEVEL_UNIT);
    assert_eq!(state.model.gain_right, LEVEL_UNIT);
    assert_eq!(state.model.gain_master, LEVEL_UNIT);
    assert_eq!(state.gain_master_value, "");
    assert_eq!(state.gain_left_value, "");
    assert_eq!(state.gain_right_value, "");
}
