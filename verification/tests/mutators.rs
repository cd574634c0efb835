use deconz::light::AlertMode;
use deconz::light::ColorMode;
use deconz::light::Light;
use deconz::light::LightState;
use deconz::light::XyColor;

fn sample_light(ct_min: Option<u64>, ct_max: Option<u64>, state: LightState) -> Light {
    Light {
        color_capabilities: Some(8),
        ct_max,
        ct_min,
        last_announced: None,
        last_seen: Some("2024-01-01T00:00Z".to_string()),
        etag: "abcd1234".to_string(),
        has_color: true,
        manufacturer_name: "dresden elektronik".to_string(),
        name: "ceiling".to_string(),
        model_id: "TS0505B".to_string(),
        power_up: Some(1),
        sw_version: "2.0".to_string(),
        kind: "Extended color light".to_string(),
        state,
        unique_id: "00:11:22:33:44:55:66:77-01".to_string(),
    }
}

#[test]
fn brightness_clamps_low_from_absent() {
    let mut light = sample_light(None, None, LightState::default());
    light.change_brightness(-254);
    assert_eq!(light.state.bri, Some(0));
}

#[test]
fn brightness_adds_within_range() {
    let mut state = LightState::default();
    state.bri = Some(100);
    let mut light = sample_light(None, None, state);
    light.change_brightness(50);
    assert_eq!(light.state.bri, Some(150));
}

#[test]
fn brightness_clamps_high() {
    let mut state = LightState::default();
    state.bri = Some(200);
    let mut light = sample_light(None, None, state);
    light.change_brightness(100);
    assert_eq!(light.state.bri, Some(255));
}

#[test]
fn brightness_extreme_delta_saturates() {
    let mut state = LightState::default();
    state.bri = Some(255);
    let mut light = sample_light(None, None, state);
    light.change_brightness(i16::MAX);
    assert_eq!(light.state.bri, Some(255));
    light.change_brightness(i16::MIN);
    assert_eq!(light.state.bri, Some(0));
}

#[test]
fn brightness_only_touches_brightness() {
    let mut state = LightState::default();
    state.on = Some(true);
    state.hue = Some(7);
    let mut light = sample_light(None, None, state);
    light.change_brightness(10);
    assert_eq!(light.state.bri, Some(10));
    assert_eq!(light.state.on, Some(true));
    assert_eq!(light.state.hue, Some(7));
    assert_eq!(light.etag, "abcd1234".to_string());
}

#[test]
fn hue_treats_absent_as_zero() {
    let mut light = sample_light(None, None, LightState::default());
    light.change_hue(-5);
    assert_eq!(light.state.hue, Some(0));
    light.change_hue(1234);
    assert_eq!(light.state.hue, Some(1234));
}

#[test]
fn hue_clamps_to_32_bits() {
    let mut state = LightState::default();
    state.hue = Some(u32::MAX);
    let mut light = sample_light(None, None, state);
    light.change_hue(i64::MAX);
    assert_eq!(light.state.hue, Some(u32::MAX));
    light.change_hue(i64::MIN);
    assert_eq!(light.state.hue, Some(0));
}

#[test]
fn color_temperature_clamps_to_light_window() {
    let mut state = LightState::default();
    state.ct = Some(400);
    let mut light = sample_light(Some(153), Some(500), state);
    light.change_color_temperature(200);
    assert_eq!(light.state.ct, Some(500));
    light.change_color_temperature(-1000);
    assert_eq!(light.state.ct, Some(153));
}

#[test]
fn color_temperature_treats_absent_as_zero() {
    let mut light = sample_light(Some(153), Some(500), LightState::default());
    light.change_color_temperature(200);
    assert_eq!(light.state.ct, Some(200));
}

#[test]
fn color_temperature_extreme_deltas_saturate() {
    let mut state = LightState::default();
    state.ct = Some(300);
    let mut light = sample_light(Some(153), Some(500), state);
    light.change_color_temperature(i128::MAX);
    assert_eq!(light.state.ct, Some(500));
    light.change_color_temperature(i128::MIN);
    assert_eq!(light.state.ct, Some(153));
}

#[test]
fn color_temperature_without_bounds_is_a_no_op() {
    let mut state = LightState::default();
    state.ct = Some(300);
    let mut no_min = sample_light(None, Some(500), state);
    no_min.change_color_temperature(50);
    assert_eq!(no_min.state.ct, Some(300));
    let mut no_max = sample_light(Some(153), None, state);
    no_max.change_color_temperature(50);
    assert_eq!(no_max.state.ct, Some(300));
}

#[test]
fn power_set_twice_equals_once() {
    let mut once = sample_light(None, None, LightState::default());
    once.on(true);
    let mut twice = sample_light(None, None, LightState::default());
    twice.on(true).on(true);
    assert_eq!(once, twice);
}

#[test]
fn mutations_chain() {
    let mut light = sample_light(Some(153), Some(500), LightState::default());
    light.change_brightness(-254).on(true).change_color_temperature(1);
    assert_eq!(light.state.bri, Some(0));
    assert_eq!(light.state.on, Some(true));
    assert_eq!(light.state.ct, Some(153));
}

#[test]
fn state_is_a_value_type() {
    let state = LightState {
        alert: Some(AlertMode::Select),
        bri: Some(1),
        effect: Some(ColorMode::Ct),
        color_loop_speed: None,
        ct: None,
        hue: None,
        on: Some(false),
        sat: Some(2),
        transition_time: Some(9),
        xy: Some(XyColor { x: 2500, y: 5000 }),
    };
    let copy = state;
    assert_eq!(state, copy);
}
