use deconz::connection::LightAttributes;
use deconz::endpoints::configuration::TokenRequest;
use deconz::endpoints::rules::ActionMethod;
use deconz::endpoints::rules::Operator;
use deconz::endpoints::rules::RuleStatus;
use deconz::endpoints::schedules::ScheduleMethod;
use deconz::endpoints::schedules::ScheduleStatus;
use deconz::light::AlertMode;
use deconz::light::ColorMode;
use deconz::light::Light;
use deconz::light::LightState;
use deconz::light::XyColor;
use deconz::wire::WireValue;
use deconz::wire::parse_alert_token;
use deconz::wire::parse_color_mode_token;

fn full_state() -> LightState {
    LightState {
        alert: Some(AlertMode::Lselect),
        bri: Some(100),
        effect: Some(ColorMode::Hs),
        color_loop_speed: Some(3),
        ct: Some(400),
        hue: Some(40000),
        on: Some(true),
        sat: Some(200),
        transition_time: Some(9),
        xy: Some(XyColor { x: 2500, y: 5000 }),
    }
}

#[test]
fn full_state_round_trips_through_the_wire_form() {
    let state = full_state();
    let entries = state.to_wire();
    let back = LightState::from_wire(&entries).unwrap();
    assert_eq!(back, state);
}

#[test]
fn wire_entries_use_the_gateway_field_names_in_order() {
    let state = full_state();
    let entries = state.to_wire();
    let names: Vec<&str> = entries.iter().map(|p| p.0.as_str()).collect();
    assert_eq!(
        names,
        vec![
            "alert",
            "bri",
            "effect",
            "colorloopspeed",
            "ct",
            "hue",
            "on",
            "sat",
            "transitiontime",
            "xy",
        ]
    );
}

#[test]
fn wire_values_carry_the_field_values() {
    let state = full_state();
    let entries = state.to_wire();
    assert_eq!(entries[0].1, WireValue::Text("lselect".to_string()));
    assert_eq!(entries[1].1, WireValue::UInt(100));
    assert_eq!(entries[2].1, WireValue::Text("hs".to_string()));
    assert_eq!(entries[6].1, WireValue::Bool(true));
    assert_eq!(entries[9].1, WireValue::Xy(XyColor { x: 2500, y: 5000 }));
}

#[test]
fn absent_fields_are_not_serialized() {
    let empty = LightState::default();
    assert!(empty.to_wire().is_empty());
    let mut partial = LightState::default();
    partial.bri = Some(1);
    partial.on = Some(false);
    let entries = partial.to_wire();
    assert_eq!(entries.len(), 2);
    assert_eq!(entries[0].0, "bri".to_string());
    assert_eq!(entries[1].0, "on".to_string());
    let back = LightState::from_wire(&entries).unwrap();
    assert_eq!(back, partial);
}

#[test]
fn empty_wire_object_is_the_empty_state() {
    let entries: Vec<(String, WireValue)> = vec![];
    assert_eq!(LightState::from_wire(&entries), Some(LightState::default()));
}

#[test]
fn unknown_field_name_is_rejected() {
    let entries = vec![("brightness".to_string(), WireValue::UInt(1))];
    assert_eq!(LightState::from_wire(&entries), None);
}

#[test]
fn out_of_range_value_is_rejected() {
    let entries = vec![("bri".to_string(), WireValue::UInt(300))];
    assert_eq!(LightState::from_wire(&entries), None);
    let hue = vec![("hue".to_string(), WireValue::UInt(0x1_0000_0000))];
    assert_eq!(LightState::from_wire(&hue), None);
}

#[test]
fn wrongly_shaped_value_is_rejected() {
    let entries = vec![("bri".to_string(), WireValue::Text("dim".to_string()))];
    assert_eq!(LightState::from_wire(&entries), None);
    let alert = vec![("alert".to_string(), WireValue::Text("blink".to_string()))];
    assert_eq!(LightState::from_wire(&alert), None);
}

#[test]
fn later_entries_overwrite_earlier_ones() {
    let entries = vec![
        ("bri".to_string(), WireValue::UInt(10)),
        ("bri".to_string(), WireValue::UInt(20)),
    ];
    let back = LightState::from_wire(&entries).unwrap();
    assert_eq!(back.bri, Some(20));
}

#[test]
fn mode_tokens_are_lowercase_and_round_trip() {
    assert_eq!(AlertMode::NoAlert.wire_token(), "none".to_string());
    assert_eq!(AlertMode::Select.wire_token(), "select".to_string());
    assert_eq!(AlertMode::Lselect.wire_token(), "lselect".to_string());
    assert_eq!(ColorMode::NoColor.wire_token(), "none".to_string());
    assert_eq!(ColorMode::Hs.wire_token(), "hs".to_string());
    assert_eq!(ColorMode::Xy.wire_token(), "xy".to_string());
    assert_eq!(ColorMode::Ct.wire_token(), "ct".to_string());
    for m in [AlertMode::NoAlert, AlertMode::Select, AlertMode::Lselect] {
        assert_eq!(parse_alert_token(m.wire_token().as_str()), Some(m));
    }
    for m in [ColorMode::NoColor, ColorMode::Hs, ColorMode::Xy, ColorMode::Ct] {
        assert_eq!(parse_color_mode_token(m.wire_token().as_str()), Some(m));
    }
    assert_eq!(parse_alert_token("selectx"), None);
    assert_eq!(parse_color_mode_token(""), None);
}

fn sample_light() -> Light {
    Light {
        color_capabilities: Some(8),
        ct_max: Some(500),
        ct_min: None,
        last_announced: None,
        last_seen: Some("2024-01-01T00:00Z".to_string()),
        etag: "abcd1234".to_string(),
        has_color: true,
        manufacturer_name: "dresden elektronik".to_string(),
        name: "ceiling".to_string(),
        model_id: "TS0505B".to_string(),
        power_up: Some(1),
        sw_version: "2.0".to_string(),
        kind: "Extended color light".to_string(),
        state: full_state(),
        unique_id: "00:11:22:33:44:55:66:77-01".to_string(),
    }
}

#[test]
fn light_round_trips_through_the_wire_form() {
    let light = sample_light();
    let entries = light.to_wire();
    let back = Light::from_wire(&entries).unwrap();
    assert_eq!(back, light);
}

#[test]
fn light_wire_entries_use_the_gateway_field_names() {
    let entries = sample_light().to_wire();
    let names: Vec<&str> = entries.iter().map(|p| p.0.as_str()).collect();
    assert_eq!(
        names,
        vec![
            "colorcapabilities",
            "ctmax",
            "lastseen",
            "etag",
            "hascolor",
            "manufacturername",
            "name",
            "modelid",
            "powerup",
            "swversion",
            "type",
            "state",
            "uniqueid",
        ]
    );
}

#[test]
fn light_state_nests_inside_the_light_entries() {
    let light = sample_light();
    let entries = light.to_wire();
    let state_entry = entries.iter().find(|p| p.0 == "state").unwrap();
    assert_eq!(state_entry.1, WireValue::State(full_state()));
}

#[test]
fn light_missing_a_required_field_is_rejected() {
    let light = sample_light();
    let entries: Vec<(String, WireValue)> =
        light.to_wire().into_iter().filter(|p| p.0 != "etag").collect();
    assert_eq!(Light::from_wire(&entries), None);
}

#[test]
fn light_with_an_unknown_field_is_rejected() {
    let mut entries = sample_light().to_wire();
    entries.push(("battery".to_string(), WireValue::UInt(80)));
    assert_eq!(Light::from_wire(&entries), None);
}

#[test]
fn token_request_wire_form_holds_both_fields() {
    let request =
        TokenRequest::new("my-app".to_string(), Some("0123456789".to_string())).unwrap();
    let entries = request.to_wire();
    assert_eq!(entries.len(), 2);
    assert_eq!(entries[0].0, "username".to_string());
    assert_eq!(entries[0].1, WireValue::Text("0123456789".to_string()));
    assert_eq!(entries[1].0, "devicetype".to_string());
    assert_eq!(entries[1].1, WireValue::Text("my-app".to_string()));
}

#[test]
fn token_request_wire_form_skips_an_absent_username() {
    let request = TokenRequest::new("my-app".to_string(), None).unwrap();
    let entries = request.to_wire();
    assert_eq!(entries.len(), 1);
    assert_eq!(entries[0].0, "devicetype".to_string());
}

#[test]
fn attributes_wire_form_holds_the_name() {
    let attrs = LightAttributes { name: "kitchen".to_string() };
    let entries = attrs.to_wire();
    assert_eq!(entries.len(), 1);
    assert_eq!(entries[0].0, "name".to_string());
    assert_eq!(entries[0].1, WireValue::Text("kitchen".to_string()));
}

#[test]
fn default_state_has_every_field_absent() {
    let state = LightState::default();
    assert_eq!(state.alert, None);
    assert_eq!(state.bri, None);
    assert_eq!(state.effect, None);
    assert_eq!(state.color_loop_speed, None);
    assert_eq!(state.ct, None);
    assert_eq!(state.hue, None);
    assert_eq!(state.on, None);
    assert_eq!(state.sat, None);
    assert_eq!(state.transition_time, None);
    assert_eq!(state.xy, None);
}

#[test]
fn rule_and_schedule_tokens_match_the_wire_convention() {
    assert_eq!(RuleStatus::Enabled.wire_token(), "enabled".to_string());
    assert_eq!(RuleStatus::Disabled.wire_token(), "disabled".to_string());
    assert_eq!(ActionMethod::Put.wire_token(), "PUT".to_string());
    assert_eq!(ActionMethod::Post.wire_token(), "POST".to_string());
    assert_eq!(ActionMethod::Delete.wire_token(), "DELETE".to_string());
    assert_eq!(ActionMethod::Bind.wire_token(), "BIND".to_string());
    assert_eq!(Operator::Equals.wire_token(), "eq".to_string());
    assert_eq!(Operator::GreaterThan.wire_token(), "gt".to_string());
    assert_eq!(Operator::LessThan.wire_token(), "lt".to_string());
    assert_eq!(Operator::OnChange.wire_token(), "dx".to_string());
    assert_eq!(ScheduleStatus::Enabled.wire_token(), "enabled".to_string());
    assert_eq!(ScheduleStatus::Disabled.wire_token(), "disabled".to_string());
    assert_eq!(ScheduleMethod::Put.wire_token(), "PUT".to_string());
}
