//! The wire form of the gateway's resources: the flattened field names,
//! the lowercase tokens of the enumerated modes, and the round trips
//! between a `LightState` or a `Light` and the list of fields it
//! serializes to. Token requests and attribute updates get their wire
//! forms here too.
//!
//! A wire object is an ordered list of `(field name, value)` entries; an
//! embedding application renders such a list as a JSON object and decodes
//! a received JSON object back into one.

use vstd::prelude::*;

use crate::connection::LightAttributes;
use crate::endpoints::configuration::TokenRequest;
use crate::light::AlertMode;
use crate::light::ColorMode;
use crate::light::Light;
use crate::light::LightState;
use crate::light::XyColor;
use crate::light::empty_state;

verus! {

/// One JSON-level value of a resource field. A light's `state` field is a
/// nested object; it is carried here as the structured state, whose own
/// wire form the state codec defines.
#[derive(Debug, Clone, PartialEq)]
pub enum WireValue {
    Bool(bool),
    UInt(u64),
    Text(String),
    Xy(XyColor),
    State(LightState),
}

/// The mathematical value of a wire value: text becomes its character
/// sequence.
pub enum WireValueView {
    Bool(bool),
    UInt(u64),
    Text(Seq<char>),
    Xy(XyColor),
    State(LightState),
}

impl View for WireValue {
    type V = WireValueView;

    open spec fn view(&self) -> WireValueView {
        match self {
            WireValue::Bool(b) => WireValueView::Bool(*b),
            WireValue::UInt(v) => WireValueView::UInt(*v),
            WireValue::Text(t) => WireValueView::Text(t@),
            WireValue::Xy(c) => WireValueView::Xy(*c),
            WireValue::State(s) => WireValueView::State(*s),
        }
    }
}

/// The views of a list of wire entries.
pub open spec fn entries_view(ps: Seq<(String, WireValue)>) -> Seq<(Seq<char>, WireValueView)> {
    Seq::new(ps.len(), |i: int| (ps[i].0@, ps[i].1@))
}

/// The lowercase wire token of an alert mode.
pub open spec fn alert_token(m: AlertMode) -> Seq<char> {
    match m {
        AlertMode::NoAlert => "none"@,
        AlertMode::Select => "select"@,
        AlertMode::Lselect => "lselect"@,
    }
}

/// The alert mode a wire token stands for.
pub open spec fn alert_of_token(t: Seq<char>) -> Option<AlertMode> {
    if t == "none"@ {
        Some(AlertMode::NoAlert)
    } else if t == "select"@ {
        Some(AlertMode::Select)
    } else if t == "lselect"@ {
        Some(AlertMode::Lselect)
    } else {
        None
    }
}

/// The lowercase wire token of a color mode.
pub open spec fn color_mode_token(m: ColorMode) -> Seq<char> {
    match m {
        ColorMode::NoColor => "none"@,
        ColorMode::Hs => "hs"@,
        ColorMode::Xy => "xy"@,
        ColorMode::Ct => "ct"@,
    }
}

/// The color mode a wire token stands for.
pub open spec fn color_mode_of_token(t: Seq<char>) -> Option<ColorMode> {
    if t == "none"@ {
        Some(ColorMode::NoColor)
    } else if t == "hs"@ {
        Some(ColorMode::Hs)
    } else if t == "xy"@ {
        Some(ColorMode::Xy)
    } else if t == "ct"@ {
        Some(ColorMode::Ct)
    } else {
        None
    }
}

/// Every alert mode round-trips through its wire token.
pub proof fn lemma_alert_token_round_trip(m: AlertMode)
    ensures
        alert_of_token(alert_token(m)) == Some(m),
{
    reveal_strlit("none");
    reveal_strlit("select");
    reveal_strlit("lselect");
    assert("none"@.len() == 4);
    assert("select"@.len() == 6);
    assert("lselect"@.len() == 7);
}

/// Every color mode round-trips through its wire token.
pub proof fn lemma_color_mode_token_round_trip(m: ColorMode)
    ensures
        color_mode_of_token(color_mode_token(m)) == Some(m),
{
    reveal_strlit("none");
    reveal_strlit("hs");
    reveal_strlit("xy");
    reveal_strlit("ct");
    assert("none"@.len() == 4);
    assert("hs"@.len() == 2);
    assert("hs"@[0] == 'h');
    assert("xy"@[0] == 'x');
    assert("ct"@[0] == 'c');
}

impl AlertMode {
    /// The token this mode serializes to.
    pub fn wire_token(&self) -> (r: String)
        ensures
            r@ == alert_token(*self),
    {
        match *self {
            AlertMode::NoAlert => String::from_str("none"),
            AlertMode::Select => String::from_str("select"),
            AlertMode::Lselect => String::from_str("lselect"),
        }
    }
}

impl ColorMode {
    /// The token this mode serializes to.
    pub fn wire_token(&self) -> (r: String)
        ensures
            r@ == color_mode_token(*self),
    {
        match *self {
            ColorMode::NoColor => String::from_str("none"),
            ColorMode::Hs => String::from_str("hs"),
            ColorMode::Xy => String::from_str("xy"),
            ColorMode::Ct => String::from_str("ct"),
        }
    }
}

/// Whether a string holds exactly the characters of a literal.
fn str_is(t: &str, lit: &str) -> (r: bool)
    ensures
        r == (t@ == lit@),
{
    let left = String::from_str(t);
    let right = String::from_str(lit);
    left.eq(&right)
}

/// The alert mode a received token stands for.
pub fn parse_alert_token(t: &str) -> (r: Option<AlertMode>)
    ensures
        r == alert_of_token(t@),
{
    if str_is(t, "none") {
        Some(AlertMode::NoAlert)
    } else if str_is(t, "select") {
        Some(AlertMode::Select)
    } else if str_is(t, "lselect") {
        Some(AlertMode::Lselect)
    } else {
        None
    }
}

/// The color mode a received token stands for.
pub fn parse_color_mode_token(t: &str) -> (r: Option<ColorMode>)
    ensures
        r == color_mode_of_token(t@),
{
    if str_is(t, "none") {
        Some(ColorMode::NoColor)
    } else if str_is(t, "hs") {
        Some(ColorMode::Hs)
    } else if str_is(t, "xy") {
        Some(ColorMode::Xy)
    } else if str_is(t, "ct") {
        Some(ColorMode::Ct)
    } else {
        None
    }
}

/// The wire entry of the alert field, if present.
pub open spec fn alert_entry(s: LightState) -> Seq<(Seq<char>, WireValueView)> {
    match s.alert {
        Some(m) => seq![("alert"@, WireValueView::Text(alert_token(m)))],
        None => Seq::empty(),
    }
}

/// The wire entry of the brightness field, if present.
pub open spec fn bri_entry(s: LightState) -> Seq<(Seq<char>, WireValueView)> {
    match s.bri {
        Some(b) => seq![("bri"@, WireValueView::UInt(b as u64))],
        None => Seq::empty(),
    }
}

/// The wire entry of the effect field, if present.
pub open spec fn effect_entry(s: LightState) -> Seq<(Seq<char>, WireValueView)> {
    match s.effect {
        Some(m) => seq![("effect"@, WireValueView::Text(color_mode_token(m)))],
        None => Seq::empty(),
    }
}

/// The wire entry of the color-loop-speed field, if present; the wire
/// name drops the underscores.
pub open spec fn color_loop_speed_entry(s: LightState) -> Seq<(Seq<char>, WireValueView)> {
    match s.color_loop_speed {
        Some(v) => seq![("colorloopspeed"@, WireValueView::UInt(v as u64))],
        None => Seq::empty(),
    }
}

/// The wire entry of the color-temperature field, if present.
pub open spec fn ct_entry(s: LightState) -> Seq<(Seq<char>, WireValueView)> {
    match s.ct {
        Some(v) => seq![("ct"@, WireValueView::UInt(v))],
        None => Seq::empty(),
    }
}

/// The wire entry of the hue field, if present.
pub open spec fn hue_entry(s: LightState) -> Seq<(Seq<char>, WireValueView)> {
    match s.hue {
        Some(v) => seq![("hue"@, WireValueView::UInt(v as u64))],
        None => Seq::empty(),
    }
}

/// The wire entry of the power field, if present.
pub open spec fn on_entry(s: LightState) -> Seq<(Seq<char>, WireValueView)> {
    match s.on {
        Some(v) => seq![("on"@, WireValueView::Bool(v))],
        None => Seq::empty(),
    }
}

/// The wire entry of the saturation field, if present.
pub open spec fn sat_entry(s: LightState) -> Seq<(Seq<char>, WireValueView)> {
    match s.sat {
        Some(v) => seq![("sat"@, WireValueView::UInt(v as u64))],
        None => Seq::empty(),
    }
}

/// The wire entry of the transition-time field, if present; the wire
/// name drops the underscores.
pub open spec fn transition_time_entry(s: LightState) -> Seq<(Seq<char>, WireValueView)> {
    match s.transition_time {
        Some(v) => seq![("transitiontime"@, WireValueView::UInt(v))],
        None => Seq::empty(),
    }
}

/// The wire entry of the chromaticity field, if present.
pub open spec fn xy_entry(s: LightState) -> Seq<(Seq<char>, WireValueView)> {
    match s.xy {
        Some(c) => seq![("xy"@, WireValueView::Xy(c))],
        None => Seq::empty(),
    }
}

/// The whole wire form of a state: each present field, in the gateway's
/// field order, under its wire name.
pub open spec fn state_entries(s: LightState) -> Seq<(Seq<char>, WireValueView)> {
    alert_entry(s) + bri_entry(s) + effect_entry(s) + color_loop_speed_entry(s) + ct_entry(s)
        + hue_entry(s) + on_entry(s) + sat_entry(s) + transition_time_entry(s) + xy_entry(s)
}

/// One wire entry applied to a state being rebuilt: the value lands in
/// the field the name stands for, or the entry is rejected when the name
/// is unknown or the value has the wrong shape or range.
pub open spec fn apply_entry(s: LightState, e: (Seq<char>, WireValueView)) -> Option<LightState> {
    if e.0 == "alert"@ {
        match e.1 {
            WireValueView::Text(t) => match alert_of_token(t) {
                Some(m) => Some(LightState { alert: Some(m), ..s }),
                None => None,
            },
            _ => None,
        }
    } else if e.0 == "bri"@ {
        match e.1 {
            WireValueView::UInt(v) => if v <= 255 {
                Some(LightState { bri: Some(v as u8), ..s })
            } else {
                None
            },
            _ => None,
        }
    } else if e.0 == "effect"@ {
        match e.1 {
            WireValueView::Text(t) => match color_mode_of_token(t) {
                Some(m) => Some(LightState { effect: Some(m), ..s }),
                None => None,
            },
            _ => None,
        }
    } else if e.0 == "colorloopspeed"@ {
        match e.1 {
            WireValueView::UInt(v) => if v <= 255 {
                Some(LightState { color_loop_speed: Some(v as u8), ..s })
            } else {
                None
            },
            _ => None,
        }
    } else if e.0 == "ct"@ {
        match e.1 {
            WireValueView::UInt(v) => Some(LightState { ct: Some(v), ..s }),
            _ => None,
        }
    } else if e.0 == "hue"@ {
        match e.1 {
            WireValueView::UInt(v) => if v <= 0xffff_ffff {
                Some(LightState { hue: Some(v as u32), ..s })
            } else {
                None
            },
            _ => None,
        }
    } else if e.0 == "on"@ {
        match e.1 {
            WireValueView::Bool(v) => Some(LightState { on: Some(v), ..s }),
            _ => None,
        }
    } else if e.0 == "sat"@ {
        match e.1 {
            WireValueView::UInt(v) => if v <= 255 {
                Some(LightState { sat: Some(v as u8), ..s })
            } else {
                None
            },
            _ => None,
        }
    } else if e.0 == "transitiontime"@ {
        match e.1 {
            WireValueView::UInt(v) => Some(LightState { transition_time: Some(v), ..s }),
            _ => None,
        }
    } else if e.0 == "xy"@ {
        match e.1 {
            WireValueView::Xy(c) => Some(LightState { xy: Some(c), ..s }),
            _ => None,
        }
    } else {
        None
    }
}

/// Wire entries folded over a state being rebuilt, first entry first;
/// one rejected entry rejects the whole list.
pub open spec fn state_of_entries(
    es: Seq<(Seq<char>, WireValueView)>,
    acc: LightState,
) -> Option<LightState>
    decreases es.len(),
{
    if es.len() == 0 {
        Some(acc)
    } else {
        match apply_entry(acc, es[0]) {
            Some(next) => state_of_entries(es.drop_first(), next),
            None => None,
        }
    }
}

/// The state a list of wire entries stands for, starting from the state
/// with every field absent.
pub open spec fn parsed_state(es: Seq<(Seq<char>, WireValueView)>) -> Option<LightState> {
    state_of_entries(es, empty_state())
}

/// Folding a concatenation folds the first part, then the second.
proof fn lemma_fold_split(
    a: Seq<(Seq<char>, WireValueView)>,
    b: Seq<(Seq<char>, WireValueView)>,
    acc: LightState,
)
    ensures
        state_of_entries(a + b, acc) == (match state_of_entries(a, acc) {
            Some(mid) => state_of_entries(b, mid),
            None => None,
        }),
    decreases a.len(),
{
    if a.len() == 0 {
        assert(a + b =~= b);
    } else {
        assert((a + b)[0] == a[0]);
        assert((a + b).drop_first() =~= a.drop_first() + b);
        match apply_entry(acc, a[0]) {
            Some(next) => {
                lemma_fold_split(a.drop_first(), b, next);
            },
            None => {},
        }
    }
}

/// Whether a key string holds exactly the characters of a literal.
fn key_is(k: &String, lit: &str) -> (r: bool)
    ensures
        r == (k@ == lit@),
{
    let owned = String::from_str(lit);
    k.eq(&owned)
}

/// One received wire entry applied to a state being rebuilt.
fn apply_wire_entry(state: LightState, p: &(String, WireValue)) -> (r: Option<LightState>)
    ensures
        r == apply_entry(state, (p.0@, p.1@)),
{
    if key_is(&p.0, "alert") {
        match &p.1 {
            WireValue::Text(t) => match parse_alert_token(t.as_str()) {
                Some(m) => Some(LightState { alert: Some(m), ..state }),
                None => None,
            },
            _ => None,
        }
    } else if key_is(&p.0, "bri") {
        match &p.1 {
            WireValue::UInt(v) => if *v <= 255 {
                Some(LightState { bri: Some(*v as u8), ..state })
            } else {
                None
            },
            _ => None,
        }
    } else if key_is(&p.0, "effect") {
        match &p.1 {
            WireValue::Text(t) => match parse_color_mode_token(t.as_str()) {
                Some(m) => Some(LightState { effect: Some(m), ..state }),
                None => None,
            },
            _ => None,
        }
    } else if key_is(&p.0, "colorloopspeed") {
        match &p.1 {
            WireValue::UInt(v) => if *v <= 255 {
                Some(LightState { color_loop_speed: Some(*v as u8), ..state })
            } else {
                None
            },
            _ => None,
        }
    } else if key_is(&p.0, "ct") {
        match &p.1 {
            WireValue::UInt(v) => Some(LightState { ct: Some(*v), ..state }),
            _ => None,
        }
    } else if key_is(&p.0, "hue") {
        match &p.1 {
            WireValue::UInt(v) => if *v <= 0xffff_ffff {
                Some(LightState { hue: Some(*v as u32), ..state })
            } else {
                None
            },
            _ => None,
        }
    } else if key_is(&p.0, "on") {
        match &p.1 {
            WireValue::Bool(v) => Some(LightState { on: Some(*v), ..state }),
            _ => None,
        }
    } else if key_is(&p.0, "sat") {
        match &p.1 {
            WireValue::UInt(v) => if *v <= 255 {
                Some(LightState { sat: Some(*v as u8), ..state })
            } else {
                None
            },
            _ => None,
        }
    } else if key_is(&p.0, "transitiontime") {
        match &p.1 {
            WireValue::UInt(v) => Some(LightState { transition_time: Some(*v), ..state }),
            _ => None,
        }
    } else if key_is(&p.0, "xy") {
        match &p.1 {
            WireValue::Xy(c) => Some(LightState { xy: Some(*c), ..state }),
            _ => None,
        }
    } else {
        None
    }
}

/// The wire entries of one optional field: a single entry when the value
/// is present, none when it is absent.
pub open spec fn opt_entry(key: Seq<char>, v: Option<WireValueView>) -> Seq<
    (Seq<char>, WireValueView),
> {
    match v {
        Some(value) => seq![(key, value)],
        None => Seq::empty(),
    }
}

/// The view of an optional wire value.
pub open spec fn opt_value_view(v: Option<WireValue>) -> Option<WireValueView> {
    match v {
        Some(w) => Some(w@),
        None => None,
    }
}

/// Appends one optional wire entry under the given field name.
fn push_opt(out: &mut Vec<(String, WireValue)>, key: &str, value: Option<WireValue>)
    ensures
        entries_view(final(out)@) == entries_view(old(out)@) + opt_entry(
            key@,
            opt_value_view(value),
        ),
{
    let ghost value_view = opt_value_view(value);
    match value {
        Some(w) => out.push((String::from_str(key), w)),
        None => {},
    }
    proof {
        assert(entries_view(out@) =~= entries_view(old(out)@) + opt_entry(key@, value_view));
    }
}

impl LightState {
    /// Serializes this state to its wire entries: each present field, in
    /// the gateway's field order, under its wire name.
    pub fn to_wire(&self) -> (r: Vec<(String, WireValue)>)
        ensures
            entries_view(r@) == state_entries(*self),
    {
        let mut out: Vec<(String, WireValue)> = Vec::new();
        let ghost mut built: Seq<(Seq<char>, WireValueView)> = Seq::empty();
        let alert_value: Option<WireValue> = match self.alert {
            Some(m) => Some(WireValue::Text(m.wire_token())),
            None => None,
        };
        proof {
            assert(entries_view(out@) =~= built);
            assert(opt_entry("alert"@, opt_value_view(alert_value)) =~= alert_entry(*self));
            assert(built + alert_entry(*self) =~= alert_entry(*self));
            built = alert_entry(*self);
        }
        push_opt(&mut out, "alert", alert_value);
        let bri_value: Option<WireValue> = match self.bri {
            Some(b) => Some(WireValue::UInt(b as u64)),
            None => None,
        };
        proof {
            assert(opt_entry("bri"@, opt_value_view(bri_value)) =~= bri_entry(*self));
            built = built + bri_entry(*self);
        }
        push_opt(&mut out, "bri", bri_value);
        let effect_value: Option<WireValue> = match self.effect {
            Some(m) => Some(WireValue::Text(m.wire_token())),
            None => None,
        };
        proof {
            assert(opt_entry("effect"@, opt_value_view(effect_value)) =~= effect_entry(*self));
            built = built + effect_entry(*self);
        }
        push_opt(&mut out, "effect", effect_value);
        let color_loop_speed_value: Option<WireValue> = match self.color_loop_speed {
            Some(v) => Some(WireValue::UInt(v as u64)),
            None => None,
        };
        proof {
            assert(opt_entry("colorloopspeed"@, opt_value_view(color_loop_speed_value))
                =~= color_loop_speed_entry(*self));
            built = built + color_loop_speed_entry(*self);
        }
        push_opt(&mut out, "colorloopspeed", color_loop_speed_value);
        let ct_value: Option<WireValue> = match self.ct {
            Some(v) => Some(WireValue::UInt(v)),
            None => None,
        };
        proof {
            assert(opt_entry("ct"@, opt_value_view(ct_value)) =~= ct_entry(*self));
            built = built + ct_entry(*self);
        }
        push_opt(&mut out, "ct", ct_value);
        let hue_value: Option<WireValue> = match self.hue {
            Some(v) => Some(WireValue::UInt(v as u64)),
            None => None,
        };
        proof {
            assert(opt_entry("hue"@, opt_value_view(hue_value)) =~= hue_entry(*self));
            built = built + hue_entry(*self);
        }
        push_opt(&mut out, "hue", hue_value);
        let on_value: Option<WireValue> = match self.on {
            Some(v) => Some(WireValue::Bool(v)),
            None => None,
        };
        proof {
            assert(opt_entry("on"@, opt_value_view(on_value)) =~= on_entry(*self));
            built = built + on_entry(*self);
        }
        push_opt(&mut out, "on", on_value);
        let sat_value: Option<WireValue> = match self.sat {
            Some(v) => Some(WireValue::UInt(v as u64)),
            None => None,
        };
        proof {
            assert(opt_entry("sat"@, opt_value_view(sat_value)) =~= sat_entry(*self));
            built = built + sat_entry(*self);
        }
        push_opt(&mut out, "sat", sat_value);
        let transition_time_value: Option<WireValue> = match self.transition_time {
            Some(v) => Some(WireValue::UInt(v)),
            None => None,
        };
        proof {
            assert(opt_entry("transitiontime"@, opt_value_view(transition_time_value))
                =~= transition_time_entry(*self));
            built = built + transition_time_entry(*self);
        }
        push_opt(&mut out, "transitiontime", transition_time_value);
        let xy_value: Option<WireValue> = match self.xy {
            Some(c) => Some(WireValue::Xy(c)),
            None => None,
        };
        proof {
            assert(opt_entry("xy"@, opt_value_view(xy_value)) =~= xy_entry(*self));
            built = built + xy_entry(*self);
        }
        push_opt(&mut out, "xy", xy_value);
        proof {
            assert(entries_view(out@) == built);
            assert(built == state_entries(*self));
        }
        out
    }

    /// Rebuilds a state from received wire entries, first entry first,
    /// starting from the state with every field absent. An unknown name,
    /// a wrongly shaped value or an out-of-range value rejects the list.
    pub fn from_wire(pairs: &Vec<(String, WireValue)>) -> (r: Option<LightState>)
        ensures
            r == parsed_state(entries_view(pairs@)),
    {
        let ghost all = entries_view(pairs@);
        let mut state = LightState::default();
        let mut i: usize = 0;
        proof {
            assert(all.skip(0) =~= all);
        }
        while i < pairs.len()
            invariant
                i <= pairs@.len(),
                all == entries_view(pairs@),
                parsed_state(all) == state_of_entries(all.skip(i as int), state),
            decreases pairs@.len() - i,
        {
            let p = &pairs[i];
            proof {
                let remaining = all.skip(i as int);
                assert(remaining.len() > 0);
                assert(remaining[0] == (p.0@, p.1@));
                assert(remaining.drop_first() =~= all.skip(i as int + 1));
            }
            match apply_wire_entry(state, p) {
                Some(next) => {
                    state = next;
                },
                None => {
                    return None;
                },
            }
            i = i + 1;
        }
        proof {
            assert(all.skip(i as int) =~= Seq::empty());
        }
        Some(state)
    }
}

/// The wire form of a light-attributes update: the display name alone.
pub open spec fn attributes_entries(a: LightAttributes) -> Seq<(Seq<char>, WireValueView)> {
    seq![("name"@, WireValueView::Text(a.name@))]
}

impl LightAttributes {
    /// Serializes this update to its wire entries.
    pub fn to_wire(&self) -> (r: Vec<(String, WireValue)>)
        ensures
            entries_view(r@) == attributes_entries(*self),
    {
        let mut out: Vec<(String, WireValue)> = Vec::new();
        proof {
            assert(entries_view(out@) =~= Seq::<(Seq<char>, WireValueView)>::empty());
        }
        push_opt(&mut out, "name", Some(WireValue::Text(self.name.clone())));
        proof {
            assert(Seq::<(Seq<char>, WireValueView)>::empty() + opt_entry(
                "name"@,
                Some(WireValueView::Text(self.name@)),
            ) =~= attributes_entries(*self));
        }
        out
    }
}

/// The wire form of a token request: the requested username when one was
/// given, then the device-type label.
pub open spec fn token_request_entries(r: TokenRequest) -> Seq<(Seq<char>, WireValueView)> {
    opt_text_entry("username"@, opt_text_view(r.spec_username())) + seq![
        ("devicetype"@, WireValueView::Text(r.spec_devicetype()@)),
    ]
}

impl TokenRequest {
    /// Serializes this request to its wire entries.
    pub fn to_wire(&self) -> (r: Vec<(String, WireValue)>)
        ensures
            entries_view(r@) == token_request_entries(*self),
    {
        let mut out: Vec<(String, WireValue)> = Vec::new();
        let username_value: Option<WireValue> = match self.username() {
            Some(s) => Some(WireValue::Text(s.clone())),
            None => None,
        };
        proof {
            assert(entries_view(out@) =~= Seq::<(Seq<char>, WireValueView)>::empty());
            assert(opt_entry("username"@, opt_value_view(username_value)) =~= opt_text_entry(
                "username"@,
                opt_text_view(self.spec_username()),
            ));
            assert(Seq::<(Seq<char>, WireValueView)>::empty() + opt_text_entry(
                "username"@,
                opt_text_view(self.spec_username()),
            ) =~= opt_text_entry("username"@, opt_text_view(self.spec_username())));
        }
        push_opt(&mut out, "username", username_value);
        let devicetype_value: Option<WireValue> = Some(WireValue::Text(self.devicetype().clone()));
        proof {
            assert(opt_entry("devicetype"@, opt_value_view(devicetype_value)) =~= seq![
                ("devicetype"@, WireValueView::Text(self.spec_devicetype()@)),
            ]);
        }
        push_opt(&mut out, "devicetype", devicetype_value);
        proof {
            assert(entries_view(out@) == token_request_entries(*self));
        }
        out
    }
}

/// The mathematical value of a light: each text field as its character
/// sequence.
pub struct LightView {
    pub color_capabilities: Option<u64>,
    pub ct_max: Option<u64>,
    pub ct_min: Option<u64>,
    pub last_announced: Option<Seq<char>>,
    pub last_seen: Option<Seq<char>>,
    pub etag: Seq<char>,
    pub has_color: bool,
    pub manufacturer_name: Seq<char>,
    pub name: Seq<char>,
    pub model_id: Seq<char>,
    pub power_up: Option<u8>,
    pub sw_version: Seq<char>,
    pub kind: Seq<char>,
    pub state: LightState,
    pub unique_id: Seq<char>,
}

/// The view of an optional text field.
pub open spec fn opt_text_view(v: Option<String>) -> Option<Seq<char>> {
    match v {
        Some(s) => Some(s@),
        None => None,
    }
}

impl View for Light {
    type V = LightView;

    open spec fn view(&self) -> LightView {
        LightView {
            color_capabilities: self.color_capabilities,
            ct_max: self.ct_max,
            ct_min: self.ct_min,
            last_announced: opt_text_view(self.last_announced),
            last_seen: opt_text_view(self.last_seen),
            etag: self.etag@,
            has_color: self.has_color,
            manufacturer_name: self.manufacturer_name@,
            name: self.name@,
            model_id: self.model_id@,
            power_up: self.power_up,
            sw_version: self.sw_version@,
            kind: self.kind@,
            state: self.state,
            unique_id: self.unique_id@,
        }
    }
}

/// A light in mid-decode: every field as it stands after the entries read
/// so far. Fields the gateway always sends are still optional here;
/// assembling the light checks that each arrived.
pub struct LightDraftView {
    pub color_capabilities: Option<u64>,
    pub ct_max: Option<u64>,
    pub ct_min: Option<u64>,
    pub last_announced: Option<Seq<char>>,
    pub last_seen: Option<Seq<char>>,
    pub etag: Option<Seq<char>>,
    pub has_color: Option<bool>,
    pub manufacturer_name: Option<Seq<char>>,
    pub name: Option<Seq<char>>,
    pub model_id: Option<Seq<char>>,
    pub power_up: Option<u8>,
    pub sw_version: Option<Seq<char>>,
    pub kind: Option<Seq<char>>,
    pub state: Option<LightState>,
    pub unique_id: Option<Seq<char>>,
}

/// The draft with nothing read yet.
pub open spec fn empty_draft() -> LightDraftView {
    LightDraftView {
        color_capabilities: None,
        ct_max: None,
        ct_min: None,
        last_announced: None,
        last_seen: None,
        etag: None,
        has_color: None,
        manufacturer_name: None,
        name: None,
        model_id: None,
        power_up: None,
        sw_version: None,
        kind: None,
        state: None,
        unique_id: None,
    }
}

/// The wire entry of an optional unsigned light field.
pub open spec fn opt_uint_entry(key: Seq<char>, v: Option<u64>) -> Seq<(Seq<char>, WireValueView)> {
    match v {
        Some(value) => seq![(key, WireValueView::UInt(value))],
        None => Seq::empty(),
    }
}

/// The wire entry of an optional text light field.
pub open spec fn opt_text_entry(key: Seq<char>, v: Option<Seq<char>>) -> Seq<
    (Seq<char>, WireValueView),
> {
    match v {
        Some(value) => seq![(key, WireValueView::Text(value))],
        None => Seq::empty(),
    }
}

/// The whole wire form of a light: each field, in the gateway's field
/// order, under its wire name; the mutable state as one nested entry.
pub open spec fn light_entries(v: LightView) -> Seq<(Seq<char>, WireValueView)> {
    opt_uint_entry("colorcapabilities"@, v.color_capabilities) + opt_uint_entry(
        "ctmax"@,
        v.ct_max,
    ) + opt_uint_entry("ctmin"@, v.ct_min) + opt_text_entry("lastannounced"@, v.last_announced)
        + opt_text_entry("lastseen"@, v.last_seen) + seq![("etag"@, WireValueView::Text(v.etag))]
        + seq![("hascolor"@, WireValueView::Bool(v.has_color))] + seq![
        ("manufacturername"@, WireValueView::Text(v.manufacturer_name)),
    ] + seq![("name"@, WireValueView::Text(v.name))] + seq![
        ("modelid"@, WireValueView::Text(v.model_id)),
    ] + opt_uint_entry(
        "powerup"@,
        match v.power_up {
            Some(p) => Some(p as u64),
            None => None,
        },
    ) + seq![("swversion"@, WireValueView::Text(v.sw_version))] + seq![
        ("type"@, WireValueView::Text(v.kind)),
    ] + seq![("state"@, WireValueView::State(v.state))] + seq![
        ("uniqueid"@, WireValueView::Text(v.unique_id)),
    ]
}

/// One wire entry applied to a light being rebuilt.
pub open spec fn apply_light_entry(d: LightDraftView, e: (Seq<char>, WireValueView)) -> Option<
    LightDraftView,
> {
    if e.0 == "colorcapabilities"@ {
        match e.1 {
            WireValueView::UInt(v) => Some(LightDraftView { color_capabilities: Some(v), ..d }),
            _ => None,
        }
    } else if e.0 == "ctmax"@ {
        match e.1 {
            WireValueView::UInt(v) => Some(LightDraftView { ct_max: Some(v), ..d }),
            _ => None,
        }
    } else if e.0 == "ctmin"@ {
        match e.1 {
            WireValueView::UInt(v) => Some(LightDraftView { ct_min: Some(v), ..d }),
            _ => None,
        }
    } else if e.0 == "lastannounced"@ {
        match e.1 {
            WireValueView::Text(t) => Some(LightDraftView { last_announced: Some(t), ..d }),
            _ => None,
        }
    } else if e.0 == "lastseen"@ {
        match e.1 {
            WireValueView::Text(t) => Some(LightDraftView { last_seen: Some(t), ..d }),
            _ => None,
        }
    } else if e.0 == "etag"@ {
        match e.1 {
            WireValueView::Text(t) => Some(LightDraftView { etag: Some(t), ..d }),
            _ => None,
        }
    } else if e.0 == "hascolor"@ {
        match e.1 {
            WireValueView::Bool(b) => Some(LightDraftView { has_color: Some(b), ..d }),
            _ => None,
        }
    } else if e.0 == "manufacturername"@ {
        match e.1 {
            WireValueView::Text(t) => Some(LightDraftView { manufacturer_name: Some(t), ..d }),
            _ => None,
        }
    } else if e.0 == "name"@ {
        match e.1 {
            WireValueView::Text(t) => Some(LightDraftView { name: Some(t), ..d }),
            _ => None,
        }
    } else if e.0 == "modelid"@ {
        match e.1 {
            WireValueView::Text(t) => Some(LightDraftView { model_id: Some(t), ..d }),
            _ => None,
        }
    } else if e.0 == "powerup"@ {
        match e.1 {
            WireValueView::UInt(v) => if v <= 255 {
                Some(LightDraftView { power_up: Some(v as u8), ..d })
            } else {
                None
            },
            _ => None,
        }
    } else if e.0 == "swversion"@ {
        match e.1 {
            WireValueView::Text(t) => Some(LightDraftView { sw_version: Some(t), ..d }),
            _ => None,
        }
    } else if e.0 == "type"@ {
        match e.1 {
            WireValueView::Text(t) => Some(LightDraftView { kind: Some(t), ..d }),
            _ => None,
        }
    } else if e.0 == "state"@ {
        match e.1 {
            WireValueView::State(s) => Some(LightDraftView { state: Some(s), ..d }),
            _ => None,
        }
    } else if e.0 == "uniqueid"@ {
        match e.1 {
            WireValueView::Text(t) => Some(LightDraftView { unique_id: Some(t), ..d }),
            _ => None,
        }
    } else {
        None
    }
}

/// Wire entries folded over a light being rebuilt, first entry first.
pub open spec fn draft_of_entries(
    es: Seq<(Seq<char>, WireValueView)>,
    d: LightDraftView,
) -> Option<LightDraftView>
    decreases es.len(),
{
    if es.len() == 0 {
        Some(d)
    } else {
        match apply_light_entry(d, es[0]) {
            Some(next) => draft_of_entries(es.drop_first(), next),
            None => None,
        }
    }
}

/// The light a finished draft stands for: every field the gateway always
/// sends must have arrived.
pub open spec fn assembled_light(d: LightDraftView) -> Option<LightView> {
    match (d.etag, d.has_color, d.manufacturer_name, d.name, d.model_id, d.sw_version, d.kind,
    d.state, d.unique_id) {
        (
            Some(etag),
            Some(has_color),
            Some(manufacturer_name),
            Some(name),
            Some(model_id),
            Some(sw_version),
            Some(kind),
            Some(state),
            Some(unique_id),
        ) => Some(
            LightView {
                color_capabilities: d.color_capabilities,
                ct_max: d.ct_max,
                ct_min: d.ct_min,
                last_announced: d.last_announced,
                last_seen: d.last_seen,
                etag,
                has_color,
                manufacturer_name,
                name,
                model_id,
                power_up: d.power_up,
                sw_version,
                kind,
                state,
                unique_id,
            },
        ),
        _ => None,
    }
}

/// The light a list of wire entries stands for.
pub open spec fn parsed_light(es: Seq<(Seq<char>, WireValueView)>) -> Option<LightView> {
    match draft_of_entries(es, empty_draft()) {
        Some(d) => assembled_light(d),
        None => None,
    }
}

/// Folding a concatenation of light entries folds the first part, then
/// the second.
proof fn lemma_draft_fold_split(
    a: Seq<(Seq<char>, WireValueView)>,
    b: Seq<(Seq<char>, WireValueView)>,
    d: LightDraftView,
)
    ensures
        draft_of_entries(a + b, d) == (match draft_of_entries(a, d) {
            Some(mid) => draft_of_entries(b, mid),
            None => None,
        }),
    decreases a.len(),
{
    if a.len() == 0 {
        assert(a + b =~= b);
    } else {
        assert((a + b)[0] == a[0]);
        assert((a + b).drop_first() =~= a.drop_first() + b);
        match apply_light_entry(d, a[0]) {
            Some(next) => {
                lemma_draft_fold_split(a.drop_first(), b, next);
            },
            None => {},
        }
    }
}

/// A light in mid-decode, as the decoder holds it.
struct LightDraft {
    color_capabilities: Option<u64>,
    ct_max: Option<u64>,
    ct_min: Option<u64>,
    last_announced: Option<String>,
    last_seen: Option<String>,
    etag: Option<String>,
    has_color: Option<bool>,
    manufacturer_name: Option<String>,
    name: Option<String>,
    model_id: Option<String>,
    power_up: Option<u8>,
    sw_version: Option<String>,
    kind: Option<String>,
    state: Option<LightState>,
    unique_id: Option<String>,
}

impl View for LightDraft {
    type V = LightDraftView;

    closed spec fn view(&self) -> LightDraftView {
        LightDraftView {
            color_capabilities: self.color_capabilities,
            ct_max: self.ct_max,
            ct_min: self.ct_min,
            last_announced: opt_text_view(self.last_announced),
            last_seen: opt_text_view(self.last_seen),
            etag: opt_text_view(self.etag),
            has_color: self.has_color,
            manufacturer_name: opt_text_view(self.manufacturer_name),
            name: opt_text_view(self.name),
            model_id: opt_text_view(self.model_id),
            power_up: self.power_up,
            sw_version: opt_text_view(self.sw_version),
            kind: opt_text_view(self.kind),
            state: self.state,
            unique_id: opt_text_view(self.unique_id),
        }
    }
}

/// One received wire entry applied to a light being rebuilt.
fn apply_light_wire_entry(draft: LightDraft, p: &(String, WireValue)) -> (r: Option<LightDraft>)
    ensures
        (match r {
            Some(next) => apply_light_entry(draft@, (p.0@, p.1@)) == Some(next@),
            None => apply_light_entry(draft@, (p.0@, p.1@)) is None,
        }),
{
    if key_is(&p.0, "colorcapabilities") {
        match &p.1 {
            WireValue::UInt(v) => Some(LightDraft { color_capabilities: Some(*v), ..draft }),
            _ => None,
        }
    } else if key_is(&p.0, "ctmax") {
        match &p.1 {
            WireValue::UInt(v) => Some(LightDraft { ct_max: Some(*v), ..draft }),
            _ => None,
        }
    } else if key_is(&p.0, "ctmin") {
        match &p.1 {
            WireValue::UInt(v) => Some(LightDraft { ct_min: Some(*v), ..draft }),
            _ => None,
        }
    } else if key_is(&p.0, "lastannounced") {
        match &p.1 {
            WireValue::Text(t) => Some(LightDraft { last_announced: Some(t.clone()), ..draft }),
            _ => None,
        }
    } else if key_is(&p.0, "lastseen") {
        match &p.1 {
            WireValue::Text(t) => Some(LightDraft { last_seen: Some(t.clone()), ..draft }),
            _ => None,
        }
    } else if key_is(&p.0, "etag") {
        match &p.1 {
            WireValue::Text(t) => Some(LightDraft { etag: Some(t.clone()), ..draft }),
            _ => None,
        }
    } else if key_is(&p.0, "hascolor") {
        match &p.1 {
            WireValue::Bool(b) => Some(LightDraft { has_color: Some(*b), ..draft }),
            _ => None,
        }
    } else if key_is(&p.0, "manufacturername") {
        match &p.1 {
            WireValue::Text(t) => Some(LightDraft { manufacturer_name: Some(t.clone()), ..draft }),
            _ => None,
        }
    } else if key_is(&p.0, "name") {
        match &p.1 {
            WireValue::Text(t) => Some(LightDraft { name: Some(t.clone()), ..draft }),
            _ => None,
        }
    } else if key_is(&p.0, "modelid") {
        match &p.1 {
            WireValue::Text(t) => Some(LightDraft { model_id: Some(t.clone()), ..draft }),
            _ => None,
        }
    } else if key_is(&p.0, "powerup") {
        match &p.1 {
            WireValue::UInt(v) => if *v <= 255 {
                Some(LightDraft { power_up: Some(*v as u8), ..draft })
            } else {
                None
            },
            _ => None,
        }
    } else if key_is(&p.0, "swversion") {
        match &p.1 {
            WireValue::Text(t) => Some(LightDraft { sw_version: Some(t.clone()), ..draft }),
            _ => None,
        }
    } else if key_is(&p.0, "type") {
        match &p.1 {
            WireValue::Text(t) => Some(LightDraft { kind: Some(t.clone()), ..draft }),
            _ => None,
        }
    } else if key_is(&p.0, "state") {
        match &p.1 {
            WireValue::State(s) => Some(LightDraft { state: Some(*s), ..draft }),
            _ => None,
        }
    } else if key_is(&p.0, "uniqueid") {
        match &p.1 {
            WireValue::Text(t) => Some(LightDraft { unique_id: Some(t.clone()), ..draft }),
            _ => None,
        }
    } else {
        None
    }
}

impl Light {
    /// Serializes this light to its wire entries: each field, in the
    /// gateway's field order, under its wire name; the state as one
    /// nested entry carrying the structured state.
    pub fn to_wire(&self) -> (r: Vec<(String, WireValue)>)
        ensures
            entries_view(r@) == light_entries(self@),
    {
        let mut out: Vec<(String, WireValue)> = Vec::new();
        let ghost mut built: Seq<(Seq<char>, WireValueView)> = Seq::empty();
        let color_capabilities_value: Option<WireValue> = match self.color_capabilities {
            Some(v) => Some(WireValue::UInt(v)),
            None => None,
        };
        proof {
            assert(entries_view(out@) =~= built);
            assert(opt_entry("colorcapabilities"@, opt_value_view(color_capabilities_value))
                =~= opt_uint_entry("colorcapabilities"@, self@.color_capabilities));
            assert(built + opt_uint_entry("colorcapabilities"@, self@.color_capabilities)
                =~= opt_uint_entry("colorcapabilities"@, self@.color_capabilities));
            built = opt_uint_entry("colorcapabilities"@, self@.color_capabilities);
        }
        push_opt(&mut out, "colorcapabilities", color_capabilities_value);
        let ct_max_value: Option<WireValue> = match self.ct_max {
            Some(v) => Some(WireValue::UInt(v)),
            None => None,
        };
        proof {
            assert(opt_entry("ctmax"@, opt_value_view(ct_max_value)) =~= opt_uint_entry(
                "ctmax"@,
                self@.ct_max,
            ));
            built = built + opt_uint_entry("ctmax"@, self@.ct_max);
        }
        push_opt(&mut out, "ctmax", ct_max_value);
        let ct_min_value: Option<WireValue> = match self.ct_min {
            Some(v) => Some(WireValue::UInt(v)),
            None => None,
        };
        proof {
            assert(opt_entry("ctmin"@, opt_value_view(ct_min_value)) =~= opt_uint_entry(
                "ctmin"@,
                self@.ct_min,
            ));
            built = built + opt_uint_entry("ctmin"@, self@.ct_min);
        }
        push_opt(&mut out, "ctmin", ct_min_value);
        let last_announced_value: Option<WireValue> = match &self.last_announced {
            Some(s) => Some(WireValue::Text(s.clone())),
            None => None,
        };
        proof {
            assert(opt_entry("lastannounced"@, opt_value_view(last_announced_value))
                =~= opt_text_entry("lastannounced"@, self@.last_announced));
            built = built + opt_text_entry("lastannounced"@, self@.last_announced);
        }
        push_opt(&mut out, "lastannounced", last_announced_value);
        let last_seen_value: Option<WireValue> = match &self.last_seen {
            Some(s) => Some(WireValue::Text(s.clone())),
            None => None,
        };
        proof {
            assert(opt_entry("lastseen"@, opt_value_view(last_seen_value)) =~= opt_text_entry(
                "lastseen"@,
                self@.last_seen,
            ));
            built = built + opt_text_entry("lastseen"@, self@.last_seen);
        }
        push_opt(&mut out, "lastseen", last_seen_value);
        let etag_value: Option<WireValue> = Some(WireValue::Text(self.etag.clone()));
        proof {
            assert(opt_entry("etag"@, opt_value_view(etag_value)) =~= seq![
                ("etag"@, WireValueView::Text(self@.etag)),
            ]);
            built = built + seq![("etag"@, WireValueView::Text(self@.etag))];
        }
        push_opt(&mut out, "etag", etag_value);
        let has_color_value: Option<WireValue> = Some(WireValue::Bool(self.has_color));
        proof {
            assert(opt_entry("hascolor"@, opt_value_view(has_color_value)) =~= seq![
                ("hascolor"@, WireValueView::Bool(self@.has_color)),
            ]);
            built = built + seq![("hascolor"@, WireValueView::Bool(self@.has_color))];
        }
        push_opt(&mut out, "hascolor", has_color_value);
        let manufacturer_value: Option<WireValue> = Some(
            WireValue::Text(self.manufacturer_name.clone()),
        );
        proof {
            assert(opt_entry("manufacturername"@, opt_value_view(manufacturer_value)) =~= seq![
                ("manufacturername"@, WireValueView::Text(self@.manufacturer_name)),
            ]);
            built = built + seq![("manufacturername"@, WireValueView::Text(self@.manufacturer_name))];
        }
        push_opt(&mut out, "manufacturername", manufacturer_value);
        let name_value: Option<WireValue> = Some(WireValue::Text(self.name.clone()));
        proof {
            assert(opt_entry("name"@, opt_value_view(name_value)) =~= seq![
                ("name"@, WireValueView::Text(self@.name)),
            ]);
            built = built + seq![("name"@, WireValueView::Text(self@.name))];
        }
        push_opt(&mut out, "name", name_value);
        let model_id_value: Option<WireValue> = Some(WireValue::Text(self.model_id.clone()));
        proof {
            assert(opt_entry("modelid"@, opt_value_view(model_id_value)) =~= seq![
                ("modelid"@, WireValueView::Text(self@.model_id)),
            ]);
            built = built + seq![("modelid"@, WireValueView::Text(self@.model_id))];
        }
        push_opt(&mut out, "modelid", model_id_value);
        let power_up_value: Option<WireValue> = match self.power_up {
            Some(v) => Some(WireValue::UInt(v as u64)),
            None => None,
        };
        proof {
            assert(opt_entry("powerup"@, opt_value_view(power_up_value)) =~= opt_uint_entry(
                "powerup"@,
                match self@.power_up {
                    Some(p) => Some(p as u64),
                    None => None,
                },
            ));
            built = built + opt_uint_entry(
                "powerup"@,
                match self@.power_up {
                    Some(p) => Some(p as u64),
                    None => None,
                },
            );
        }
        push_opt(&mut out, "powerup", power_up_value);
        let sw_version_value: Option<WireValue> = Some(WireValue::Text(self.sw_version.clone()));
        proof {
            assert(opt_entry("swversion"@, opt_value_view(sw_version_value)) =~= seq![
                ("swversion"@, WireValueView::Text(self@.sw_version)),
            ]);
            built = built + seq![("swversion"@, WireValueView::Text(self@.sw_version))];
        }
        push_opt(&mut out, "swversion", sw_version_value);
        let kind_value: Option<WireValue> = Some(WireValue::Text(self.kind.clone()));
        proof {
            assert(opt_entry("type"@, opt_value_view(kind_value)) =~= seq![
                ("type"@, WireValueView::Text(self@.kind)),
            ]);
            built = built + seq![("type"@, WireValueView::Text(self@.kind))];
        }
        push_opt(&mut out, "type", kind_value);
        let state_value: Option<WireValue> = Some(WireValue::State(self.state));
        proof {
            assert(opt_entry("state"@, opt_value_view(state_value)) =~= seq![
                ("state"@, WireValueView::State(self@.state)),
            ]);
            built = built + seq![("state"@, WireValueView::State(self@.state))];
        }
        push_opt(&mut out, "state", state_value);
        let unique_id_value: Option<WireValue> = Some(WireValue::Text(self.unique_id.clone()));
        proof {
            assert(opt_entry("uniqueid"@, opt_value_view(unique_id_value)) =~= seq![
                ("uniqueid"@, WireValueView::Text(self@.unique_id)),
            ]);
            built = built + seq![("uniqueid"@, WireValueView::Text(self@.unique_id))];
        }
        push_opt(&mut out, "uniqueid", unique_id_value);
        proof {
            assert(entries_view(out@) == built);
            assert(built == light_entries(self@));
        }
        out
    }

    /// Rebuilds a light from received wire entries, first entry first. An
    /// unknown name or a wrongly shaped value rejects the list, and so
    /// does the absence of a field the gateway always sends.
    pub fn from_wire(pairs: &Vec<(String, WireValue)>) -> (r: Option<Light>)
        ensures
            (match r {
                Some(light) => parsed_light(entries_view(pairs@)) == Some(light@),
                None => parsed_light(entries_view(pairs@)) is None,
            }),
    {
        let ghost all = entries_view(pairs@);
        let mut draft = LightDraft {
            color_capabilities: None,
            ct_max: None,
            ct_min: None,
            last_announced: None,
            last_seen: None,
            etag: None,
            has_color: None,
            manufacturer_name: None,
            name: None,
            model_id: None,
            power_up: None,
            sw_version: None,
            kind: None,
            state: None,
            unique_id: None,
        };
        let mut i: usize = 0;
        proof {
            assert(all.skip(0) =~= all);
            assert(draft@ == empty_draft());
        }
        while i < pairs.len()
            invariant
                i <= pairs@.len(),
                all == entries_view(pairs@),
                draft_of_entries(all, empty_draft()) == draft_of_entries(
                    all.skip(i as int),
                    draft@,
                ),
            decreases pairs@.len() - i,
        {
            let p = &pairs[i];
            proof {
                let remaining = all.skip(i as int);
                assert(remaining.len() > 0);
                assert(remaining[0] == (p.0@, p.1@));
                assert(remaining.drop_first() =~= all.skip(i as int + 1));
            }
            match apply_light_wire_entry(draft, p) {
                Some(next) => {
                    draft = next;
                },
                None => {
                    return None;
                },
            }
            i = i + 1;
        }
        proof {
            assert(all.skip(i as int) =~= Seq::empty());
        }
        match (draft.etag, draft.has_color, draft.manufacturer_name, draft.name, draft.model_id,
        draft.sw_version, draft.kind, draft.state, draft.unique_id) {
            (
                Some(etag),
                Some(has_color),
                Some(manufacturer_name),
                Some(name),
                Some(model_id),
                Some(sw_version),
                Some(kind),
                Some(state),
                Some(unique_id),
            ) => Some(
                Light {
                    color_capabilities: draft.color_capabilities,
                    ct_max: draft.ct_max,
                    ct_min: draft.ct_min,
                    last_announced: draft.last_announced,
                    last_seen: draft.last_seen,
                    etag,
                    has_color,
                    manufacturer_name,
                    name,
                    model_id,
                    power_up: draft.power_up,
                    sw_version,
                    kind,
                    state,
                    unique_id,
                },
            ),
            _ => None,
        }
    }
}

/// Serializing a light to its wire entries and parsing them back yields
/// the same light, field for field, under the gateway's field names.
pub proof fn lemma_light_wire_round_trip(v: LightView)
    ensures
        parsed_light(light_entries(v)) == Some(v),
{
    reveal_strlit("colorcapabilities");
    reveal_strlit("ctmax");
    reveal_strlit("ctmin");
    reveal_strlit("lastannounced");
    reveal_strlit("lastseen");
    reveal_strlit("etag");
    reveal_strlit("hascolor");
    reveal_strlit("manufacturername");
    reveal_strlit("name");
    reveal_strlit("modelid");
    reveal_strlit("powerup");
    reveal_strlit("swversion");
    reveal_strlit("type");
    reveal_strlit("state");
    reveal_strlit("uniqueid");
    assert("colorcapabilities"@.len() == 17);
    assert("ctmax"@.len() == 5);
    assert("ctmin"@.len() == 5);
    assert("lastannounced"@.len() == 13);
    assert("lastseen"@.len() == 8);
    assert("etag"@.len() == 4);
    assert("hascolor"@.len() == 8);
    assert("manufacturername"@.len() == 16);
    assert("name"@.len() == 4);
    assert("modelid"@.len() == 7);
    assert("powerup"@.len() == 7);
    assert("swversion"@.len() == 9);
    assert("type"@.len() == 4);
    assert("state"@.len() == 5);
    assert("uniqueid"@.len() == 8);
    assert("ctmax"@[3] == 'a');
    assert("ctmin"@[3] == 'i');
    assert("ctmax"@[0] == 'c');
    assert("ctmin"@[0] == 'c');
    assert("state"@[0] == 's');
    assert("lastseen"@[0] == 'l');
    assert("hascolor"@[0] == 'h');
    assert("uniqueid"@[0] == 'u');
    assert("etag"@[0] == 'e');
    assert("name"@[0] == 'n');
    assert("type"@[0] == 't');
    assert("modelid"@[0] == 'm');
    assert("powerup"@[0] == 'p');
    let d0 = empty_draft();
    let d1 = LightDraftView { color_capabilities: v.color_capabilities, ..d0 };
    assert(draft_of_entries(opt_uint_entry("colorcapabilities"@, v.color_capabilities), d0)
        == Some(d1)) by {
        reveal_with_fuel(draft_of_entries, 2);
    }
    let d2 = LightDraftView { ct_max: v.ct_max, ..d1 };
    assert(draft_of_entries(opt_uint_entry("ctmax"@, v.ct_max), d1) == Some(d2)) by {
        reveal_with_fuel(draft_of_entries, 2);
    }
    let d3 = LightDraftView { ct_min: v.ct_min, ..d2 };
    assert(draft_of_entries(opt_uint_entry("ctmin"@, v.ct_min), d2) == Some(d3)) by {
        reveal_with_fuel(draft_of_entries, 2);
    }
    let d4 = LightDraftView { last_announced: v.last_announced, ..d3 };
    assert(draft_of_entries(opt_text_entry("lastannounced"@, v.last_announced), d3) == Some(d4))
        by {
        reveal_with_fuel(draft_of_entries, 2);
    }
    let d5 = LightDraftView { last_seen: v.last_seen, ..d4 };
    assert(draft_of_entries(opt_text_entry("lastseen"@, v.last_seen), d4) == Some(d5)) by {
        reveal_with_fuel(draft_of_entries, 2);
    }
    let d6 = LightDraftView { etag: Some(v.etag), ..d5 };
    assert(draft_of_entries(seq![("etag"@, WireValueView::Text(v.etag))], d5) == Some(d6)) by {
        reveal_with_fuel(draft_of_entries, 2);
    }
    let d7 = LightDraftView { has_color: Some(v.has_color), ..d6 };
    assert(draft_of_entries(seq![("hascolor"@, WireValueView::Bool(v.has_color))], d6) == Some(d7))
        by {
        reveal_with_fuel(draft_of_entries, 2);
    }
    let d8 = LightDraftView { manufacturer_name: Some(v.manufacturer_name), ..d7 };
    assert(draft_of_entries(
        seq![("manufacturername"@, WireValueView::Text(v.manufacturer_name))],
        d7,
    ) == Some(d8)) by {
        reveal_with_fuel(draft_of_entries, 2);
    }
    let d9 = LightDraftView { name: Some(v.name), ..d8 };
    assert(draft_of_entries(seq![("name"@, WireValueView::Text(v.name))], d8) == Some(d9)) by {
        reveal_with_fuel(draft_of_entries, 2);
    }
    let d10 = LightDraftView { model_id: Some(v.model_id), ..d9 };
    assert(draft_of_entries(seq![("modelid"@, WireValueView::Text(v.model_id))], d9) == Some(d10))
        by {
        reveal_with_fuel(draft_of_entries, 2);
    }
    let d11 = LightDraftView { power_up: v.power_up, ..d10 };
    assert(draft_of_entries(
        opt_uint_entry(
            "powerup"@,
            match v.power_up {
                Some(p) => Some(p as u64),
                None => None,
            },
        ),
        d10,
    ) == Some(d11)) by {
        reveal_with_fuel(draft_of_entries, 2);
    }
    let d12 = LightDraftView { sw_version: Some(v.sw_version), ..d11 };
    assert(draft_of_entries(seq![("swversion"@, WireValueView::Text(v.sw_version))], d11) == Some(
        d12,
    )) by {
        reveal_with_fuel(draft_of_entries, 2);
    }
    let d13 = LightDraftView { kind: Some(v.kind), ..d12 };
    assert(draft_of_entries(seq![("type"@, WireValueView::Text(v.kind))], d12) == Some(d13)) by {
        reveal_with_fuel(draft_of_entries, 2);
    }
    let d14 = LightDraftView { state: Some(v.state), ..d13 };
    assert(draft_of_entries(seq![("state"@, WireValueView::State(v.state))], d13) == Some(d14))
        by {
        reveal_with_fuel(draft_of_entries, 2);
    }
    let d15 = LightDraftView { unique_id: Some(v.unique_id), ..d14 };
    assert(draft_of_entries(seq![("uniqueid"@, WireValueView::Text(v.unique_id))], d14) == Some(
        d15,
    )) by {
        reveal_with_fuel(draft_of_entries, 2);
    }
    let p1 = opt_uint_entry("colorcapabilities"@, v.color_capabilities);
    let p2 = p1 + opt_uint_entry("ctmax"@, v.ct_max);
    let p3 = p2 + opt_uint_entry("ctmin"@, v.ct_min);
    let p4 = p3 + opt_text_entry("lastannounced"@, v.last_announced);
    let p5 = p4 + opt_text_entry("lastseen"@, v.last_seen);
    let p6 = p5 + seq![("etag"@, WireValueView::Text(v.etag))];
    let p7 = p6 + seq![("hascolor"@, WireValueView::Bool(v.has_color))];
    let p8 = p7 + seq![("manufacturername"@, WireValueView::Text(v.manufacturer_name))];
    let p9 = p8 + seq![("name"@, WireValueView::Text(v.name))];
    let p10 = p9 + seq![("modelid"@, WireValueView::Text(v.model_id))];
    let p11 = p10 + opt_uint_entry(
        "powerup"@,
        match v.power_up {
            Some(p) => Some(p as u64),
            None => None,
        },
    );
    let p12 = p11 + seq![("swversion"@, WireValueView::Text(v.sw_version))];
    let p13 = p12 + seq![("type"@, WireValueView::Text(v.kind))];
    let p14 = p13 + seq![("state"@, WireValueView::State(v.state))];
    let p15 = p14 + seq![("uniqueid"@, WireValueView::Text(v.unique_id))];
    lemma_draft_fold_split(p1, opt_uint_entry("ctmax"@, v.ct_max), d0);
    lemma_draft_fold_split(p2, opt_uint_entry("ctmin"@, v.ct_min), d0);
    lemma_draft_fold_split(p3, opt_text_entry("lastannounced"@, v.last_announced), d0);
    lemma_draft_fold_split(p4, opt_text_entry("lastseen"@, v.last_seen), d0);
    lemma_draft_fold_split(p5, seq![("etag"@, WireValueView::Text(v.etag))], d0);
    lemma_draft_fold_split(p6, seq![("hascolor"@, WireValueView::Bool(v.has_color))], d0);
    lemma_draft_fold_split(
        p7,
        seq![("manufacturername"@, WireValueView::Text(v.manufacturer_name))],
        d0,
    );
    lemma_draft_fold_split(p8, seq![("name"@, WireValueView::Text(v.name))], d0);
    lemma_draft_fold_split(p9, seq![("modelid"@, WireValueView::Text(v.model_id))], d0);
    lemma_draft_fold_split(
        p10,
        opt_uint_entry(
            "powerup"@,
            match v.power_up {
                Some(p) => Some(p as u64),
                None => None,
            },
        ),
        d0,
    );
    lemma_draft_fold_split(p11, seq![("swversion"@, WireValueView::Text(v.sw_version))], d0);
    lemma_draft_fold_split(p12, seq![("type"@, WireValueView::Text(v.kind))], d0);
    lemma_draft_fold_split(p13, seq![("state"@, WireValueView::State(v.state))], d0);
    lemma_draft_fold_split(p14, seq![("uniqueid"@, WireValueView::Text(v.unique_id))], d0);
    assert(light_entries(v) == p15);
    assert(assembled_light(d15) == Some(v));
}

/// Serializing a state to its wire entries and parsing them back yields
/// the same state, for every field and with the gateway's field names.
pub proof fn lemma_state_wire_round_trip(s: LightState)
    ensures
        parsed_state(state_entries(s)) == Some(s),
{
    reveal_strlit("alert");
    reveal_strlit("bri");
    reveal_strlit("effect");
    reveal_strlit("colorloopspeed");
    reveal_strlit("ct");
    reveal_strlit("hue");
    reveal_strlit("on");
    reveal_strlit("sat");
    reveal_strlit("transitiontime");
    reveal_strlit("xy");
    assert("alert"@.len() == 5);
    assert("bri"@.len() == 3);
    assert("effect"@.len() == 6);
    assert("colorloopspeed"@.len() == 14);
    assert("ct"@.len() == 2);
    assert("hue"@.len() == 3);
    assert("on"@.len() == 2);
    assert("sat"@.len() == 3);
    assert("transitiontime"@.len() == 14);
    assert("xy"@.len() == 2);
    assert("bri"@[0] == 'b');
    assert("hue"@[0] == 'h');
    assert("sat"@[0] == 's');
    assert("ct"@[0] == 'c');
    assert("on"@[0] == 'o');
    assert("xy"@[0] == 'x');
    assert("colorloopspeed"@[0] == 'c');
    assert("transitiontime"@[0] == 't');
    let acc0 = empty_state();
    let a1 = LightState { alert: s.alert, ..acc0 };
    assert(state_of_entries(alert_entry(s), acc0) == Some(a1)) by {
        reveal_with_fuel(state_of_entries, 2);
        match s.alert {
            Some(m) => {
                lemma_alert_token_round_trip(m);
            },
            None => {},
        }
    }
    let a2 = LightState { bri: s.bri, ..a1 };
    assert(state_of_entries(bri_entry(s), a1) == Some(a2)) by {
        reveal_with_fuel(state_of_entries, 2);
    }
    let a3 = LightState { effect: s.effect, ..a2 };
    assert(state_of_entries(effect_entry(s), a2) == Some(a3)) by {
        reveal_with_fuel(state_of_entries, 2);
        match s.effect {
            Some(m) => {
                lemma_color_mode_token_round_trip(m);
            },
            None => {},
        }
    }
    let a4 = LightState { color_loop_speed: s.color_loop_speed, ..a3 };
    assert(state_of_entries(color_loop_speed_entry(s), a3) == Some(a4)) by {
        reveal_with_fuel(state_of_entries, 2);
    }
    let a5 = LightState { ct: s.ct, ..a4 };
    assert(state_of_entries(ct_entry(s), a4) == Some(a5)) by {
        reveal_with_fuel(state_of_entries, 2);
    }
    let a6 = LightState { hue: s.hue, ..a5 };
    assert(state_of_entries(hue_entry(s), a5) == Some(a6)) by {
        reveal_with_fuel(state_of_entries, 2);
    }
    let a7 = LightState { on: s.on, ..a6 };
    assert(state_of_entries(on_entry(s), a6) == Some(a7)) by {
        reveal_with_fuel(state_of_entries, 2);
    }
    let a8 = LightState { sat: s.sat, ..a7 };
    assert(state_of_entries(sat_entry(s), a7) == Some(a8)) by {
        reveal_with_fuel(state_of_entries, 2);
    }
    let a9 = LightState { transition_time: s.transition_time, ..a8 };
    assert(state_of_entries(transition_time_entry(s), a8) == Some(a9)) by {
        reveal_with_fuel(state_of_entries, 2);
    }
    let a10 = LightState { xy: s.xy, ..a9 };
    assert(state_of_entries(xy_entry(s), a9) == Some(a10)) by {
        reveal_with_fuel(state_of_entries, 2);
    }
    let p1 = alert_entry(s);
    let p2 = p1 + bri_entry(s);
    let p3 = p2 + effect_entry(s);
    let p4 = p3 + color_loop_speed_entry(s);
    let p5 = p4 + ct_entry(s);
    let p6 = p5 + hue_entry(s);
    let p7 = p6 + on_entry(s);
    let p8 = p7 + sat_entry(s);
    let p9 = p8 + transition_time_entry(s);
    let p10 = p9 + xy_entry(s);
    lemma_fold_split(p1, bri_entry(s), acc0);
    lemma_fold_split(p2, effect_entry(s), acc0);
    lemma_fold_split(p3, color_loop_speed_entry(s), acc0);
    lemma_fold_split(p4, ct_entry(s), acc0);
    lemma_fold_split(p5, hue_entry(s), acc0);
    lemma_fold_split(p6, on_entry(s), acc0);
    lemma_fold_split(p7, sat_entry(s), acc0);
    lemma_fold_split(p8, transition_time_entry(s), acc0);
    lemma_fold_split(p9, xy_entry(s), acc0);
    assert(state_entries(s) == p10);
    assert(a10 == s);
}

} // verus!
