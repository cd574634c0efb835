//! The light resource: its immutable attributes, its mutable runtime state,
//! and the bounded mutation helpers that compute a new state before it is
//! pushed back to the gateway.

use vstd::prelude::*;

verus! {

/// How a light signals an alert, as the gateway enumerates it.
#[derive(Debug, Clone, Copy, PartialEq, Eq)]
pub enum AlertMode {
    NoAlert,
    Select,
    Lselect,
}

/// Which color system a light state addresses.
#[derive(Debug, Clone, Copy, PartialEq, Eq)]
pub enum ColorMode {
    NoColor,
    Hs,
    Xy,
    Ct,
}

/// The running effect of a light.
#[derive(Debug, Clone, Copy, PartialEq, Eq)]
pub enum LightEffect {
    NoEffect,
    ColorLoop,
}

/// A CIE chromaticity coordinate pair. Each coordinate is a fraction in
/// ten-thousandths, so `x == 2500` stands for the coordinate 0.25.
#[derive(Debug, Clone, Copy, PartialEq, Eq)]
pub struct XyColor {
    pub x: u32,
    pub y: u32,
}

/// The mutable runtime attributes of a light. Every field is optional:
/// an absent field means "leave unchanged" in a partial update sent to the
/// gateway, and "unknown or not applicable" in a fetched state.
#[derive(Debug, Clone, Copy, PartialEq)]
pub struct LightState {
    pub alert: Option<AlertMode>,
    pub bri: Option<u8>,
    pub effect: Option<ColorMode>,
    pub color_loop_speed: Option<u8>,
    pub ct: Option<u64>,
    pub hue: Option<u32>,
    pub on: Option<bool>,
    pub sat: Option<u8>,
    pub transition_time: Option<u64>,
    pub xy: Option<XyColor>,
}

/// The state with every field absent: sent as an update, it changes
/// nothing.
pub open spec fn empty_state() -> LightState {
    LightState {
        alert: None,
        bri: None,
        effect: None,
        color_loop_speed: None,
        ct: None,
        hue: None,
        on: None,
        sat: None,
        transition_time: None,
        xy: None,
    }
}

impl Default for LightState {
    /// The state with every field absent.
    fn default() -> (r: Self)
        ensures
            r == empty_state(),
    {
        LightState {
            alert: None,
            bri: None,
            effect: None,
            color_loop_speed: None,
            ct: None,
            hue: None,
            on: None,
            sat: None,
            transition_time: None,
            xy: None,
        }
    }
}

/// A light as the gateway reports it: identity, capabilities and the
/// mutable `state`. The client only reads lights and proposes state
/// changes; it never creates or destroys one. The device category in
/// `kind` travels on the wire under the field name `type`.
#[derive(Debug, Clone, PartialEq)]
pub struct Light {
    pub color_capabilities: Option<u64>,
    pub ct_max: Option<u64>,
    pub ct_min: Option<u64>,
    pub last_announced: Option<String>,
    pub last_seen: Option<String>,
    pub etag: String,
    pub has_color: bool,
    pub manufacturer_name: String,
    pub name: String,
    pub model_id: String,
    pub power_up: Option<u8>,
    pub sw_version: String,
    pub kind: String,
    pub state: LightState,
    pub unique_id: String,
}

/// A delta that cannot be applied to a light state field.
#[derive(Debug, Clone, Copy, PartialEq, Eq)]
pub enum LightStateError {
    ImpossibleDelta { from: isize, to: isize, delta: isize },
}

/// `x` raised to at least `lo`, then lowered to at most `hi` (so for
/// `lo <= hi` this is the usual clamp to `[lo, hi]`).
pub open spec fn clamped(x: int, lo: int, hi: int) -> int {
    let raised = if x > lo {
        x
    } else {
        lo
    };
    if raised < hi {
        raised
    } else {
        hi
    }
}

/// The brightness a mutation starts from: an absent brightness counts as 0.
pub open spec fn brightness_base(s: LightState) -> int {
    match s.bri {
        Some(b) => b as int,
        None => 0,
    }
}

/// The hue a mutation starts from: an absent hue counts as 0.
pub open spec fn hue_base(s: LightState) -> int {
    match s.hue {
        Some(h) => h as int,
        None => 0,
    }
}

/// The color temperature a mutation starts from: an absent one counts as 0.
pub open spec fn ct_base(s: LightState) -> int {
    match s.ct {
        Some(c) => c as int,
        None => 0,
    }
}

/// The light after a brightness change: the prior brightness (0 when
/// absent) plus the delta, clamped to the 8-bit range; everything else
/// unchanged.
pub open spec fn with_brightness(l: Light, delta: int) -> Light {
    Light {
        state: LightState {
            bri: Some(clamped(brightness_base(l.state) + delta, 0, 255) as u8),
            ..l.state
        },
        ..l
    }
}

/// The light after a hue change: the prior hue (0 when absent) plus the
/// delta, clamped to the 32-bit range; everything else unchanged.
pub open spec fn with_hue(l: Light, delta: int) -> Light {
    Light {
        state: LightState {
            hue: Some(clamped(hue_base(l.state) + delta, 0, 0xffff_ffff) as u32),
            ..l.state
        },
        ..l
    }
}

/// The light after a color-temperature change. With both bounds present,
/// the prior value (0 when absent) plus the delta is clamped to the
/// light's `[ct_min, ct_max]` window; with either bound absent the light
/// is unchanged.
pub open spec fn with_color_temperature(l: Light, delta: int) -> Light {
    match (l.ct_min, l.ct_max) {
        (Some(lo), Some(hi)) => Light {
            state: LightState {
                ct: Some(clamped(ct_base(l.state) + delta, lo as int, hi as int) as u64),
                ..l.state
            },
            ..l
        },
        _ => l,
    }
}

/// The light after its power flag is set: `on` becomes `Some(value)` and
/// everything else is unchanged.
pub open spec fn with_power(l: Light, value: bool) -> Light {
    Light { state: LightState { on: Some(value), ..l.state }, ..l }
}

impl Light {
    /// Adds `delta` to the brightness, treating an absent brightness as 0
    /// and clamping the sum to `[0, 255]`. Returns the light again so
    /// mutations can be chained before one network push.
    pub fn change_brightness(&mut self, delta: i16) -> (r: &mut Light)
        ensures
            *r == with_brightness(*old(self), delta as int),
            *final(self) == *final(r),
    {
        let base: i32 = match self.state.bri {
            Some(b) => b as i32,
            None => 0,
        };
        let sum: i32 = base + delta as i32;
        let new_bri: u8 = if sum < 0 {
            0
        } else if sum > 255 {
            255
        } else {
            sum as u8
        };
        self.state.bri = Some(new_bri);
        self
    }

    /// Adds `delta` to the hue, treating an absent hue as 0 and clamping
    /// the sum to the full 32-bit range.
    pub fn change_hue(&mut self, delta: i64) -> (r: &mut Light)
        ensures
            *r == with_hue(*old(self), delta as int),
            *final(self) == *final(r),
    {
        let base: i64 = match self.state.hue {
            Some(h) => h as i64,
            None => 0,
        };
        let new_hue: u32 = if delta >= 0 {
            if delta >= 0xffff_ffffi64 - base {
                0xffff_ffffu32
            } else {
                (base + delta) as u32
            }
        } else {
            if delta + base <= 0 {
                0
            } else {
                (base + delta) as u32
            }
        };
        self.state.hue = Some(new_hue);
        self
    }

    /// Adds `delta` to the color temperature, treating an absent value as
    /// 0 and clamping the sum to the light's `[ct_min, ct_max]` window.
    /// When either bound is absent the window is unknown, and the light is
    /// left unchanged.
    pub fn change_color_temperature(&mut self, delta: i128) -> (r: &mut Light)
        ensures
            *r == with_color_temperature(*old(self), delta as int),
            *final(self) == *final(r),
    {
        let (lo, hi) = match (self.ct_min, self.ct_max) {
            (Some(lo), Some(hi)) => (lo, hi),
            _ => {
                return self;
            },
        };
        let base: i128 = match self.state.ct {
            Some(c) => c as i128,
            None => 0,
        };
        let new_ct: u64 = if delta >= hi as i128 - base {
            hi
        } else if delta <= lo as i128 - base {
            if lo < hi {
                lo
            } else {
                hi
            }
        } else {
            (base + delta) as u64
        };
        self.state.ct = Some(new_ct);
        self
    }

    /// Sets the power flag unconditionally.
    pub fn on(&mut self, on: bool) -> (r: &mut Light)
        ensures
            *r == with_power(*old(self), on),
            *final(self) == *final(r),
    {
        self.state.on = Some(on);
        self
    }
}

/// Setting the power flag is idempotent: setting it twice to the same
/// value yields the same light as setting it once.
pub proof fn lemma_power_idempotent(l: Light, value: bool)
    ensures
        with_power(with_power(l, value), value) == with_power(l, value),
{
}

} // verus!
