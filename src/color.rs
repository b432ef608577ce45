//! Exact RGB to HSV conversion and the light commands derived from it.
//!
//! Each HSV component is kept as an exact fraction; scaling a component to an
//! integer range truncates toward zero.
use vstd::prelude::*;

verus! {

/// A non-negative fraction `num / den`.
#[derive(Clone, Copy, Debug, PartialEq, Eq, Structural)]
pub struct Ratio {
    pub num: u32,
    pub den: u32,
}

impl Ratio {
    /// The denominator is positive.
    pub open spec fn wf(self) -> bool {
        self.den > 0
    }

    /// The fraction lies in [0, 1].
    pub open spec fn in_unit(self) -> bool {
        self.wf() && self.num <= self.den
    }

    /// `self * full`, truncated toward zero.
    pub open spec fn scaled_spec(self, full: int) -> int {
        (self.num * full) / (self.den as int)
    }

    /// Scales a fraction of [0, 1] to the range [0, full], truncating.
    pub fn scaled(self, full: u32) -> (r: u32)
        requires
            self.in_unit(),
        ensures
            r as int == self.scaled_spec(full as int),
            r <= full,
    {
        proof {
            assert(self.num * full <= 0xffff_ffffu64 * 0xffff_ffffu64) by (nonlinear_arith)
                requires self.num <= 0xffff_ffffu64, full <= 0xffff_ffffu64;
            assert(self.num * full <= self.den * full) by (nonlinear_arith)
                requires self.num <= self.den;
            assert((self.num * full) / (self.den as int) <= full) by (nonlinear_arith)
                requires self.num * full <= self.den * full, self.den > 0;
        }
        ((self.num as u64 * full as u64) / self.den as u64) as u32
    }
}

/// A colour in hue, saturation and value, each a fraction of [0, 1].
#[derive(Clone, Copy, Debug, PartialEq, Eq, Structural)]
pub struct Hsv {
    pub hue: Ratio,
    pub saturation: Ratio,
    pub value: Ratio,
}

pub open spec fn max3(r: int, g: int, b: int) -> int {
    if r >= g && r >= b {
        r
    } else if g >= b {
        g
    } else {
        b
    }
}

pub open spec fn min3(r: int, g: int, b: int) -> int {
    if r <= g && r <= b {
        r
    } else if g <= b {
        g
    } else {
        b
    }
}

/// Six times the hue times `max - min`: the numerator of the hue in sixths of
/// a turn, taken from the channel that holds the maximum (red first, then
/// green), and moved into [0, 6) when it would be negative.
pub open spec fn hue_sixths_num(r: int, g: int, b: int) -> int {
    let d = max3(r, g, b) - min3(r, g, b);
    if max3(r, g, b) == r {
        (g - b) + if g < b { 6 * d } else { 0 }
    } else if max3(r, g, b) == g {
        (b - r) + 2 * d
    } else {
        (r - g) + 4 * d
    }
}

/// The HSV form of the colour with channels `r`, `g`, `b` out of 255.
pub open spec fn hsv_of(r: int, g: int, b: int) -> Hsv {
    let mx = max3(r, g, b);
    let mn = min3(r, g, b);
    let value = Ratio { num: mx as u32, den: 255 };
    if mx == mn {
        Hsv { hue: Ratio { num: 0, den: 1 }, saturation: Ratio { num: 0, den: 1 }, value }
    } else {
        Hsv {
            hue: Ratio { num: hue_sixths_num(r, g, b) as u32, den: (6 * (mx - mn)) as u32 },
            saturation: Ratio { num: (mx - mn) as u32, den: mx as u32 },
            value,
        }
    }
}

/// Converts an RGB colour to HSV: value is the largest channel, saturation is
/// `(max - min) / max`, and hue is taken from the dominant channel. A grey
/// (all channels equal) has hue and saturation zero.
pub fn rgb_to_hsv(r: u8, g: u8, b: u8) -> (hsv: Hsv)
    ensures
        hsv == hsv_of(r as int, g as int, b as int),
        hsv.hue.in_unit(),
        hsv.saturation.in_unit(),
        hsv.value.in_unit(),
{
    let (r, g, b) = (r as u32, g as u32, b as u32);
    let mx: u32 = if r >= g && r >= b {
        r
    } else if g >= b {
        g
    } else {
        b
    };
    let mn: u32 = if r <= g && r <= b {
        r
    } else if g <= b {
        g
    } else {
        b
    };
    let value = Ratio { num: mx, den: 255 };
    if mx == mn {
        Hsv { hue: Ratio { num: 0, den: 1 }, saturation: Ratio { num: 0, den: 1 }, value }
    } else {
        let d = mx - mn;
        let h: u32 = if mx == r {
            if g < b {
                g + 6 * d - b
            } else {
                g - b
            }
        } else if mx == g {
            b + 2 * d - r
        } else {
            r + 4 * d - g
        };
        Hsv { hue: Ratio { num: h, den: 6 * d }, saturation: Ratio { num: d, den: mx }, value }
    }
}

/// Every HSV component of a colour of byte channels lies in [0, 1].
pub proof fn lemma_hsv_in_unit(r: u8, g: u8, b: u8)
    ensures
        hsv_of(r as int, g as int, b as int).hue.in_unit(),
        hsv_of(r as int, g as int, b as int).saturation.in_unit(),
        hsv_of(r as int, g as int, b as int).value.in_unit(),
{
}

/// A grey, whose three channels are equal, has hue and saturation zero and
/// value equal to its channel.
pub proof fn lemma_grey_has_no_hue(c: u8)
    ensures
        hsv_of(c as int, c as int, c as int).hue.num == 0,
        hsv_of(c as int, c as int, c as int).saturation.num == 0,
        hsv_of(c as int, c as int, c as int).value == (Ratio { num: c as u32, den: 255 }),
{
}

/// Full scale of the hue field of a light command.
pub const HUE_FULL: u32 = 65535;

/// Full scale of the saturation and brightness fields of a light command.
pub const BYTE_FULL: u32 = 255;

/// Transition time of the notification commands, in tenths of a second.
pub const NOTIFY_TRANSITION: u16 = 5;

/// A state change for a light: switch it on or off and optionally set its
/// hue (0..=65535), saturation and brightness (0..=255) and transition time
/// (in tenths of a second).
#[derive(Clone, Copy, Debug, PartialEq, Eq, Structural)]
pub struct LightCommand {
    pub on: bool,
    pub hue: Option<u16>,
    pub sat: Option<u8>,
    pub bri: Option<u8>,
    pub transition_time: Option<u16>,
}

/// Whether each component of an HSV colour lies in [0, 1].
pub open spec fn hsv_in_unit(hsv: Hsv) -> bool {
    hsv.hue.in_unit() && hsv.saturation.in_unit() && hsv.value.in_unit()
}

/// The command that switches a light on to `hsv`, each component scaled to
/// its field's range with truncation.
pub open spec fn command_of(hsv: Hsv, transition: u16) -> LightCommand {
    LightCommand {
        on: true,
        hue: Some(hsv.hue.scaled_spec(HUE_FULL as int) as u16),
        sat: Some(hsv.saturation.scaled_spec(BYTE_FULL as int) as u8),
        bri: Some(hsv.value.scaled_spec(BYTE_FULL as int) as u8),
        transition_time: Some(transition),
    }
}

/// Builds the command that switches a light on to the colour `hsv`: hue
/// scaled to 0..=65535, saturation and value to 0..=255, each truncated.
pub fn command_from_hsv(hsv: Hsv, transition: u16) -> (c: LightCommand)
    requires
        hsv_in_unit(hsv),
    ensures
        c == command_of(hsv, transition),
        c.hue.unwrap() as int == hsv.hue.scaled_spec(HUE_FULL as int),
        c.sat.unwrap() as int == hsv.saturation.scaled_spec(BYTE_FULL as int),
        c.bri.unwrap() as int == hsv.value.scaled_spec(BYTE_FULL as int),
{
    let hue = hsv.hue.scaled(HUE_FULL);
    let sat = hsv.saturation.scaled(BYTE_FULL);
    let bri = hsv.value.scaled(BYTE_FULL);
    LightCommand {
        on: true,
        hue: Some(hue as u16),
        sat: Some(sat as u8),
        bri: Some(bri as u8),
        transition_time: Some(transition),
    }
}

/// The command that switches a light on to the colour with channels
/// `r`, `g`, `b`.
pub open spec fn command_of_rgb(r: u8, g: u8, b: u8, transition: u16) -> LightCommand {
    command_of(hsv_of(r as int, g as int, b as int), transition)
}

/// The command sent when a work phase begins: a warm white.
pub fn get_start_command() -> (c: LightCommand)
    ensures
        c == command_of_rgb(255, 255, 251, NOTIFY_TRANSITION),
{
    command_from_hsv(rgb_to_hsv(255, 255, 251), NOTIFY_TRANSITION)
}

/// The command sent when a work phase ends: a warm orange.
pub fn get_end_command() -> (c: LightCommand)
    ensures
        c == command_of_rgb(255, 147, 41, NOTIFY_TRANSITION),
{
    command_from_hsv(rgb_to_hsv(255, 147, 41), NOTIFY_TRANSITION)
}

} // verus!
