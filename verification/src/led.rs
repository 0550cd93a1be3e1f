//! The status LED: which colour and trigger each of the three channels gets
//! for a requested state, and the override that the admin interface can hold
//! over it.  The sysfs writes happen outside the crate; `set_led` and its
//! siblings return the channel settings to apply, or nothing when an
//! override masks the change.

use vstd::prelude::*;

verus! {

#[derive(Clone, Copy, PartialEq, Eq, Structural, Debug)]
pub enum LedMode {
    On,
    Heartbeat,
}

#[derive(Clone, Copy, PartialEq, Eq, Structural, Debug)]
pub enum LedColor {
    Red,
    Green,
    Blue,
    Yellow,
    White,
    Purple,
}

/// What one LED channel is told: its trigger and its brightness percentage.
#[derive(Clone, Copy, PartialEq, Eq, Structural, Debug)]
pub enum LedChannel {
    Off,
    DefaultOn(u8),
    Heartbeat(u8),
}

/// The settings for the three channels, red, green and blue in that order.
#[derive(Clone, Copy, PartialEq, Eq, Structural, Debug)]
pub struct LedPlan {
    pub red: LedChannel,
    pub green: LedChannel,
    pub blue: LedChannel,
}

#[derive(Clone, Copy, PartialEq, Eq, Structural, Debug)]
pub struct LedState {
    pub color: LedColor,
    pub mode: LedMode,
}

/// The channel a lit LED gets for a mode and brightness.
pub open spec fn spec_lit(mode: LedMode, brightness: u8) -> LedChannel {
    match mode {
        LedMode::On => LedChannel::DefaultOn(brightness),
        LedMode::Heartbeat => LedChannel::Heartbeat(brightness),
    }
}

/// The channel settings for a colour, mode and brightness: the colour's
/// component channels lit with the mode, the others off.
pub open spec fn spec_led_plan(color: LedColor, mode: LedMode, brightness: u8) -> LedPlan {
    let lit = spec_lit(mode, brightness);
    match color {
        LedColor::Red => LedPlan { red: lit, green: LedChannel::Off, blue: LedChannel::Off },
        LedColor::Green => LedPlan { red: LedChannel::Off, green: lit, blue: LedChannel::Off },
        LedColor::Blue => LedPlan { red: LedChannel::Off, green: LedChannel::Off, blue: lit },
        LedColor::Yellow => LedPlan { red: lit, green: lit, blue: LedChannel::Off },
        LedColor::White => LedPlan { red: lit, green: lit, blue: lit },
        LedColor::Purple => LedPlan { red: lit, green: LedChannel::Off, blue: lit },
    }
}

/// Computes the channel settings, as `spec_led_plan` describes.
pub fn led_plan(color: LedColor, mode: LedMode, brightness: u8) -> (r: LedPlan)
    ensures
        r == spec_led_plan(color, mode, brightness),
{
    let lit = match mode {
        LedMode::On => LedChannel::DefaultOn(brightness),
        LedMode::Heartbeat => LedChannel::Heartbeat(brightness),
    };
    match color {
        LedColor::Red => LedPlan { red: lit, green: LedChannel::Off, blue: LedChannel::Off },
        LedColor::Green => LedPlan { red: LedChannel::Off, green: lit, blue: LedChannel::Off },
        LedColor::Blue => LedPlan { red: LedChannel::Off, green: LedChannel::Off, blue: lit },
        LedColor::Yellow => LedPlan { red: lit, green: lit, blue: LedChannel::Off },
        LedColor::White => LedPlan { red: lit, green: lit, blue: lit },
        LedColor::Purple => LedPlan { red: lit, green: LedChannel::Off, blue: lit },
    }
}

/// The brightness to write for a percentage, given the channel's maximum:
/// the percentage of the maximum, rounded to the nearest step.
pub fn scale_brightness(percent: u8, max_brightness: u32) -> (r: u32)
    requires
        percent <= 100,
    ensures
        r == (percent as int * max_brightness as int + 50) / 100,
{
    proof {
        assert(percent as int * max_brightness as int <= 100 * 0xFFFF_FFFF) by (nonlinear_arith)
            requires
                percent <= 100,
                max_brightness <= 0xFFFF_FFFF,
        ;
        assert((percent as int * max_brightness as int + 50) / 100 <= max_brightness as int + 1)
            by (nonlinear_arith)
            requires
                percent <= 100,
        ;
    }
    ((percent as u64 * max_brightness as u64 + 50) / 100) as u32
}

pub struct LedManager {
    pub brightness: u8,
    pub state: LedState,
    pub override_enabled: bool,
    pub override_state: Option<LedState>,
}

impl LedManager {
    /// A manager starting on a steady red LED, with the brightness clamped
    /// to one through one hundred percent.
    pub fn new(brightness: u8) -> (r: Self)
        ensures
            r.brightness as int == if brightness < 1 {
                1int
            } else if brightness > 100 {
                100int
            } else {
                brightness as int
            },
            r.state == (LedState { color: LedColor::Red, mode: LedMode::On }),
            !r.override_enabled,
            r.override_state is None,
    {
        let clamped = if brightness < 1 {
            1
        } else if brightness > 100 {
            100
        } else {
            brightness
        };
        LedManager {
            brightness: clamped,
            state: LedState { color: LedColor::Red, mode: LedMode::On },
            override_enabled: false,
            override_state: None,
        }
    }

    /// Records the wanted state and returns the settings to apply, unless an
    /// override is holding the LED.
    pub fn set_led(&mut self, color: LedColor, mode: LedMode) -> (r: Option<LedPlan>)
        ensures
            final(self).state == (LedState { color, mode }),
            final(self).brightness == old(self).brightness,
            final(self).override_enabled == old(self).override_enabled,
            final(self).override_state == old(self).override_state,
            r == if old(self).override_enabled {
                None::<LedPlan>
            } else {
                Some(spec_led_plan(color, mode, old(self).brightness))
            },
    {
        self.state = LedState { color, mode };
        if !self.override_enabled {
            Some(led_plan(color, mode, self.brightness))
        } else {
            None
        }
    }

    /// Holds the LED in the given state until the override is cleared, and
    /// returns the settings to apply now.
    pub fn override_led(&mut self, color: LedColor, mode: LedMode) -> (r: LedPlan)
        ensures
            final(self).override_enabled,
            final(self).override_state == Some(LedState { color, mode }),
            final(self).state == old(self).state,
            final(self).brightness == old(self).brightness,
            r == spec_led_plan(color, mode, old(self).brightness),
    {
        self.override_enabled = true;
        self.override_state = Some(LedState { color, mode });
        led_plan(color, mode, self.brightness)
    }

    /// Releases the override and returns the settings that restore the last
    /// wanted state.
    pub fn clear_override(&mut self) -> (r: LedPlan)
        ensures
            !final(self).override_enabled,
            final(self).state == old(self).state,
            final(self).brightness == old(self).brightness,
            final(self).override_state == old(self).override_state,
            r == spec_led_plan(old(self).state.color, old(self).state.mode, old(self).brightness),
    {
        self.override_enabled = false;
        led_plan(self.state.color, self.state.mode, self.brightness)
    }
}

} // verus!
