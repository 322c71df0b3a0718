//! The rainbow LED firmware: each run shows the next hue on a WS2812 LED
//! unless the HP core has paused it, and a debounced button press wakes the
//! HP core.

use vstd::prelude::*;

verus! {

/// What `smart_leds::hsv::hsv2rgb` gives for the hue, saturation and value,
/// as (red, green, blue).
pub uninterp spec fn hsv2rgb_result(hue: u8, sat: u8, val: u8) -> (u8, u8, u8);

/// The channel (0 red, 1 green, 2 blue) of `rgb`.
pub open spec fn channel(rgb: (u8, u8, u8), i: int) -> u8 {
    if i == 0 {
        rgb.0
    } else if i == 1 {
        rgb.1
    } else {
        rgb.2
    }
}

/// The channel that `hsv2rgb` sets to the value for `hue`: red around red
/// (hues up to 42 and from 213 on), green for hues 43 to 127, blue for hues
/// 128 to 212.
pub open spec fn full_channel(hue: u8) -> int {
    if hue <= 42 || hue >= 213 {
        0
    } else if hue <= 127 {
        1
    } else {
        2
    }
}

/// The channel that `hsv2rgb` sets to `val * (255 - sat) / 255`: blue for
/// hues up to 84 and hue 255, red for hues 85 to 169, green for hues 170 to 254.
pub open spec fn low_channel(hue: u8) -> int {
    if hue <= 84 || hue == 255 {
        2
    } else if hue <= 169 {
        0
    } else {
        1
    }
}

/// Calls `smart_leds::hsv::hsv2rgb`. Its result is named `hsv2rgb_result`;
/// the source shows that no channel exceeds `val`, which channel equals
/// `val` and which equals `val * (255 - sat) / 255` for each hue, and that
/// with zero saturation all three equal `val`. The third channel, which
/// moves with the hue inside each sixth of the circle, is left to the name.
#[verifier::external_body]
fn hsv2rgb(hue: u8, sat: u8, val: u8) -> (r: (u8, u8, u8))
    ensures
        r == hsv2rgb_result(hue, sat, val),
        r.0 <= val && r.1 <= val && r.2 <= val,
        channel(r, full_channel(hue)) == val,
        channel(r, low_channel(hue)) == val * (255 - sat) / 255,
        sat == 0 ==> r.0 == val && r.1 == val && r.2 == val,
{
    let rgb = smart_leds::hsv::hsv2rgb(smart_leds::hsv::Hsv { hue, sat, val });
    (rgb.r, rgb.g, rgb.b)
}

/// Saturation of the rainbow colours.
pub const RAINBOW_SATURATION: u8 = 255;

/// Value (brightness before scaling) of the rainbow colours.
pub const RAINBOW_VALUE: u8 = 64;

/// Brightness level at which the rainbow colours are written to the LED.
pub const RAINBOW_BRIGHTNESS: u8 = 16;

/// One run of the rainbow firmware.
#[derive(Clone, Copy, Debug)]
pub struct RainbowFrame {
    /// The colour of the hue, before brightness scaling, if the LED is to be
    /// written.
    pub hsv_colour: Option<(u8, u8, u8)>,
    /// The brightness level that the LED writer scales `hsv_colour` to.
    pub brightness: u8,
    /// The counter to store.
    pub next_counter: u32,
}

/// One run of the rainbow firmware with the shared `count` and pause flag:
/// unless paused (a zero counter is shown even when paused), the colour of
/// hue `count mod 256` is shown at brightness `RAINBOW_BRIGHTNESS` and the
/// counter goes up by one. The frame carries the colour as `hsv2rgb` gives it
/// (fully saturated: one channel at the value, one off) and the brightness
/// level; scaling is the LED writer's part.
pub fn rainbow_step(count: u32, is_paused: bool) -> (r: RainbowFrame)
    requires
        !is_paused || count == 0 ==> count < u32::MAX,
    ensures
        r.hsv_colour matches Some(c) ==> {
            &&& channel(c, full_channel((count % 256) as u8)) == RAINBOW_VALUE
            &&& channel(c, low_channel((count % 256) as u8)) == 0
        },
        r == if !is_paused || count == 0 {
            RainbowFrame {
                hsv_colour: Some(hsv2rgb_result((count % 256) as u8, RAINBOW_SATURATION, RAINBOW_VALUE)),
                brightness: RAINBOW_BRIGHTNESS,
                next_counter: (count + 1) as u32,
            }
        } else {
            RainbowFrame { hsv_colour: None, brightness: RAINBOW_BRIGHTNESS, next_counter: count }
        },
{
    let hue = (count & 0xFF) as u8;
    assert(count & 0xFF == count % 256) by (bit_vector);
    if !is_paused || count == 0 {
        let rgb = hsv2rgb(hue, RAINBOW_SATURATION, RAINBOW_VALUE);
        RainbowFrame { hsv_colour: Some(rgb), brightness: RAINBOW_BRIGHTNESS, next_counter: count + 1 }
    } else {
        RainbowFrame { hsv_colour: None, brightness: RAINBOW_BRIGHTNESS, next_counter: count }
    }
}

/// Presses that must be seen before the HP core is woken.
pub const VOTE_THRESH: u32 = 50;

/// Button reads in one interrupt at most.
pub const MAX_READS: u32 = 100;

/// The RTC input bit of the button (GPIO 5), after the input word is shifted
/// right by 10.
pub const BUTTON_BIT: u32 = 5;

/// The button debouncer of the GPIO interrupt: reads the input word up to
/// `MAX_READS` times, a hundred microseconds apart, counting reads that see
/// the button pressed, and wakes the HP core once `VOTE_THRESH` presses were
/// seen.
#[derive(Clone, Copy, Debug, PartialEq, Eq, Structural)]
pub struct Debounce {
    pub reads: u32,
    pub press_votes: u32,
}

/// What the debouncer does after a read.
#[derive(Clone, Copy, Debug, PartialEq, Eq, Structural)]
pub enum DebounceStep {
    /// Wait a hundred microseconds and read again.
    ReadAgain,
    /// Stop reading; wake the HP core or not. `after_delay`: the last read
    /// did not reach the threshold, so the usual wait comes first.
    Done { wake: bool, after_delay: bool },
}

/// The button is pressed in the RTC input word `inputs`.
pub open spec fn button_pressed(inputs: u32) -> bool {
    ((inputs >> 10u32) & (1u32 << BUTTON_BIT)) != 0
}

impl Debounce {
    pub open spec fn wf(self) -> bool {
        &&& self.press_votes <= self.reads
        &&& self.reads < MAX_READS
        &&& self.press_votes < VOTE_THRESH
    }

    /// Before the first read.
    pub fn new() -> (r: Debounce)
        ensures
            r.wf(),
            r.reads == 0,
            r.press_votes == 0,
    {
        Debounce { reads: 0, press_votes: 0 }
    }

    /// Takes in one read of the RTC input word.
    pub fn sample(&mut self, inputs: u32) -> (r: DebounceStep)
        requires
            old(self).wf(),
        ensures
            final(self).reads == old(self).reads + 1,
            final(self).press_votes == old(self).press_votes + if button_pressed(inputs) { 1int } else { 0 },
            r == if final(self).press_votes >= VOTE_THRESH {
                DebounceStep::Done { wake: true, after_delay: false }
            } else if final(self).reads == MAX_READS {
                DebounceStep::Done { wake: false, after_delay: true }
            } else {
                DebounceStep::ReadAgain
            },
            r == DebounceStep::ReadAgain ==> final(self).wf(),
    {
        let bits = inputs >> 10u32;
        if (bits & (1u32 << BUTTON_BIT)) != 0 {
            self.press_votes = self.press_votes + 1;
        }
        self.reads = self.reads + 1;
        if self.press_votes >= VOTE_THRESH {
            DebounceStep::Done { wake: true, after_delay: false }
        } else if self.reads == MAX_READS {
            DebounceStep::Done { wake: false, after_delay: true }
        } else {
            DebounceStep::ReadAgain
        }
    }
}

} // verus!
