use crate::indicator::Rgb;
use vstd::prelude::*;

verus! {

/// The colour `smart_leds::hsv::hsv2rgb` gives for a hue, saturation and value.
pub uninterp spec fn hsv_rgb(hue: u8, sat: u8, val: u8) -> (u8, u8, u8);

/// The gamma-corrected level of one channel, from `smart_leds::gamma`'s table.
pub uninterp spec fn gamma_level(x: u8) -> u8;

pub open spec fn rgb_of(c: (u8, u8, u8)) -> Rgb {
    Rgb { r: c.0, g: c.1, b: c.2 }
}

/// One channel scaled to a brightness level, as `smart_leds::brightness` does.
pub open spec fn dim_level(x: u8, level: u8) -> u8 {
    (x as int * (level as int + 1) / 256) as u8
}

pub open spec fn spec_gamma(c: Rgb) -> Rgb {
    Rgb { r: gamma_level(c.r), g: gamma_level(c.g), b: gamma_level(c.b) }
}

pub open spec fn spec_dim(c: Rgb, level: u8) -> Rgb {
    Rgb { r: dim_level(c.r, level), g: dim_level(c.g, level), b: dim_level(c.b, level) }
}

/// The pixel sent to the LED for a colour: gamma-corrected first, then
/// dimmed to the brightness level.
pub open spec fn spec_pixel(c: Rgb, level: u8) -> Rgb {
    spec_dim(spec_gamma(c), level)
}

/// Relies on smart_leds::hsv::hsv2rgb, whose result depends on its three
/// arguments alone and is black at value zero.
#[verifier::external_body]
fn hsv_to_rgb(hue: u8, sat: u8, val: u8) -> (r: Rgb)
    ensures
        r == rgb_of(hsv_rgb(hue, sat, val)),
        val == 0 ==> r == (Rgb { r: 0, g: 0, b: 0 }),
{
    let c = smart_leds::hsv::hsv2rgb(smart_leds::hsv::Hsv { hue, sat, val });
    Rgb { r: c.r, g: c.g, b: c.b }
}

/// Relies on smart_leds::gamma: each channel is looked up in its table, in
/// which zero stays zero; one colour in gives one colour out.
#[verifier::external_body]
fn gamma_correct(c: Rgb) -> (r: Option<Rgb>)
    ensures
        r == Some((Rgb { r: gamma_level(c.r), g: gamma_level(c.g), b: gamma_level(c.b) })),
        c.r == 0 ==> r->0.r == 0,
        c.g == 0 ==> r->0.g == 0,
        c.b == 0 ==> r->0.b == 0,
{
    let one = core::iter::once(smart_leds::RGB8::new(c.r, c.g, c.b));
    smart_leds::gamma(one).next().map(|x| Rgb { r: x.r, g: x.g, b: x.b })
}

/// Relies on smart_leds::brightness: each channel becomes
/// `x * (level + 1) / 256`; one colour in gives one colour out.
#[verifier::external_body]
fn dim(c: Rgb, level: u8) -> (r: Option<Rgb>)
    ensures
        r == Some(spec_dim(c, level)),
{
    let one = core::iter::once(smart_leds::RGB8::new(c.r, c.g, c.b));
    smart_leds::brightness(one, level).next().map(|x| Rgb { r: x.r, g: x.g, b: x.b })
}

/// The pixel for a colour at a brightness level.
pub fn pixel(c: Rgb, level: u8) -> (r: Rgb)
    ensures
        r == spec_pixel(c, level),
{
    let g = match gamma_correct(c) {
        Some(g) => g,
        None => c,
    };
    match dim(g, level) {
        Some(d) => d,
        None => g,
    }
}

/// The colour state of a single RGB LED: a hue at full saturation and value,
/// and a brightness level.
#[derive(Debug, Clone, Copy, PartialEq, Eq, Structural)]
pub struct NeoPixel {
    pub hue: u8,
    pub sat: u8,
    pub val: u8,
    pub brightness_level: u8,
}

impl NeoPixel {
    /// Red at full saturation, dimmed to level ten.
    pub fn new() -> (r: NeoPixel)
        ensures
            r == (NeoPixel { hue: 0, sat: 255, val: 255, brightness_level: 10 }),
    {
        NeoPixel { hue: 0, sat: 255, val: 255, brightness_level: 10 }
    }

    pub open spec fn spec_current(self) -> Rgb {
        spec_pixel(rgb_of(hsv_rgb(self.hue, self.sat, self.val)), self.brightness_level)
    }

    /// The pixel for the current hue and brightness.
    pub fn current(&self) -> (r: Rgb)
        ensures
            r == self.spec_current(),
    {
        let c = hsv_to_rgb(self.hue, self.sat, self.val);
        pixel(c, self.brightness_level)
    }

    /// Changes the hue; returns the pixel to show.
    pub fn set_hue(&mut self, hue: u8) -> (r: Rgb)
        ensures
            *final(self) == (NeoPixel { hue, ..*old(self) }),
            r == final(self).spec_current(),
    {
        self.hue = hue;
        self.current()
    }

    /// Changes the brightness level; returns the pixel to show.
    pub fn set_brightness(&mut self, brightness: u8) -> (r: Rgb)
        ensures
            *final(self) == (NeoPixel { brightness_level: brightness, ..*old(self) }),
            r == final(self).spec_current(),
    {
        self.brightness_level = brightness;
        self.current()
    }

    /// The pixel for an explicit colour and level; the stored hue and
    /// brightness are left as they are.
    pub fn set_rgb(&self, r: u8, g: u8, b: u8, brightness_level: u8) -> (px: Rgb)
        ensures
            px == spec_pixel(Rgb { r, g, b }, brightness_level),
    {
        pixel(Rgb { r, g, b }, brightness_level)
    }
}

} // verus!
