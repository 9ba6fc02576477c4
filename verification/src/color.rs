//! Colours, and the conversions that `smart-leds` supplies.

use vstd::prelude::*;

verus! {

/// One pixel: 8 bits each of red, green and blue.
#[derive(Clone, Copy, Debug, PartialEq, Eq, Structural)]
pub struct Rgb {
    pub r: u8,
    pub g: u8,
    pub b: u8,
}

impl Rgb {
    /// A dark pixel.
    pub open spec fn off() -> Rgb {
        Rgb { r: 0, g: 0, b: 0 }
    }

    /// The pixel with these three channels.
    pub fn new(r: u8, g: u8, b: u8) -> (c: Rgb)
        ensures
            c == (Rgb { r, g, b }),
    {
        Rgb { r, g, b }
    }
}

/// The colour that `smart_leds::hsv::hsv2rgb` gives for a hue, a saturation
/// and a value, each on a scale of 0 to 255.
pub uninterp spec fn hsv_color(hue: u8, sat: u8, val: u8) -> Rgb;

/// `smart_leds::hsv::hsv2rgb`: a function of its three arguments alone, which
/// computes in 16-bit arithmetic that cannot overflow.
#[verifier::external_body]
pub(crate) fn hsv_to_rgb(hue: u8, sat: u8, val: u8) -> (c: Rgb)
    ensures
        c == hsv_color(hue, sat, val),
{
    let c = smart_leds::hsv::hsv2rgb(smart_leds::hsv::Hsv { hue, sat, val });
    Rgb { r: c.r, g: c.g, b: c.b }
}

/// What `smart_leds::gamma` makes of one channel of a pixel: an entry of its
/// table of 256 values.
pub uninterp spec fn gamma_value(v: u8) -> u8;

/// A pixel after gamma correction.
pub open spec fn gamma_pixel(p: Rgb) -> Rgb {
    Rgb { r: gamma_value(p.r), g: gamma_value(p.g), b: gamma_value(p.b) }
}

/// A frame after gamma correction.
pub open spec fn gamma_corrected(pixels: Seq<Rgb>) -> Seq<Rgb> {
    Seq::new(pixels.len(), |i: int| gamma_pixel(pixels[i]))
}

/// `smart_leds::gamma`: maps each channel of each pixel through one table,
/// and keeps the number and the order of the pixels.
#[verifier::external_body]
pub(crate) fn gamma_frame(pixels: &[Rgb]) -> (out: Vec<Rgb>)
    ensures
        out@.len() == pixels@.len(),
        forall|i: int|
            0 <= i < pixels@.len() ==> {
                &&& (#[trigger] out@[i]).r == gamma_value(pixels@[i].r)
                &&& out@[i].g == gamma_value(pixels@[i].g)
                &&& out@[i].b == gamma_value(pixels@[i].b)
            },
{
    smart_leds::gamma(pixels.iter().map(|p| smart_leds::RGB8 { r: p.r, g: p.g, b: p.b }))
        .map(|c| Rgb { r: c.r, g: c.g, b: c.b })
        .collect()
}

/// A channel scaled to brightness `level`: `v * (level + 1) / 256`.
pub open spec fn dimmed_value(v: u8, level: u8) -> u8 {
    (v as int * (level as int + 1) / 256) as u8
}

/// A pixel scaled to brightness `level`.
pub open spec fn dimmed_pixel(p: Rgb, level: u8) -> Rgb {
    Rgb { r: dimmed_value(p.r, level), g: dimmed_value(p.g, level), b: dimmed_value(p.b, level) }
}

/// A frame scaled to brightness `level`.
pub open spec fn dimmed(pixels: Seq<Rgb>, level: u8) -> Seq<Rgb> {
    Seq::new(pixels.len(), |i: int| dimmed_pixel(pixels[i], level))
}

/// `smart_leds::brightness`: scales each channel of each pixel by
/// `(level + 1) / 256`, rounding down, and keeps the number and the order of
/// the pixels.
#[verifier::external_body]
pub(crate) fn brightness_frame(pixels: &[Rgb], level: u8) -> (out: Vec<Rgb>)
    ensures
        out@ == dimmed(pixels@, level),
{
    smart_leds::brightness(
        pixels.iter().map(|p| smart_leds::RGB8 { r: p.r, g: p.g, b: p.b }),
        level,
    )
        .map(|c| Rgb { r: c.r, g: c.g, b: c.b })
        .collect()
}

} // verus!
