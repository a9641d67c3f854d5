//! Colors, and the trusted bridge to the color-math crate.
//!
//! The library's own color value is a plain RGB triple. The two
//! hue-to-RGB conversions (the visually balanced "rainbow" and the
//! mathematical "spectrum") are done by the cichlid crate; each result is
//! a pure function of the hue/saturation/value triple, named here by an
//! uninterpreted spec function so contracts can speak of it exactly.
use vstd::prelude::*;

verus! {

/// One LED's color.
#[derive(Copy, Clone, Debug, PartialEq, Eq, Structural)]
pub struct Rgb {
    pub r: u8,
    pub g: u8,
    pub b: u8,
}

impl Rgb {
    pub fn new(r: u8, g: u8, b: u8) -> (c: Rgb)
        ensures
            c == (Rgb { r, g, b }),
    {
        Rgb { r, g, b }
    }

    /// All channels off.
    pub fn black() -> (c: Rgb)
        ensures
            c == (Rgb { r: 0, g: 0, b: 0 }),
    {
        Rgb { r: 0, g: 0, b: 0 }
    }
}

/// Packs a channel triple into an `Rgb`.
pub open spec fn spec_rgb_of(t: (u8, u8, u8)) -> Rgb {
    Rgb { r: t.0, g: t.1, b: t.2 }
}

/// What cichlid's visually balanced rainbow conversion returns for a
/// hue/saturation/value triple; a pure function of its arguments.
pub uninterp spec fn rainbow_rgb_of(h: u8, s: u8, v: u8) -> (u8, u8, u8);

/// What cichlid's mathematical spectrum conversion returns for a
/// hue/saturation/value triple; a pure function of its arguments.
pub uninterp spec fn spectrum_rgb_of(h: u8, s: u8, v: u8) -> (u8, u8, u8);

/// Relies on cichlid::HSV::to_rgb_rainbow: converts hue, saturation and
/// value to RGB over a visually balanced rainbow.
#[verifier::external_body]
pub(crate) fn hsv_to_rgb_rainbow(h: u8, s: u8, v: u8) -> (c: Rgb)
    ensures
        c == spec_rgb_of(rainbow_rgb_of(h, s, v)),
{
    let converted = cichlid::HSV::new(h, s, v).to_rgb_rainbow();
    Rgb { r: converted.r, g: converted.g, b: converted.b }
}

/// Relies on cichlid::HSV::to_rgb_spectrum: converts hue, saturation and
/// value to RGB over a traditional mathematical rainbow.
#[verifier::external_body]
pub(crate) fn hsv_to_rgb_spectrum(h: u8, s: u8, v: u8) -> (c: Rgb)
    ensures
        c == spec_rgb_of(spectrum_rgb_of(h, s, v)),
{
    let converted = cichlid::HSV::new(h, s, v).to_rgb_spectrum();
    Rgb { r: converted.r, g: converted.g, b: converted.b }
}

} // verus!
