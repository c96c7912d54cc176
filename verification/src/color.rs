//! Color selection: from the outcome of the escape-time loop to the HSV
//! triple that the image encoder converts to RGB.

use vstd::prelude::*;

verus! {

/// Number of hue degrees; hues live in `[0, MAX_HSV_HUE)`.
pub const MAX_HSV_HUE: u16 = 360;

/// Full saturation, in percent.
pub const MAX_HSV_SATURATION: u8 = 100;

/// Full value (brightness), in percent.
pub const MAX_HSV_VALUE: u8 = 100;

/// An HSV color: hue in degrees, saturation and value in percent.
#[derive(Clone, Copy, Debug, PartialEq, Eq, Structural)]
pub struct Hsv {
    /// Hue in degrees, always below [`MAX_HSV_HUE`].
    pub hue: u16,
    /// Saturation in percent.
    pub saturation: u8,
    /// Value (brightness) in percent.
    pub value: u8,
}

impl Hsv {
    /// A representable color: a hue on the circle and channels that are
    /// percentages. This is the domain the HSV-to-RGB conversion of the
    /// image encoder is defined on.
    pub open spec fn wf(&self) -> bool {
        &&& self.hue < MAX_HSV_HUE
        &&& self.saturation <= MAX_HSV_SATURATION
        &&& self.value <= MAX_HSV_VALUE
    }
}

/// The color a pixel gets: full saturation; full value for a point that
/// escaped, value zero (black) for a point that stayed within budget; the hue
/// wrapped into `[0, MAX_HSV_HUE)`.
pub open spec fn spec_to_hsv(escaped: bool, hue: u16) -> Hsv {
    Hsv {
        hue: (hue % MAX_HSV_HUE) as u16,
        saturation: MAX_HSV_SATURATION,
        value: if escaped { MAX_HSV_VALUE } else { 0 },
    }
}

/// Selects the HSV color of one pixel.
///
/// `escaped` reports whether the pixel's escape measurement stayed below the
/// iteration ceiling; `hue` is the measurement's share of the ceiling scaled
/// to hue degrees, as the caller computed it. A hue at or above
/// [`MAX_HSV_HUE`] (possible when the smoothed measurement slightly exceeds
/// the ceiling) is wrapped around the hue circle, so the result always
/// carries a representable hue. A pixel that did not escape is black: value
/// zero, whatever hue and saturation say.
pub fn to_hsv(escaped: bool, hue: u16) -> (c: Hsv)
    ensures
        c == spec_to_hsv(escaped, hue),
        c.wf(),
        c.hue < MAX_HSV_HUE,
        c.hue == hue % MAX_HSV_HUE,
        c.saturation == MAX_HSV_SATURATION,
        escaped ==> c.value == MAX_HSV_VALUE,
        !escaped ==> c.value == 0,
{
    Hsv {
        hue: hue % MAX_HSV_HUE,
        saturation: MAX_HSV_SATURATION,
        value: if escaped { MAX_HSV_VALUE } else { 0 },
    }
}

} // verus!
