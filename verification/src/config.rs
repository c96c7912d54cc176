//! The render configuration: image size, iteration ceiling, viewport bounds
//! and output destination, validated once and read-only afterwards.

use vstd::prelude::*;

verus! {

/// Default image width in pixels.
pub const DEFAULT_WIDTH: u32 = 800;

/// Default image height in pixels.
pub const DEFAULT_HEIGHT: u32 = 600;

/// Default iteration ceiling.
pub const DEFAULT_MAX_DEPTH: u64 = 100;

/// A finished render configuration.
///
/// The viewport bounds are real numbers, which this library does not operate
/// on: each bound rides along as the bit pattern of an IEEE-754 double, and
/// only the unverified rim that maps pixels to complex coordinates reads it.
/// That the viewport is non-degenerate and non-mirrored (`re_start < re_end`,
/// `im_start < im_end` as real numbers) is therefore the constructing
/// caller's obligation; the bounds checked here are the integer ones.
#[derive(Clone)]
pub struct RenderConfig {
    /// Image width in pixels; at least one.
    pub width: u32,
    /// Image height in pixels; at least one.
    pub height: u32,
    /// Iteration ceiling of the escape-time loop; at least one.
    pub max_depth: u64,
    /// Bit pattern of the lower real-axis viewport bound.
    pub re_start: u64,
    /// Bit pattern of the upper real-axis viewport bound.
    pub re_end: u64,
    /// Bit pattern of the lower imaginary-axis viewport bound.
    pub im_start: u64,
    /// Bit pattern of the upper imaginary-axis viewport bound.
    pub im_end: u64,
    /// Destination the finished image is saved to.
    pub output: String,
}

impl RenderConfig {
    /// The integer invariants of a usable configuration: positive image
    /// dimensions whose product fits a `usize`, and a positive ceiling.
    pub open spec fn wf(&self) -> bool {
        &&& 1 <= self.width
        &&& 1 <= self.height
        &&& 1 <= self.max_depth
        &&& self.width as int * self.height as int <= usize::MAX as int
    }

    /// Validates and assembles a configuration; `None` exactly when a
    /// dimension or the ceiling is zero or the pixel count does not fit.
    pub fn new(
        width: u32,
        height: u32,
        max_depth: u64,
        re_start: u64,
        re_end: u64,
        im_start: u64,
        im_end: u64,
        output: String,
    ) -> (r: Option<RenderConfig>)
        ensures
            r is Some <==> (1 <= width && 1 <= height && 1 <= max_depth
                && width as int * height as int <= usize::MAX as int),
            r is Some ==> {
                let c = r->Some_0;
                &&& c.wf()
                &&& c.width == width
                &&& c.height == height
                &&& c.max_depth == max_depth
                &&& c.re_start == re_start
                &&& c.re_end == re_end
                &&& c.im_start == im_start
                &&& c.im_end == im_end
            },
    {
        if width < 1 || height < 1 || max_depth < 1 {
            return None;
        }
        if (width as usize).checked_mul(height as usize).is_none() {
            return None;
        }
        Some(RenderConfig { width, height, max_depth, re_start, re_end, im_start, im_end, output })
    }
}

} // verus!
