use vstd::prelude::*;

verus! {

/// Lowest stored brightness shift, in thousandths (-1.0).
pub const BRIGHTNESS_MIN_MILLI: i32 = -1000;

/// Highest stored brightness shift, in thousandths (1.0).
pub const BRIGHTNESS_MAX_MILLI: i32 = 1000;

/// Lowest stored contrast factor, in thousandths (0.1).
pub const CONTRAST_MIN_MILLI: i32 = 100;

/// Highest stored contrast factor, in thousandths (3.0).
pub const CONTRAST_MAX_MILLI: i32 = 3000;

/// Tone and ramp settings read by the frame transform.
///
/// Brightness and contrast are exact fixed-point values in thousandths: a
/// brightness of `250` stands for an additive shift of 0.25 of the full byte
/// range, a contrast of `1000` for the neutral factor 1.0.
#[derive(Clone, Copy, Debug, PartialEq, Eq, Structural)]
pub struct Config {
    /// Additive tone shift in thousandths, kept within [-1000, 1000].
    pub brightness_milli: i32,
    /// Multiplicative scaling around mid-gray in thousandths, kept within
    /// [100, 3000].
    pub contrast_milli: i32,
    /// Select the detailed 70-symbol ramp instead of the simple 10-symbol one.
    pub use_detailed_ramp: bool,
    /// Reflect the adjusted luminance (value -> 255 - value) before ramp
    /// lookup.
    pub invert: bool,
}

/// Clamp `v` into the inclusive range [`lo`, `hi`].
pub open spec fn clamped(v: int, lo: int, hi: int) -> int {
    if v < lo {
        lo
    } else if v > hi {
        hi
    } else {
        v
    }
}

impl Config {
    /// Both tone settings lie within their documented ranges.
    pub open spec fn wf(self) -> bool {
        &&& BRIGHTNESS_MIN_MILLI <= self.brightness_milli <= BRIGHTNESS_MAX_MILLI
        &&& CONTRAST_MIN_MILLI <= self.contrast_milli <= CONTRAST_MAX_MILLI
    }

    /// The documented defaults: no shift, neutral contrast, detailed ramp,
    /// no inversion.
    pub open spec fn default_spec() -> Config {
        Config {
            brightness_milli: 0,
            contrast_milli: 1000,
            use_detailed_ramp: true,
            invert: false,
        }
    }
}

impl Default for Config {
    /// Build the default configuration.
    fn default() -> (c: Config)
        ensures
            c == Config::default_spec(),
            c.wf(),
    {
        Config {
            brightness_milli: 0,
            contrast_milli: 1000,
            use_detailed_ramp: true,
            invert: false,
        }
    }
}

/// Clamp a requested setting into [`lo`, `hi`].
pub fn clamp_setting(v: i32, lo: i32, hi: i32) -> (r: i32)
    requires
        lo <= hi,
    ensures
        r == clamped(v as int, lo as int, hi as int),
{
    if v < lo {
        lo
    } else if v > hi {
        hi
    } else {
        v
    }
}

} // verus!
