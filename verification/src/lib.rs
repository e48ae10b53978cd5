//! Text-art rendering of raw bitmap frames.
//!
//! A frame of row-major RGBA bytes is resampled to an output grid with a
//! horizontal mirror, each sampled pixel is reduced to a luminance byte,
//! adjusted by the configured brightness and contrast, optionally inverted,
//! and mapped to a character of a fixed brightness ramp. Rows come out
//! newline-terminated in one reusable buffer.

use vstd::prelude::*;

pub mod ascii;
pub mod config;
pub mod processor;

verus! {

use crate::config::Config;
use crate::config::clamp_setting;
use crate::config::clamped;
use crate::config::BRIGHTNESS_MAX_MILLI;
use crate::config::BRIGHTNESS_MIN_MILLI;
use crate::config::CONTRAST_MAX_MILLI;
use crate::config::CONTRAST_MIN_MILLI;
use crate::processor::rendered_frame;

/// The characters of a sequence of ASCII bytes, one character per byte.
pub open spec fn ascii_chars(bytes: Seq<u8>) -> Seq<char> {
    Seq::new(bytes.len(), |i: int| bytes[i] as char)
}

/// Relies on `String::from_utf8`: bytes below 128 are valid UTF-8 and decode
/// to exactly one character per byte, so the call cannot fail on the admitted
/// inputs.
#[verifier::external_body]
fn ascii_bytes_to_string(bytes: &Vec<u8>) -> (text: String)
    requires
        forall|i: int| 0 <= i < bytes@.len() ==> bytes@[i] < 128,
    ensures
        text@ == ascii_chars(bytes@),
{
    String::from_utf8(bytes.clone()).unwrap_or_default()
}

/// A frame processor: the mutable tone configuration together with the text
/// buffer that successive renders reuse.
pub struct AsciiProcessor {
    /// Current tone and ramp settings, mutated between frames.
    pub config: Config,
    /// Rendered bytes of the most recent frame; cleared at the start of each
    /// render, so a render never depends on it.
    pub output_buffer: Vec<u8>,
}

impl AsciiProcessor {
    /// The configuration is within its documented ranges.
    pub open spec fn wf(self) -> bool {
        self.config.wf()
    }

    /// A processor with the default configuration and an empty buffer.
    pub fn new() -> (p: AsciiProcessor)
        ensures
            p.config == Config::default_spec(),
            p.output_buffer@ == Seq::<u8>::empty(),
            p.wf(),
    {
        AsciiProcessor { config: Config::default(), output_buffer: Vec::new() }
    }

    /// Render one RGBA frame as text and hand back a copy of it.
    ///
    /// The result is `out_height` rows of `out_width` characters, each row
    /// ending in a newline, fully determined by the configuration, the pixel
    /// bytes and the dimensions; the configuration is left untouched.
    pub fn process_frame(
        &mut self,
        pixels: &[u8],
        src_width: u32,
        src_height: u32,
        out_width: u32,
        out_height: u32,
    ) -> (text: String)
        requires
            old(self).wf(),
            src_width >= 1,
            src_height >= 1,
        ensures
            final(self).config == old(self).config,
            final(self).wf(),
            final(self).output_buffer@ == rendered_frame(
                old(self).config,
                pixels@,
                src_width as int,
                src_height as int,
                out_width as int,
                out_height as int,
            ),
            text@ == ascii_chars(
                rendered_frame(
                    old(self).config,
                    pixels@,
                    src_width as int,
                    src_height as int,
                    out_width as int,
                    out_height as int,
                ),
            ),
    {
        processor::process_frame(
            &self.config,
            pixels,
            src_width,
            src_height,
            out_width,
            out_height,
            &mut self.output_buffer,
        );
        proof {
            crate::processor::lemma_frame_bytes_ascii(
                self.config,
                pixels@,
                src_width as int,
                src_height as int,
                out_width as int,
                out_height as int,
            );
        }
        ascii_bytes_to_string(&self.output_buffer)
    }

    /// Store a brightness shift, clamped into [-1000, 1000] thousandths.
    pub fn set_brightness(&mut self, value_milli: i32)
        ensures
            final(self).config.brightness_milli == clamped(value_milli as int, -1000, 1000),
            final(self).config.contrast_milli == old(self).config.contrast_milli,
            final(self).config.use_detailed_ramp == old(self).config.use_detailed_ramp,
            final(self).config.invert == old(self).config.invert,
            final(self).output_buffer == old(self).output_buffer,
    {
        self.config.brightness_milli = clamp_setting(
            value_milli,
            BRIGHTNESS_MIN_MILLI,
            BRIGHTNESS_MAX_MILLI,
        );
    }

    /// The stored brightness shift in thousandths.
    pub fn get_brightness(&self) -> (v: i32)
        ensures
            v == self.config.brightness_milli,
    {
        self.config.brightness_milli
    }

    /// Store a contrast factor, clamped into [100, 3000] thousandths.
    pub fn set_contrast(&mut self, value_milli: i32)
        ensures
            final(self).config.contrast_milli == clamped(value_milli as int, 100, 3000),
            final(self).config.brightness_milli == old(self).config.brightness_milli,
            final(self).config.use_detailed_ramp == old(self).config.use_detailed_ramp,
            final(self).config.invert == old(self).config.invert,
            final(self).output_buffer == old(self).output_buffer,
    {
        self.config.contrast_milli = clamp_setting(
            value_milli,
            CONTRAST_MIN_MILLI,
            CONTRAST_MAX_MILLI,
        );
    }

    /// The stored contrast factor in thousandths.
    pub fn get_contrast(&self) -> (v: i32)
        ensures
            v == self.config.contrast_milli,
    {
        self.config.contrast_milli
    }

    /// Choose between the detailed and the simple ramp.
    pub fn set_use_detailed_ramp(&mut self, value: bool)
        ensures
            final(self).config.use_detailed_ramp == value,
            final(self).config.brightness_milli == old(self).config.brightness_milli,
            final(self).config.contrast_milli == old(self).config.contrast_milli,
            final(self).config.invert == old(self).config.invert,
            final(self).output_buffer == old(self).output_buffer,
    {
        self.config.use_detailed_ramp = value;
    }

    /// Switch to the other ramp.
    pub fn toggle_ramp(&mut self)
        ensures
            final(self).config.use_detailed_ramp == !old(self).config.use_detailed_ramp,
            final(self).config.brightness_milli == old(self).config.brightness_milli,
            final(self).config.contrast_milli == old(self).config.contrast_milli,
            final(self).config.invert == old(self).config.invert,
            final(self).output_buffer == old(self).output_buffer,
    {
        self.config.use_detailed_ramp = !self.config.use_detailed_ramp;
    }

    /// Turn inversion on or off.
    pub fn set_invert(&mut self, value: bool)
        ensures
            final(self).config.invert == value,
            final(self).config.brightness_milli == old(self).config.brightness_milli,
            final(self).config.contrast_milli == old(self).config.contrast_milli,
            final(self).config.use_detailed_ramp == old(self).config.use_detailed_ramp,
            final(self).output_buffer == old(self).output_buffer,
    {
        self.config.invert = value;
    }

    /// Flip the inversion setting.
    pub fn toggle_invert(&mut self)
        ensures
            final(self).config.invert == !old(self).config.invert,
            final(self).config.brightness_milli == old(self).config.brightness_milli,
            final(self).config.contrast_milli == old(self).config.contrast_milli,
            final(self).config.use_detailed_ramp == old(self).config.use_detailed_ramp,
            final(self).output_buffer == old(self).output_buffer,
    {
        self.config.invert = !self.config.invert;
    }

    /// Restore the default configuration; the buffer is kept for reuse.
    pub fn reset(&mut self)
        ensures
            final(self).config == Config::default_spec(),
            final(self).output_buffer == old(self).output_buffer,
            final(self).wf(),
    {
        self.config = Config::default();
    }
}

impl Default for AsciiProcessor {
    /// Same as `AsciiProcessor::new`.
    fn default() -> (p: AsciiProcessor)
        ensures
            p.config == Config::default_spec(),
            p.output_buffer@ == Seq::<u8>::empty(),
            p.wf(),
    {
        AsciiProcessor::new()
    }
}

} // verus!
