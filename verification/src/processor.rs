use crate::ascii::ramp_byte;
use crate::ascii::ramp_byte_spec;
use crate::config::Config;
use vstd::arithmetic::div_mod::lemma_div_is_ordered;
use vstd::arithmetic::div_mod::lemma_div_pos_is_pos;
use vstd::arithmetic::div_mod::lemma_mod_bound;
use vstd::arithmetic::mul::lemma_mul_nonnegative;
use vstd::arithmetic::mul::lemma_mul_inequality;
use vstd::arithmetic::mul::lemma_mul_upper_bound;
use vstd::prelude::*;

verus! {

/// Perceptual luminance of a color sample, the exact value of
/// `0.299 * r + 0.587 * g + 0.114 * b` truncated to a whole number, always
/// within [0, 255].
pub open spec fn luminance(r: int, g: int, b: int) -> int {
    (299 * r + 587 * g + 114 * b) / 1000
}

/// Convert a color sample to its luminance byte with the standard perceptual
/// weighting `0.299 R + 0.587 G + 0.114 B`, truncated; alpha is ignored.
pub fn rgba_to_gray(r: u8, g: u8, b: u8) -> (gray: u8)
    ensures
        gray == luminance(r as int, g as int, b as int),
{
    let weighted: u32 = 299 * (r as u32) + 587 * (g as u32) + 114 * (b as u32);
    proof {
        lemma_div_is_ordered(weighted as int, 255000, 1000);
    }
    (weighted / 1000) as u8
}

/// Tone numerator: 2000 times the real-valued adjusted luminance
/// `(gray - 127.5) * (contrast_milli / 1000) + 127.5
///  + (brightness_milli / 1000) * 255`.
pub open spec fn tone_numerator(gray: int, brightness_milli: int, contrast_milli: int) -> int {
    (2 * gray - 255) * contrast_milli + 255000 + 510 * brightness_milli
}

/// Adjusted luminance: contrast scaled around mid-gray, then the brightness
/// shift, the sum clamped to [0, 255] and truncated to a whole number.
pub open spec fn adjusted_luminance(gray: int, brightness_milli: int, contrast_milli: int) -> int {
    let n = tone_numerator(gray, brightness_milli, contrast_milli);
    if n <= 0 {
        0
    } else if n >= 510000 {
        255
    } else {
        n / 2000
    }
}

/// Apply the contrast and brightness settings to a luminance byte, clamping
/// the adjusted value into the byte range.
pub fn apply_brightness_contrast(gray: u8, brightness_milli: i32, contrast_milli: i32) -> (v: u8)
    requires
        -1000 <= brightness_milli <= 1000,
        100 <= contrast_milli <= 3000,
    ensures
        v == adjusted_luminance(gray as int, brightness_milli as int, contrast_milli as int),
{
    let deviation: i64 = 2 * (gray as i64) - 255;
    assert(-765000 <= deviation * (contrast_milli as i64) <= 765000) by (nonlinear_arith)
        requires
            -255 <= deviation <= 255,
            100 <= contrast_milli <= 3000,
    ;
    let n: i64 = deviation * (contrast_milli as i64) + 255000 + 510 * (brightness_milli as i64);
    if n <= 0 {
        0
    } else if n >= 510000 {
        255
    } else {
        proof {
            lemma_div_is_ordered(n as int, 509999, 2000);
        }
        ((n as u64) / 2000) as u8
    }
}

/// Source index sampled for an output position: the scaled coordinate
/// `pos * src_dim / out_dim` truncated, held below `src_dim`.
pub open spec fn source_coordinate(pos: int, src_dim: int, out_dim: int) -> int {
    let scaled = pos * src_dim / out_dim;
    if scaled > src_dim - 1 {
        src_dim - 1
    } else {
        scaled
    }
}

/// Nearest-neighbor-by-truncation resampling: the source row or column that
/// an output position reads, clamped to the valid index range.
pub fn source_coord(pos: u32, src_dim: u32, out_dim: u32) -> (s: u32)
    requires
        src_dim >= 1,
        out_dim >= 1,
    ensures
        s == source_coordinate(pos as int, src_dim as int, out_dim as int),
        s < src_dim,
{
    proof {
        lemma_mul_upper_bound(pos as int, 0xffff_ffff, src_dim as int, 0xffff_ffff);
    }
    let scaled: u64 = (pos as u64) * (src_dim as u64) / (out_dim as u64);
    if scaled > (src_dim - 1) as u64 {
        src_dim - 1
    } else {
        scaled as u32
    }
}

/// Byte rendered for the output cell at column `x`, row `y`: the mirrored,
/// resampled source pixel is read at its byte offset, converted to luminance,
/// tone-adjusted, optionally inverted and mapped through the ramp. A cell
/// whose sample would reach at or past the end of the pixel buffer degrades
/// to a space.
pub open spec fn cell_byte(
    cfg: Config,
    pixels: Seq<u8>,
    src_w: int,
    src_h: int,
    out_w: int,
    out_h: int,
    x: int,
    y: int,
) -> u8 {
    let sx = source_coordinate(out_w - 1 - x, src_w, out_w);
    let sy = source_coordinate(y, src_h, out_h);
    let off = sy * (src_w * 4) + sx * 4;
    if off + 2 >= pixels.len() {
        32
    } else {
        let gray = luminance(pixels[off] as int, pixels[off + 1] as int, pixels[off + 2] as int);
        let adj = adjusted_luminance(gray, cfg.brightness_milli as int, cfg.contrast_milli as int);
        let level = if cfg.invert {
            255 - adj
        } else {
            adj
        };
        ramp_byte_spec(level, cfg.use_detailed_ramp)
    }
}

/// Byte at position `i` of the rendered frame, which is `out_h` rows of
/// `out_w` cell bytes each followed by a newline.
pub open spec fn frame_byte(
    cfg: Config,
    pixels: Seq<u8>,
    src_w: int,
    src_h: int,
    out_w: int,
    out_h: int,
    i: int,
) -> u8 {
    let x = i % (out_w + 1);
    if x == out_w {
        10
    } else {
        cell_byte(cfg, pixels, src_w, src_h, out_w, out_h, x, i / (out_w + 1))
    }
}

/// The whole rendered frame: `out_h * (out_w + 1)` bytes, rows of cells each
/// terminated by a newline.
pub open spec fn rendered_frame(
    cfg: Config,
    pixels: Seq<u8>,
    src_w: int,
    src_h: int,
    out_w: int,
    out_h: int,
) -> Seq<u8> {
    Seq::new(
        (out_h * (out_w + 1)) as nat,
        |i: int| frame_byte(cfg, pixels, src_w, src_h, out_w, out_h, i),
    )
}

/// Render one frame of text art into `output`.
///
/// The buffer is cleared first, so the result depends only on the
/// configuration, the pixel bytes and the dimensions: `out_height` rows of
/// `out_width` characters, each row ending in a newline. Every cell samples
/// one source pixel through the mirrored nearest-neighbor mapping; cells
/// whose sample lies beyond the pixel buffer come out as spaces.
#[verifier::loop_isolation(false)]
pub fn process_frame(
    config: &Config,
    pixels: &[u8],
    src_width: u32,
    src_height: u32,
    out_width: u32,
    out_height: u32,
    output: &mut Vec<u8>,
)
    requires
        config.wf(),
        src_width >= 1,
        src_height >= 1,
    ensures
        final(output)@ == rendered_frame(
            *config,
            pixels@,
            src_width as int,
            src_height as int,
            out_width as int,
            out_height as int,
        ),
{
    let ghost sw: int = src_width as int;
    let ghost sh: int = src_height as int;
    let ghost ow: int = out_width as int;
    let ghost oh: int = out_height as int;
    output.clear();
    let mut y: u32 = 0;
    while y < out_height
        invariant
            y <= out_height,
            output@.len() == y * (ow + 1),
            forall|i: int|
                0 <= i < output@.len() ==> output@[i] == frame_byte(*config, pixels@, sw, sh, ow, oh, i),
        decreases out_height - y,
    {
        let mut x: u32 = 0;
        while x < out_width
            invariant
                x <= out_width,
                y < out_height,
                output@.len() == y * (ow + 1) + x,
                forall|i: int|
                    0 <= i < output@.len() ==> output@[i] == frame_byte(*config, pixels@, sw, sh, ow, oh, i),
            decreases out_width - x,
        {
            let sx = source_coord(out_width - 1 - x, src_width, out_width);
            let sy = source_coord(y, src_height, out_height);
            proof {
                lemma_mul_upper_bound(sy as int, 0xffff_ffff, sw * 4, 0x3_ffff_fffc);
            }
            let off: u128 = (sy as u128) * ((src_width as u128) * 4) + (sx as u128) * 4;
            let byte: u8 = if off + 2 >= (pixels.len() as u128) {
                32
            } else {
                let o = off as usize;
                let gray = rgba_to_gray(pixels[o], pixels[o + 1], pixels[o + 2]);
                let adj = apply_brightness_contrast(
                    gray,
                    config.brightness_milli,
                    config.contrast_milli,
                );
                let level: u8 = if config.invert {
                    255 - adj
                } else {
                    adj
                };
                ramp_byte(level, config.use_detailed_ramp)
            };
            proof {
                vstd::arithmetic::div_mod::lemma_fundamental_div_mod_converse(
                    y * (ow + 1) + x,
                    ow + 1,
                    y as int,
                    x as int,
                );
                assert(byte == frame_byte(*config, pixels@, sw, sh, ow, oh, y * (ow + 1) + x));
            }
            output.push(byte);
            x += 1;
        }
        proof {
            vstd::arithmetic::div_mod::lemma_fundamental_div_mod_converse(
                y * (ow + 1) + ow,
                ow + 1,
                y as int,
                ow,
            );
        }
        output.push(10);
        proof {
            assert((y + 1) * (ow + 1) == y * (ow + 1) + (ow + 1)) by (nonlinear_arith);
        }
        y += 1;
    }
    proof {
        assert(output@ =~= rendered_frame(*config, pixels@, sw, sh, ow, oh));
    }
}

/// Every byte of a rendered frame is ASCII: a newline, a space, or a byte of
/// one of the two printable ramps.
pub proof fn lemma_frame_bytes_ascii(
    cfg: Config,
    pixels: Seq<u8>,
    src_w: int,
    src_h: int,
    out_w: int,
    out_h: int,
)
    ensures
        forall|i: int|
            0 <= i < rendered_frame(cfg, pixels, src_w, src_h, out_w, out_h).len()
                ==> #[trigger] rendered_frame(cfg, pixels, src_w, src_h, out_w, out_h)[i] < 128,
{
    crate::ascii::lemma_ramp_bytes_ascii();
}

/// The frame a degraded render produces: rows of spaces, each row closed by a
/// newline.
pub open spec fn blank_frame(out_w: int, out_h: int) -> Seq<u8> {
    Seq::new(
        (out_h * (out_w + 1)) as nat,
        |i: int|
            if i % (out_w + 1) == out_w {
                10u8
            } else {
                32u8
            },
    )
}

/// Both sampled coordinates, and with them the sampled byte offset, are
/// non-negative for any cell of the output grid.
proof fn lemma_cell_offset_nonneg(src_w: int, src_h: int, out_w: int, out_h: int, x: int, y: int)
    requires
        src_w >= 1,
        src_h >= 1,
        out_h >= 1,
        0 <= x < out_w,
        0 <= y,
    ensures
        source_coordinate(out_w - 1 - x, src_w, out_w) >= 0,
        source_coordinate(y, src_h, out_h) >= 0,
        source_coordinate(y, src_h, out_h) * (src_w * 4) + source_coordinate(
            out_w - 1 - x,
            src_w,
            out_w,
        ) * 4 >= 0,
{
    lemma_mul_nonnegative(out_w - 1 - x, src_w);
    lemma_div_pos_is_pos((out_w - 1 - x) * src_w, out_w);
    lemma_mul_nonnegative(y, src_h);
    lemma_div_pos_is_pos(y * src_h, out_h);
    lemma_mul_nonnegative(source_coordinate(y, src_h, out_h), src_w * 4);
}

/// A pixel buffer truncated to nothing degrades gracefully: every cell of the
/// rendered frame is a space, and the row structure is kept.
pub proof fn lemma_empty_buffer_renders_blank(
    cfg: Config,
    src_w: int,
    src_h: int,
    out_w: int,
    out_h: int,
)
    requires
        src_w >= 1,
        src_h >= 1,
        out_w >= 0,
        out_h >= 0,
    ensures
        rendered_frame(cfg, Seq::<u8>::empty(), src_w, src_h, out_w, out_h) == blank_frame(
            out_w,
            out_h,
        ),
{
    let rendered = rendered_frame(cfg, Seq::<u8>::empty(), src_w, src_h, out_w, out_h);
    let blank = blank_frame(out_w, out_h);
    lemma_mul_nonnegative(out_h, out_w + 1);
    assert forall|i: int| 0 <= i < rendered.len() implies rendered[i] == blank[i] by {
        let step = out_w + 1;
        lemma_mod_bound(i, step);
        let x = i % step;
        if x != out_w {
            lemma_div_pos_is_pos(i, step);
            assert(out_h >= 1) by (nonlinear_arith)
                requires
                    0 <= i < out_h * (out_w + 1),
                    out_w + 1 >= 1,
            ;
            lemma_cell_offset_nonneg(src_w, src_h, out_w, out_h, x, i / step);
        }
    }
    assert(rendered =~= blank);
}

/// Inverting a fully white frame renders exactly what a fully black frame
/// renders without inversion, under the default tone settings and the
/// detailed ramp: both come out as the darkest character everywhere.
pub proof fn lemma_white_inverted_matches_black(
    white: Seq<u8>,
    black: Seq<u8>,
    src_w: int,
    src_h: int,
    out_w: int,
    out_h: int,
)
    requires
        src_w >= 1,
        src_h >= 1,
        out_w >= 0,
        out_h >= 0,
        forall|i: int| 0 <= i < white.len() ==> white[i] == 255,
        forall|i: int| 0 <= i < black.len() ==> black[i] == 0,
    ensures
        rendered_frame(
            (Config { brightness_milli: 0, contrast_milli: 1000, use_detailed_ramp: true, invert: true }),
            white,
            src_w,
            src_h,
            out_w,
            out_h,
        ) == rendered_frame(Config::default_spec(), black, src_w, src_h, out_w, out_h),
{
    let inverted = Config { brightness_milli: 0, contrast_milli: 1000, use_detailed_ramp: true, invert: true };
    let on_white = rendered_frame(inverted, white, src_w, src_h, out_w, out_h);
    let on_black = rendered_frame(Config::default_spec(), black, src_w, src_h, out_w, out_h);
    lemma_mul_nonnegative(out_h, out_w + 1);
    assert forall|i: int| 0 <= i < on_white.len() implies on_white[i] == on_black[i] by {
        let step = out_w + 1;
        lemma_mod_bound(i, step);
        let x = i % step;
        if x != out_w {
            lemma_div_pos_is_pos(i, step);
            assert(out_h >= 1) by (nonlinear_arith)
                requires
                    0 <= i < out_h * (out_w + 1),
                    out_w + 1 >= 1,
            ;
            lemma_cell_offset_nonneg(src_w, src_h, out_w, out_h, x, i / step);
            let sx = source_coordinate(out_w - 1 - x, src_w, out_w);
            let sy = source_coordinate(i / step, src_h, out_h);
            let off = sy * (src_w * 4) + sx * 4;
            if off + 2 < white.len() {
                // A white sample adjusts to full brightness, which inversion
                // sends back to level 0.
                assert(white[off] == 255 && white[off + 1] == 255 && white[off + 2] == 255);
                assert(adjusted_luminance(luminance(255, 255, 255), 0, 1000) == 255);
            }
            if off + 2 < black.len() {
                // A black sample stays at level 0 without inversion.
                assert(black[off] == 0 && black[off + 1] == 0 && black[off + 2] == 0);
                assert(adjusted_luminance(luminance(0, 0, 0), 0, 1000) == 0);
            }
            assert(ramp_byte_spec(0, true) == 32);
            assert(cell_byte(inverted, white, src_w, src_h, out_w, out_h, x, i / step) == 32);
            assert(cell_byte(
                Config::default_spec(),
                black,
                src_w,
                src_h,
                out_w,
                out_h,
                x,
                i / step,
            ) == 32);
        }
    }
    assert(on_white =~= on_black);
}

/// The resize mapping mirrors the image horizontally: when the output grid
/// matches the source grid, the cell at column `x` samples source column
/// `src_w - 1 - x` of its own row — an exact horizontal flip.
pub proof fn lemma_identity_scale_mirrors_columns(src_w: int, src_h: int, x: int, y: int)
    requires
        src_w >= 1,
        src_h >= 1,
        0 <= x < src_w,
        0 <= y < src_h,
    ensures
        source_coordinate(src_w - 1 - x, src_w, src_w) == src_w - 1 - x,
        source_coordinate(y, src_h, src_h) == y,
{
    vstd::arithmetic::div_mod::lemma_div_by_multiple(src_w - 1 - x, src_w);
    vstd::arithmetic::div_mod::lemma_div_by_multiple(y, src_h);
}

/// Rendering is deterministic: two renders of the same configuration, pixel
/// bytes and dimensions are byte for byte the same, whatever either output
/// buffer held before.
pub proof fn lemma_render_deterministic(
    cfg: Config,
    pixels: Seq<u8>,
    src_w: int,
    src_h: int,
    out_w: int,
    out_h: int,
    first: Seq<u8>,
    second: Seq<u8>,
)
    requires
        first == rendered_frame(cfg, pixels, src_w, src_h, out_w, out_h),
        second == rendered_frame(cfg, pixels, src_w, src_h, out_w, out_h),
    ensures
        first == second,
{
}

/// The rendered frame has `out_h` rows: its length is `out_h * (out_w + 1)`
/// and the byte after each row of `out_w` cells is a newline.
pub proof fn lemma_frame_shape(
    cfg: Config,
    pixels: Seq<u8>,
    src_w: int,
    src_h: int,
    out_w: int,
    out_h: int,
)
    requires
        out_w >= 0,
        out_h >= 0,
    ensures
        rendered_frame(cfg, pixels, src_w, src_h, out_w, out_h).len() == out_h * (out_w + 1),
        forall|y: int|
            0 <= y < out_h ==> #[trigger] rendered_frame(cfg, pixels, src_w, src_h, out_w, out_h)[y
                * (out_w + 1) + out_w] == 10,
{
    let step = out_w + 1;
    lemma_mul_nonnegative(out_h, step);
    assert forall|y: int|
        0 <= y < out_h implies #[trigger] rendered_frame(cfg, pixels, src_w, src_h, out_w, out_h)[y
        * (out_w + 1) + out_w] == 10 by {
        lemma_mul_nonnegative(y, step);
        vstd::arithmetic::mul::lemma_mul_is_distributive_add_other_way(step, y, 1);
        lemma_mul_inequality(y + 1, out_h, step);
        vstd::arithmetic::div_mod::lemma_fundamental_div_mod_converse(
            y * step + out_w,
            step,
            y,
            out_w,
        );
    }
}

} // verus!
