use asciivision::config::Config;
use asciivision::processor::process_frame;
use asciivision::AsciiProcessor;

/// A solid RGBA buffer of `n` pixels, every channel set to `v`.
fn solid(n: usize, v: u8) -> Vec<u8> {
    vec![v; n * 4]
}

#[test]
fn blank_frame_from_empty_buffer() {
    let mut p = AsciiProcessor::new();
    let text = p.process_frame(&[], 4, 4, 3, 2);
    assert_eq!(text, "   \n   \n");
}

#[test]
fn blank_frame_keeps_row_structure_for_any_dimensions() {
    let mut p = AsciiProcessor::new();
    assert_eq!(p.process_frame(&[], 1, 1, 1, 1), " \n");
    assert_eq!(p.process_frame(&[], 640, 480, 5, 1), "     \n");
    assert_eq!(p.process_frame(&[], 7, 3, 1, 4), " \n \n \n \n");
}

#[test]
fn zero_output_dimensions_render_nothing_or_bare_newlines() {
    let mut p = AsciiProcessor::new();
    assert_eq!(p.process_frame(&solid(1, 0), 1, 1, 3, 0), "");
    assert_eq!(p.process_frame(&solid(1, 0), 1, 1, 0, 2), "\n\n");
}

#[test]
fn white_frame_renders_brightest_character() {
    let mut p = AsciiProcessor::new();
    let text = p.process_frame(&solid(4, 255), 2, 2, 2, 2);
    assert_eq!(text, "$$\n$$\n");
}

#[test]
fn black_frame_renders_darkest_character() {
    let mut p = AsciiProcessor::new();
    let text = p.process_frame(&solid(4, 0), 2, 2, 2, 2);
    assert_eq!(text, "  \n  \n");
}

#[test]
fn mirror_swaps_left_and_right() {
    // Source 2x1: left pixel black, right pixel white. The first output
    // character comes from the white (right) pixel, the second from the
    // black (left) one.
    let pixels: Vec<u8> = vec![0, 0, 0, 255, 255, 255, 255, 255];
    let mut p = AsciiProcessor::new();
    let text = p.process_frame(&pixels, 2, 1, 2, 1);
    assert_eq!(text, "$ \n");
}

#[test]
fn resampling_reads_every_second_column_mirrored() {
    // Source 4x1: columns black, black, white, black. With two output
    // columns the mapping samples source columns 2 (mirrored first) and 0.
    let mut pixels = vec![0u8; 16];
    for c in 8..11 {
        pixels[c] = 255;
    }
    let mut p = AsciiProcessor::new();
    let text = p.process_frame(&pixels, 4, 1, 2, 1);
    assert_eq!(text, "$ \n");
}

#[test]
fn short_buffer_degrades_only_missing_cells() {
    // Source said to be 2x1 but only the first pixel is present: the cell
    // sampling the missing right pixel degrades to a space, the other one
    // still renders.
    let pixels: Vec<u8> = vec![255, 255, 255, 255];
    let mut p = AsciiProcessor::new();
    let text = p.process_frame(&pixels, 2, 1, 2, 1);
    assert_eq!(text, " $\n");
}

#[test]
fn repeated_render_is_identical() {
    let pixels: Vec<u8> = vec![10, 200, 30, 255, 255, 0, 127, 255, 9, 9, 9, 0, 250, 1, 2, 3];
    let mut p = AsciiProcessor::new();
    let first = p.process_frame(&pixels, 2, 2, 3, 3);
    let second = p.process_frame(&pixels, 2, 2, 3, 3);
    assert_eq!(first, second);
}

#[test]
fn white_inverted_matches_black_plain() {
    let mut inverted = AsciiProcessor::new();
    inverted.set_invert(true);
    let on_white = inverted.process_frame(&solid(6, 255), 3, 2, 4, 3);
    let mut plain = AsciiProcessor::new();
    let on_black = plain.process_frame(&solid(6, 0), 3, 2, 4, 3);
    assert_eq!(on_white, on_black);
    assert_eq!(on_white, "    \n    \n    \n");
}

#[test]
fn free_function_fills_reusable_buffer() {
    let cfg = Config::default();
    let mut buffer: Vec<u8> = vec![b'x'; 3];
    process_frame(&cfg, &solid(1, 255), 1, 1, 2, 1, &mut buffer);
    assert_eq!(buffer, b"$$\n".to_vec());
    // The buffer is cleared first, so a second render from other leftovers
    // gives the same bytes.
    let mut other: Vec<u8> = Vec::new();
    process_frame(&cfg, &solid(1, 255), 1, 1, 2, 1, &mut other);
    assert_eq!(buffer, other);
}

#[test]
fn simple_ramp_render() {
    let mut p = AsciiProcessor::new();
    p.set_use_detailed_ramp(false);
    let text = p.process_frame(&solid(1, 255), 1, 1, 1, 1);
    assert_eq!(text, "@\n");
}

#[test]
fn contrast_scales_deviation_from_midgray() {
    // Gray 100 at contrast 2.0: (100 - 127.5) * 2 + 127.5 = 72.5, truncated
    // to 72, which lands on ramp position 72 * 69 / 255 = 19 ('?').
    let mut p = AsciiProcessor::new();
    p.set_contrast(2000);
    let text = p.process_frame(&solid(1, 100), 1, 1, 1, 1);
    assert_eq!(text, "?\n");
}

#[test]
fn brightness_shifts_by_half_range() {
    // Gray 100 at brightness 0.5: 100 + 127.5 = 227.5, truncated to 227,
    // ramp position 227 * 69 / 255 = 61 ('#').
    let mut p = AsciiProcessor::new();
    p.set_brightness(500);
    let text = p.process_frame(&solid(1, 100), 1, 1, 1, 1);
    assert_eq!(text, "#\n");
}

#[test]
fn inversion_reflects_adjusted_value() {
    // Gray 100 inverted becomes 155, ramp position 155 * 69 / 255 = 41 ('Y').
    let mut p = AsciiProcessor::new();
    p.set_invert(true);
    let text = p.process_frame(&solid(1, 100), 1, 1, 1, 1);
    assert_eq!(text, "Y\n");
}

#[test]
fn tone_clamps_to_byte_range() {
    // Gray 255 at brightness 1.0 stays the brightest character, gray 0 at
    // brightness -1.0 stays the darkest.
    let mut p = AsciiProcessor::new();
    p.set_brightness(1000);
    assert_eq!(p.process_frame(&solid(1, 255), 1, 1, 1, 1), "$\n");
    p.set_brightness(-1000);
    assert_eq!(p.process_frame(&solid(1, 0), 1, 1, 1, 1), " \n");
}
