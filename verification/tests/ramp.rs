use asciivision::ascii::gray_to_ascii;
use asciivision::processor::rgba_to_gray;

const DETAILED: &str = " .'`^\",:;Il!i><~+_-?][}{1)(|\\/tfjrxnuvczXYUJCLQ0OZmwqpdbkhao*#MW&8%B@$";
const SIMPLE: &str = " .:-=+*#%@";

fn position(ramp: &str, c: char) -> usize {
    ramp.chars().position(|x| x == c).expect("character not on the ramp")
}

#[test]
fn simple_ramp_endpoints() {
    assert_eq!(gray_to_ascii(0, false), ' ');
    assert_eq!(gray_to_ascii(255, false), '@');
}

#[test]
fn detailed_ramp_endpoints() {
    assert_eq!(gray_to_ascii(0, true), DETAILED.chars().next().unwrap());
    assert_eq!(gray_to_ascii(255, true), DETAILED.chars().last().unwrap());
    assert_eq!(gray_to_ascii(0, true), ' ');
    assert_eq!(gray_to_ascii(255, true), '$');
}

#[test]
fn detailed_ramp_monotonic_over_all_levels() {
    let mut last: usize = 0;
    for level in 0..=255u32 {
        let pos = position(DETAILED, gray_to_ascii(level as u8, true));
        assert!(pos >= last, "level {} fell back to position {}", level, pos);
        last = pos;
    }
    assert_eq!(last, 69);
}

#[test]
fn simple_ramp_monotonic_over_all_levels() {
    let mut last: usize = 0;
    for level in 0..=255u32 {
        let pos = position(SIMPLE, gray_to_ascii(level as u8, false));
        assert!(pos >= last, "level {} fell back to position {}", level, pos);
        last = pos;
    }
    assert_eq!(last, 9);
}

#[test]
fn detailed_ramp_matches_table() {
    let table: Vec<char> = DETAILED.chars().collect();
    for level in 0..=255usize {
        assert_eq!(gray_to_ascii(level as u8, true), table[level * 69 / 255]);
    }
}

#[test]
fn simple_ramp_matches_table() {
    let table: Vec<char> = SIMPLE.chars().collect();
    for level in 0..=255usize {
        assert_eq!(gray_to_ascii(level as u8, false), table[level * 9 / 255]);
    }
}

#[test]
fn ramp_index_uses_floor_division() {
    // 128 * 9 / 255 = 4.51..., truncated to position 4 ('=').
    assert_eq!(gray_to_ascii(128, false), '=');
    // 72 * 69 / 255 = 19.48..., truncated to position 19 ('?').
    assert_eq!(gray_to_ascii(72, true), '?');
}

#[test]
fn luminance_of_pure_channels() {
    // 0.299 * 255 = 76.245, 0.587 * 255 = 149.685, 0.114 * 255 = 29.07,
    // each truncated.
    assert_eq!(rgba_to_gray(255, 0, 0), 76);
    assert_eq!(rgba_to_gray(0, 255, 0), 149);
    assert_eq!(rgba_to_gray(0, 0, 255), 29);
}

#[test]
fn luminance_of_gray_pixels_is_exact() {
    for v in [0u8, 1, 17, 100, 127, 128, 200, 254, 255] {
        assert_eq!(rgba_to_gray(v, v, v), v);
    }
}

#[test]
fn luminance_of_mixed_color() {
    // (299*10 + 587*20 + 114*30) / 1000 = 18150 / 1000, truncated to 18.
    assert_eq!(rgba_to_gray(10, 20, 30), 18);
}
