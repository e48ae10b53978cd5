use asciivision::AsciiProcessor;

#[test]
fn defaults() {
    let p = AsciiProcessor::default();
    assert_eq!(p.get_brightness(), 0);
    assert_eq!(p.get_contrast(), 1000);
}

#[test]
fn contrast_clamps_high_and_low() {
    let mut p = AsciiProcessor::new();
    p.set_contrast(10_000);
    assert_eq!(p.get_contrast(), 3000);
    p.set_contrast(-5_000);
    assert_eq!(p.get_contrast(), 100);
    p.set_contrast(1500);
    assert_eq!(p.get_contrast(), 1500);
}

#[test]
fn brightness_clamps_high_and_low() {
    let mut p = AsciiProcessor::new();
    p.set_brightness(2_000);
    assert_eq!(p.get_brightness(), 1000);
    p.set_brightness(-3_000);
    assert_eq!(p.get_brightness(), -1000);
    p.set_brightness(-250);
    assert_eq!(p.get_brightness(), -250);
}

#[test]
fn toggles_flip_back_and_forth() {
    let mut p = AsciiProcessor::new();
    // Default: detailed ramp, no inversion; white renders '$'.
    assert_eq!(p.process_frame(&[255, 255, 255, 255], 1, 1, 1, 1), "$\n");
    p.toggle_ramp();
    assert_eq!(p.process_frame(&[255, 255, 255, 255], 1, 1, 1, 1), "@\n");
    p.toggle_ramp();
    assert_eq!(p.process_frame(&[255, 255, 255, 255], 1, 1, 1, 1), "$\n");
    p.toggle_invert();
    assert_eq!(p.process_frame(&[255, 255, 255, 255], 1, 1, 1, 1), " \n");
    p.toggle_invert();
    assert_eq!(p.process_frame(&[255, 255, 255, 255], 1, 1, 1, 1), "$\n");
}

#[test]
fn reset_restores_defaults() {
    let mut p = AsciiProcessor::new();
    p.set_brightness(700);
    p.set_contrast(2500);
    p.set_use_detailed_ramp(false);
    p.set_invert(true);
    p.reset();
    assert_eq!(p.get_brightness(), 0);
    assert_eq!(p.get_contrast(), 1000);
    assert_eq!(p.process_frame(&[255, 255, 255, 255], 1, 1, 1, 1), "$\n");
}
