use bubble_level::frame::{screen_writer, screen_zero, FrameBuffer};
use bubble_level::gate::{orientation_gate, AccelSample, Action};
use bubble_level::level::Level;
use bubble_level::mode::{select_mode, PrecisionMode};
use bubble_level::quantizer::{bucket, quantize, scale_of};

fn lit_count(fb: &FrameBuffer) -> usize {
    fb.iter().flatten().filter(|&&v| v != 0).count()
}

fn sample(x: i32, y: i32, z: i32) -> Option<AccelSample> {
    Some(AccelSample { x, y, z })
}

#[test]
fn mode_selection_is_sticky() {
    let mut mode = PrecisionMode::Coarse;
    let mut seen = Vec::new();
    for (a, b) in [(true, false), (true, true), (false, true), (false, false)] {
        mode = select_mode(mode, a, b);
        seen.push(mode);
    }
    assert_eq!(
        seen,
        vec![PrecisionMode::Coarse, PrecisionMode::Coarse, PrecisionMode::Fine, PrecisionMode::Fine]
    );
}

#[test]
fn mode_selection_through_ticks() {
    let mut level = Level::new();
    let mut seen = Vec::new();
    for (a, b) in [(true, false), (true, true), (false, true), (false, false)] {
        level.tick(a, b, None);
        seen.push(level.mode());
    }
    assert_eq!(
        seen,
        vec![PrecisionMode::Coarse, PrecisionMode::Coarse, PrecisionMode::Fine, PrecisionMode::Fine]
    );
}

#[test]
fn axis_inversion_in_coarse_mode() {
    assert_eq!(quantize(PrecisionMode::Coarse, -600, 0).1, 4);
    assert_eq!(quantize(PrecisionMode::Coarse, 600, 0).1, 0);
    assert_eq!(quantize(PrecisionMode::Coarse, 0, -600).0, 0);
    assert_eq!(quantize(PrecisionMode::Coarse, 0, 600).0, 4);
}

#[test]
fn fine_mode_scales_boundaries() {
    assert_eq!(quantize(PrecisionMode::Fine, 30, 0).1, 1);
    assert_eq!(quantize(PrecisionMode::Coarse, 30, 0).1, 2);
    assert_eq!(bucket(30, PrecisionMode::Fine, false), 3);
    assert_eq!(bucket(300, PrecisionMode::Coarse, false), 3);
}

#[test]
fn fine_mode_boundaries() {
    let cases = [(-50, 0), (-49, 1), (-25, 1), (-24, 2), (24, 2), (25, 3), (49, 3), (50, 4)];
    for (v, b) in cases {
        assert_eq!(bucket(v, PrecisionMode::Fine, false), b, "value {}", v);
        assert_eq!(bucket(v, PrecisionMode::Fine, true), 4 - b, "value {}", v);
    }
}

#[test]
fn coarse_boundaries_are_exact() {
    assert_eq!(quantize(PrecisionMode::Coarse, -250, 0).1, 3);
    assert_eq!(quantize(PrecisionMode::Coarse, -249, 0).1, 2);
    assert_eq!(quantize(PrecisionMode::Coarse, 250, 0).1, 1);
    assert_eq!(quantize(PrecisionMode::Coarse, 249, 0).1, 2);
    assert_eq!(quantize(PrecisionMode::Coarse, -500, 0).1, 4);
    assert_eq!(quantize(PrecisionMode::Coarse, -499, 0).1, 3);
    assert_eq!(quantize(PrecisionMode::Coarse, 499, 0).1, 1);
    assert_eq!(quantize(PrecisionMode::Coarse, 500, 0).1, 0);
}

#[test]
fn extreme_readings_stay_in_matrix() {
    for mode in [PrecisionMode::Coarse, PrecisionMode::Fine] {
        assert_eq!(quantize(mode, i32::MIN, i32::MIN), (0, 4));
        assert_eq!(quantize(mode, i32::MAX, i32::MAX), (4, 0));
        assert_eq!(quantize(mode, 0, 0), (2, 2));
    }
}

#[test]
fn scale_values() {
    assert_eq!(scale_of(PrecisionMode::Coarse), 1);
    assert_eq!(scale_of(PrecisionMode::Fine), 10);
}

#[test]
fn orientation_gate_decisions() {
    assert_eq!(orientation_gate(1), Action::Blank);
    assert_eq!(orientation_gate(0), Action::Render);
    assert_eq!(orientation_gate(-1), Action::Render);
}

#[test]
fn upside_down_tick_blanks_frame() {
    let mut level = Level::new();
    level.tick(false, false, sample(0, 0, -1));
    assert_eq!(lit_count(&level.frame()), 1);
    level.tick(false, false, sample(0, 0, 1));
    assert_eq!(level.frame(), [[0u8; 5]; 5]);
}

#[test]
fn right_side_up_ticks_light_one_cell() {
    for z in [0, -1] {
        let mut level = Level::new();
        level.tick(false, false, sample(-600, 600, z));
        let frame = level.frame();
        assert_eq!(lit_count(&frame), 1);
        assert_eq!(frame[4][4], 1);
    }
}

#[test]
fn render_clears_previous_cell() {
    let mut level = Level::new();
    level.tick(false, false, sample(600, -600, -1000));
    assert_eq!(level.frame()[0][0], 1);
    level.tick(false, false, sample(0, 0, -1000));
    let frame = level.frame();
    assert_eq!(frame[0][0], 0);
    assert_eq!(frame[2][2], 1);
    assert_eq!(lit_count(&frame), 1);
}

#[test]
fn tick_without_sample_keeps_frame() {
    let mut level = Level::new();
    level.tick(false, false, sample(300, 300, 0));
    let before = level.frame();
    level.tick(false, true, None);
    assert_eq!(level.frame(), before);
    assert_eq!(level.mode(), PrecisionMode::Fine);
}

#[test]
fn same_reading_gives_same_frame() {
    let mut first = Level::new();
    let mut second = Level::new();
    second.tick(false, false, sample(-700, 100, -5));
    for level in [&mut first, &mut second] {
        level.tick(false, true, sample(30, -30, -1));
    }
    assert_eq!(first.frame(), second.frame());
    assert_eq!(first.frame()[1][1], 1);
}

#[test]
fn new_level_is_blank_and_coarse() {
    let level = Level::new();
    assert_eq!(level.mode(), PrecisionMode::Coarse);
    assert_eq!(level.frame(), [[0u8; 5]; 5]);
}

#[test]
fn screen_zero_clears_every_cell() {
    let mut fb: FrameBuffer = [[1u8; 5]; 5];
    screen_zero(&mut fb);
    assert_eq!(fb, [[0u8; 5]; 5]);
}

#[test]
fn screen_writer_sets_one_cell_only() {
    let mut fb: FrameBuffer = [[0u8; 5]; 5];
    fb[0][0] = 1;
    screen_writer(&mut fb, 30, 60, PrecisionMode::Fine);
    assert_eq!(fb[4][1], 1);
    assert_eq!(fb[0][0], 1);
    assert_eq!(lit_count(&fb), 2);
}
