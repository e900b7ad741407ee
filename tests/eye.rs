use ascii_eye::animation::{
    fits, poll_timeout, too_small_message, Action, Animation, Phase, MIN_HEIGHT, MIN_WIDTH,
    TICK_RATE_NANOS,
};
use ascii_eye::brightness::{glyph_index, RAMP_LEN};
use ascii_eye::frame::{generate, Eye};

const RAMP: &str = " .:-=+*&#%@";

fn lines(frame: &str) -> Vec<&str> {
    frame.split('\n').collect()
}

#[test]
fn sample_cell_scenario() {
    // x_n = 1.0, t_n = 1 / 1.55: a = 0.45, j ~ 0.145, brightness 10.237...
    assert_eq!(glyph_index(1, 1, 3, 3, 10), 10);
    let f = generate(3, 3, 10);
    assert_eq!(f, "\n     \n   @ \n     \n  ");
    assert_eq!(f.chars().nth(3 + 6 + 1), Some('@'));
}

#[test]
fn small_grid_frame() {
    assert_eq!(
        generate(8, 4, 7),
        "\n          \n     **&  \n          \n          \n  "
    );
}

#[test]
fn exact_brightness_values() {
    assert_eq!(glyph_index(40, 10, 80, 24, 1000), 901 % 11);
    assert_eq!(glyph_index(37, 9, 74, 21, 123_456_789), 110_791_417 % 11);
    assert_eq!(glyph_index(50, 12, 100, 30, 77), 69 % 11);
    assert_eq!(glyph_index(40, 10, 80, 24, u64::MAX) < RAMP_LEN, true);
}

#[test]
fn frame_has_height_rows_of_width_ramp_glyphs() {
    for &(w, h, s) in &[(1u16, 2u16, 1u64), (74, 21, 1), (80, 24, 5), (13, 7, 999)] {
        let f = generate(w, h, s);
        assert_eq!(f.len(), 3 + h as usize * (w as usize + 3));
        let ls = lines(&f);
        // A leading empty piece, then one line per row and the final indent.
        assert_eq!(ls.len(), h as usize + 2);
        assert_eq!(ls[0], "");
        assert_eq!(ls[h as usize + 1], "  ");
        for row in &ls[1..=h as usize] {
            assert!(row.starts_with("  "));
            let glyphs = &row[2..];
            assert_eq!(glyphs.chars().count(), w as usize);
            assert!(glyphs.chars().all(|c| RAMP.contains(c)));
        }
    }
}

#[test]
fn generate_is_deterministic() {
    let a = generate(90, 30, 42);
    let b = generate(90, 30, 42);
    assert_eq!(a.as_bytes(), b.as_bytes());
    let mut eye = Eye::new(90, 30);
    eye.tick(42);
    assert_eq!(eye.frame(), a);
}

#[test]
fn cells_outside_lit_region_are_spaces() {
    // Column 0 has x_n = 0, so |x_n - 1.45| > 0.5; row 0 has t_n = 0, so
    // |t_n - 0.5| > 0.25.
    for s in [1u64, 2, 10, 500, 123_456] {
        let f = generate(80, 24, s);
        let ls = lines(&f);
        for row in &ls[1..=24] {
            assert_eq!(row.chars().nth(2), Some(' '));
        }
        assert!(ls[1].chars().all(|c| c == ' '));
        assert_eq!(glyph_index(0, 12, 80, 24, s), 0);
        assert_eq!(glyph_index(40, 0, 80, 24, s), 0);
    }
}

#[test]
fn single_row_grid_is_dark() {
    assert_eq!(generate(5, 1, 50), "\n       \n  ");
}

#[test]
fn empty_grids() {
    assert_eq!(generate(0, 0, 1), "\n  ");
    assert_eq!(generate(0, 2, 1), "\n  \n  \n  ");
}

#[test]
fn eye_starts_empty_and_keeps_its_size() {
    let mut eye = Eye::new(74, 21);
    assert_eq!(eye.frame(), "");
    eye.tick(3);
    assert_eq!(eye.width(), 74);
    assert_eq!(eye.height(), 21);
    assert_eq!(eye.frame(), generate(74, 21, 3));
}

#[test]
fn size_gate_rejects_narrow_terminal() {
    assert!(!fits(73, 25));
    assert!(Animation::start(73, 25).is_none());
    assert_eq!(too_small_message(), "terminal too small, must be at least 74x21");
}

#[test]
fn size_gate_bounds() {
    assert_eq!((MIN_WIDTH, MIN_HEIGHT), (74, 21));
    assert!(fits(74, 21));
    assert!(!fits(74, 20));
    assert!(!fits(0, 0));
    assert!(Animation::start(74, 20).is_none());
    let a = Animation::start(74, 21).unwrap();
    assert_eq!(a.phase(), Phase::Running);
    assert_eq!(a.next_tick(), 1);
    assert_eq!(a.frame(), "");
}

#[test]
fn poll_timeout_is_rest_of_interval() {
    assert_eq!(TICK_RATE_NANOS, 20_000_000);
    assert_eq!(poll_timeout(0), 20_000_000);
    assert_eq!(poll_timeout(5_000_000), 15_000_000);
    assert_eq!(poll_timeout(20_000_000), 0);
    assert_eq!(poll_timeout(u64::MAX), 0);
}

#[test]
fn no_tick_before_interval() {
    let mut a = Animation::new(80, 24);
    assert_eq!(a.step(None, 0), Action::Wait);
    assert_eq!(a.step(Some('x'), 19_999_999), Action::Wait);
    assert_eq!(a.frame(), "");
    assert_eq!(a.next_tick(), 1);
    assert_eq!(a.step(None, 20_000_000), Action::Advanced);
    assert_eq!(a.frame(), generate(80, 24, 1));
    assert_eq!(a.next_tick(), 2);
    assert_eq!(a.step(None, 1_000), Action::Wait);
    assert_eq!(a.frame(), generate(80, 24, 1));
    assert_eq!(a.step(Some('a'), 25_000_000), Action::Advanced);
    assert_eq!(a.frame(), generate(80, 24, 2));
    assert_eq!(a.next_tick(), 3);
}

#[test]
fn quit_key_exits_at_once() {
    let mut a = Animation::new(80, 24);
    assert_eq!(a.step(None, 30_000_000), Action::Advanced);
    let before = a.frame().to_string();
    // Even with a tick overdue, the quit key wins and no frame is made.
    assert_eq!(a.step(Some('q'), 30_000_000), Action::Exit);
    assert_eq!(a.phase(), Phase::Quitting);
    assert_eq!(a.frame(), before);
    assert_eq!(a.next_tick(), 2);
    assert_eq!(a.step(None, 30_000_000), Action::Exit);
    assert_eq!(a.frame(), before);
}

#[test]
fn other_keys_are_ignored() {
    let mut a = Animation::new(80, 24);
    for c in ['Q', 'x', ' ', '\n'] {
        assert_eq!(a.step(Some(c), 0), Action::Wait);
        assert_eq!(a.phase(), Phase::Running);
    }
}
