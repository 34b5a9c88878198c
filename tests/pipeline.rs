use mandelbrot::canvas::Canvas;
use mandelbrot::escape::{classify_orbit, EscapeRun, IterationResult};
use mandelbrot::palette::{escape_color, Color};
use mandelbrot::plane::normalized_numerator;
use mandelbrot::render::{canvas_fits, paint};

fn rgb(red: u8, green: u8, blue: u8) -> Color {
    Color { red, green, blue }
}

#[test]
fn bounded_is_black_for_any_cap() {
    for cap in [0u16, 1, 100, u16::MAX] {
        assert_eq!(escape_color(IterationResult::Bounded, cap), rgb(0, 0, 0));
    }
}

#[test]
fn first_step_escape_is_magenta() {
    assert_eq!(escape_color(IterationResult::EscapedAt(1), 100), rgb(255, 0, 255));
    assert_eq!(escape_color(IterationResult::EscapedAt(1), 1), rgb(255, 0, 255));
}

#[test]
fn escaped_channels_complement() {
    for n in 1..=u16::MAX {
        let c = escape_color(IterationResult::EscapedAt(n), 100);
        assert_eq!(c.red as u32 + c.green as u32, 255);
        assert_eq!(c.blue, 255);
        assert_eq!(c.red as u16, 255 / n);
    }
}

#[test]
fn escaped_colour_exact_values() {
    assert_eq!(escape_color(IterationResult::EscapedAt(2), 100), rgb(127, 128, 255));
    assert_eq!(escape_color(IterationResult::EscapedAt(3), 100), rgb(85, 170, 255));
    assert_eq!(escape_color(IterationResult::EscapedAt(17), 100), rgb(15, 240, 255));
    assert_eq!(escape_color(IterationResult::EscapedAt(100), 100), rgb(2, 253, 255));
    assert_eq!(escape_color(IterationResult::EscapedAt(255), 300), rgb(1, 254, 255));
    assert_eq!(escape_color(IterationResult::EscapedAt(256), 300), rgb(0, 255, 255));
}

#[test]
fn zero_cap_run_is_bounded_at_once() {
    let run = EscapeRun::new(0);
    assert_eq!(run.next_step(), None);
    assert_eq!(run.outcome(), Some(IterationResult::Bounded));
}

#[test]
fn run_escaping_at_first_step() {
    let mut run = EscapeRun::new(100);
    assert_eq!(run.outcome(), None);
    assert_eq!(run.next_step(), Some(1));
    run.record(true);
    assert_eq!(run.next_step(), None);
    assert_eq!(run.outcome(), Some(IterationResult::EscapedAt(1)));
}

#[test]
fn run_never_exceeding_is_bounded_after_cap_steps() {
    let mut run = EscapeRun::new(4);
    for step in 1..=4u16 {
        assert_eq!(run.next_step(), Some(step));
        assert_eq!(run.outcome(), None);
        run.record(false);
    }
    assert_eq!(run.next_step(), None);
    assert_eq!(run.outcome(), Some(IterationResult::Bounded));
}

#[test]
fn run_escaping_at_last_step() {
    let mut run = EscapeRun::new(3);
    run.record(false);
    run.record(false);
    run.record(true);
    assert_eq!(run.outcome(), Some(IterationResult::EscapedAt(3)));
}

#[test]
fn classify_orbit_cases() {
    assert_eq!(classify_orbit(&vec![], 0), Some(IterationResult::Bounded));
    assert_eq!(classify_orbit(&vec![true, true], 0), Some(IterationResult::Bounded));
    assert_eq!(classify_orbit(&vec![true], 5), Some(IterationResult::EscapedAt(1)));
    assert_eq!(
        classify_orbit(&vec![false, false, true, true], 5),
        Some(IterationResult::EscapedAt(3))
    );
    assert_eq!(classify_orbit(&vec![false, false, true], 2), Some(IterationResult::Bounded));
    assert_eq!(classify_orbit(&vec![false, false, false], 3), Some(IterationResult::Bounded));
    assert_eq!(classify_orbit(&vec![false], 3), None);
    assert_eq!(classify_orbit(&vec![], 3), None);
}

#[test]
fn normalized_numerator_bounds() {
    assert_eq!(normalized_numerator(0, 5000), -5000);
    assert_eq!(normalized_numerator(2500, 5000), 0);
    assert_eq!(normalized_numerator(4999, 5000), 4998);
    assert_eq!(normalized_numerator(0, 1), -1);
    assert_eq!(normalized_numerator(u32::MAX - 1, u32::MAX), u32::MAX as i64 - 2);
}

#[test]
fn centre_pixel_of_reference_view_is_black() {
    // The centre of a 5000-pixel side normalises to 0, so the plane point is
    // the offset (-0.5, 0.0), inside the main cardioid: it never escapes.
    assert_eq!(normalized_numerator(2500, 5000), 0);
    let orbit = vec![false; 100];
    let result = classify_orbit(&orbit, 100).unwrap();
    assert_eq!(result, IterationResult::Bounded);
    assert_eq!(escape_color(result, 100), rgb(0, 0, 0));
}

#[test]
fn canvas_fits_edges() {
    assert!(canvas_fits(1, 1));
    assert!(canvas_fits(5000, 5000));
    assert!(!canvas_fits(0, 5));
    assert!(!canvas_fits(5, 0));
    assert!(canvas_fits(u32::MAX, 1));
}

#[test]
fn new_canvas_is_black() {
    let c = Canvas::new(3, 2);
    assert_eq!(c.to_bytes(), vec![0u8; 18]);
}

#[test]
fn put_sets_one_cell() {
    let mut c = Canvas::new(2, 2);
    c.put(1, 0, rgb(1, 2, 3));
    c.put(0, 1, rgb(4, 5, 6));
    assert_eq!(c.to_bytes(), vec![0, 0, 0, 1, 2, 3, 4, 5, 6, 0, 0, 0]);
}

#[test]
fn paint_row_major() {
    let results = vec![
        IterationResult::Bounded,
        IterationResult::EscapedAt(1),
        IterationResult::EscapedAt(3),
        IterationResult::EscapedAt(2),
        IterationResult::Bounded,
        IterationResult::EscapedAt(100),
    ];
    let c = paint(&results, 3, 2, 100);
    assert_eq!(
        c.to_bytes(),
        vec![0, 0, 0, 255, 0, 255, 85, 170, 255, 127, 128, 255, 0, 0, 0, 2, 253, 255]
    );
}

#[test]
fn paint_is_deterministic() {
    let mut results = Vec::new();
    for i in 0..16u16 {
        results.push(if i % 5 == 0 {
            IterationResult::Bounded
        } else {
            IterationResult::EscapedAt(i)
        });
    }
    let a = paint(&results, 4, 4, 20);
    let b = paint(&results, 4, 4, 20);
    assert_eq!(a.to_bytes(), b.to_bytes());
    assert_eq!(a.to_bytes().len(), 48);
}

#[test]
fn paint_empty_canvas() {
    let c = paint(&vec![], 0, 0, 10);
    assert!(c.to_bytes().is_empty());
}
