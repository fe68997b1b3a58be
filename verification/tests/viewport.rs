use fractal_lab::rat::Frac;
use fractal_lab::viewport::{
    colorizer_for, iteration_cap, ColorScheme, Colorizer, JuliaFunction, Viewport, SCALE,
};

fn fresh(is_mandelbrot: bool, f: JuliaFunction) -> Viewport {
    Viewport::new(1024, 768, is_mandelbrot, f, ColorScheme::Turbo)
}

#[test]
fn reset_mandelbrot_gives_canonical_window() {
    let mut v = fresh(false, JuliaFunction::Classic);
    v.scroll(Frac { num: 3, den: 1 }, Frac { num: -2, den: 1 });
    v.reset(true);
    assert_eq!(v.x_min_num, -2 * SCALE);
    assert_eq!(v.x_max_num, SCALE);
    assert_eq!(v.y_min_num, -SCALE);
    assert_eq!(v.y_max_num, SCALE);
}

#[test]
fn reset_julia_gives_canonical_window() {
    let mut v = fresh(true, JuliaFunction::Classic);
    v.zoom_in();
    v.reset(false);
    assert_eq!(v.x_min_num, -2 * SCALE);
    assert_eq!(v.x_max_num, 2 * SCALE);
    assert_eq!(v.y_min_num, -2 * SCALE);
    assert_eq!(v.y_max_num, 2 * SCALE);
}

#[test]
fn unit_scroll_shifts_by_a_tenth_of_the_span() {
    let mut v = fresh(true, JuliaFunction::Classic);
    // window (-2, 1): span 3, so scroll(1, 0) moves both x bounds by
    // exactly 3/10 and leaves y alone
    v.scroll(Frac { num: 1, den: 1 }, Frac { num: 0, den: 1 });
    assert_eq!(v.x_min_num, -17 * SCALE / 10); // -1.7 = -2 + 0.3
    assert_eq!(v.x_max_num, 13 * SCALE / 10); // 1.3 = 1 + 0.3
    assert_eq!(v.y_min_num, -SCALE);
    assert_eq!(v.y_max_num, SCALE);
    // the span is preserved exactly
    assert_eq!(v.x_max_num - v.x_min_num, 3 * SCALE);
}

#[test]
fn zero_scroll_is_a_no_op() {
    let mut v = fresh(true, JuliaFunction::Classic);
    v.scroll(Frac { num: 0, den: 1 }, Frac { num: 0, den: 1 });
    assert_eq!(v.x_min_num, -2 * SCALE);
    assert_eq!(v.x_max_num, SCALE);
    assert_eq!(v.y_min_num, -SCALE);
    assert_eq!(v.y_max_num, SCALE);
}

#[test]
fn zoom_in_then_out_does_not_restore_the_span() {
    let mut v = fresh(true, JuliaFunction::Classic);
    let span0 = v.x_max_num - v.x_min_num; // 3
    v.zoom_in();
    // span shrank to 8/10: 3 -> 2.4
    assert_eq!(v.x_max_num - v.x_min_num, 24 * SCALE / 10);
    v.zoom_out();
    // span grew by 12/10 of the reduced span: 2.4 -> 2.88, not 3
    let span2 = v.x_max_num - v.x_min_num;
    assert_eq!(span2, 288 * SCALE / 100);
    // exactly 24/25 of the original span ...
    assert_eq!(25 * span2, 24 * span0);
    // ... and therefore not equal to it
    assert_ne!(span2, span0);
}

#[test]
fn zoom_round_trip_shrinks_ragged_spans_too() {
    let mut v = fresh(true, JuliaFunction::Classic);
    // make the span ragged: x_max := 3/7, truncated to the unit
    v.set_x_max(Frac { num: 3, den: 7 });
    assert_eq!(v.x_max_num, 428_571_428_571_428);
    let span0 = v.x_max_num - v.x_min_num; // 2_428_571_428_571_428
    v.zoom_in();
    v.zoom_out();
    let span2 = v.x_max_num - v.x_min_num;
    // each tenth was truncated: 24/25 of the original to within the
    // documented bounds, and strictly smaller
    assert_eq!(span2, 2_331_428_571_428_572);
    assert!(24 * span0 - 45 <= 25 * span2 && 25 * span2 <= 24 * span0 + 54);
    assert!(span2 < span0);
}

#[test]
fn many_gestures_keep_working() {
    // pans, zooms and scrolls in a long interactive session never leave
    // the representation's working range
    let mut v = fresh(true, JuliaFunction::Classic);
    for i in 0..1000 {
        match i % 5 {
            0 => v.pan(Frac { num: 37, den: 1 }, Frac { num: -21, den: 1 }),
            1 => v.zoom_in(),
            2 => v.scroll(Frac { num: 1, den: 1 }, Frac { num: 0, den: 1 }),
            3 => v.zoom_out(),
            _ => v.pan(Frac { num: -1234, den: 100 }, Frac { num: 555, den: 100 }),
        }
        assert!(v.in_op_range());
        assert!(v.x_min_num < v.x_max_num);
        assert!(v.y_min_num < v.y_max_num);
    }
}

#[test]
fn pan_is_a_hundredth_of_a_scroll_unit() {
    let mut v = fresh(true, JuliaFunction::Classic);
    // a 100-pixel drag equals one whole scroll unit: 10% of the span
    v.pan(Frac { num: 100, den: 1 }, Frac { num: 0, den: 1 });
    assert_eq!(v.x_min_num, -17 * SCALE / 10);
    assert_eq!(v.x_max_num, 13 * SCALE / 10);
}

#[test]
fn mode_change_resets_bounds_and_iteration_cap() {
    let mut v = fresh(true, JuliaFunction::Snowflakes);
    v.zoom_in();
    v.set_max_iterations(512);
    v.set_mode(false);
    assert_eq!(v.x_min_num, -2 * SCALE);
    assert_eq!(v.x_max_num, 2 * SCALE);
    assert_eq!(v.y_min_num, -2 * SCALE);
    assert_eq!(v.y_max_num, 2 * SCALE);
    assert!(!v.is_mandelbrot);
    // cap follows the selected function again
    assert_eq!(v.max_iterations, 27);
}

#[test]
fn function_selection_drives_iteration_cap() {
    assert_eq!(iteration_cap(JuliaFunction::Snowflakes), 27);
    assert_eq!(iteration_cap(JuliaFunction::Classic), 1024);
    assert_eq!(iteration_cap(JuliaFunction::Cloud), 1024);
    let mut v = fresh(false, JuliaFunction::Classic);
    assert_eq!(v.max_iterations, 1024);
    v.set_function(JuliaFunction::Snowflakes);
    assert_eq!(v.max_iterations, 27);
    assert_eq!(v.julia_function, JuliaFunction::Snowflakes);
}

#[test]
fn colorizer_follows_function() {
    assert_eq!(colorizer_for(JuliaFunction::Cloud), Colorizer::Cloud);
    assert_eq!(colorizer_for(JuliaFunction::Snowflakes), Colorizer::Snowflakes);
    assert_eq!(colorizer_for(JuliaFunction::Classic), Colorizer::Standard);
}

#[test]
fn set_x_max_keeps_other_bounds() {
    let mut v = fresh(true, JuliaFunction::Classic);
    v.set_x_max(Frac { num: 5, den: 2 });
    // x_max now reads 5/2; the others keep their values
    assert_eq!(v.x_max_num, 5 * SCALE / 2);
    assert_eq!(v.x_min_num, -2 * SCALE);
    assert_eq!(v.y_min_num, -SCALE);
    assert_eq!(v.y_max_num, SCALE);
}

#[test]
fn thresholds_split_into_two_uniform_groups() {
    let mut v = fresh(true, JuliaFunction::Classic);
    let t: Vec<u32> = vec![1, 2, 3, 4, 5, 6, 7, 8, 9];
    v.set_thresholds(&t);
    assert_eq!(v.ranges, [1, 2, 3, 4]);
    assert_eq!(v.ranges_2, [5, 6, 7, 8]);
}

#[test]
fn new_viewport_starts_with_sentinel_thresholds() {
    let v = fresh(true, JuliaFunction::Classic);
    assert_eq!(v.ranges, [0, 0, 0, 0]);
    assert_eq!(v.ranges_2, [0, 0, 0, 0]);
    assert_eq!(v.width, 1024);
    assert_eq!(v.height, 768);
    assert!(v.is_mandelbrot);
    assert_eq!(v.x_min_num, -2 * SCALE);
    assert_eq!(v.x_max_num, SCALE);
}
