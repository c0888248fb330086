use box_fit::{BoxFitError, BoxFitProjection, Ratio};

fn ratio(num: i64, den: i64) -> Ratio {
    Ratio::new(num, den).expect("positive denominator")
}

fn fit(vw: i32, vh: i32, centered: bool, w: u32, h: u32) -> BoxFitProjection {
    let mut p = BoxFitProjection::from_resolution(vw, vh).expect("valid resolution");
    p.set_centered(centered);
    p.update(w, h).expect("fits");
    p
}

/// `(right - left) * zoom` and `(top - bottom) * zoom`, as exact pairs of
/// numerator and denominator.
fn scaled_spans(p: &BoxFitProjection) -> ((i128, i128), (i128, i128)) {
    let span = |low: Ratio, high: Ratio| {
        let num = high.num() as i128 * low.den() as i128 - low.num() as i128 * high.den() as i128;
        let den = high.den() as i128 * low.den() as i128;
        (num * p.zoom().num() as i128, den * p.zoom().den() as i128)
    };
    (span(p.left(), p.right()), span(p.bottom(), p.top()))
}

#[test]
fn new_projection_shows_the_virtual_resolution() {
    let p = BoxFitProjection::from_resolution(640, 480).expect("valid resolution");
    assert_eq!(p.virtual_width, 640);
    assert_eq!(p.virtual_height, 480);
    assert!(p.centered);
    assert_eq!(p.zoom(), Ratio::from_int(1));
    assert_eq!(p.left(), Ratio::from_int(-320));
    assert_eq!(p.right(), Ratio::from_int(320));
    assert_eq!(p.bottom(), Ratio::from_int(-240));
    assert_eq!(p.top(), Ratio::from_int(240));
    assert_eq!(p.near(), Ratio::from_int(0));
    assert_eq!(p.far(), Ratio::from_int(1000));
}

#[test]
fn new_projection_is_written_over_its_width() {
    let p = BoxFitProjection::from_resolution(640, 480).expect("valid resolution");
    assert_eq!((p.zoom().num(), p.zoom().den()), (640, 640));
    assert_eq!((p.left().num(), p.left().den()), (-320, 1));
    assert_eq!((p.right().num(), p.right().den()), (204_800, 640));
    assert_eq!((p.bottom().num(), p.bottom().den()), (-240, 1));
    assert_eq!((p.top().num(), p.top().den()), (153_600, 640));
}

#[test]
fn default_is_640_by_480() {
    let p = BoxFitProjection::default();
    assert_eq!(p.virtual_width, 640);
    assert_eq!(p.virtual_height, 480);
    assert!(p.centered);
    assert_eq!(p.zoom(), Ratio::from_int(1));
    assert_eq!(p.left(), Ratio::from_int(-320));
    assert_eq!(p.right(), Ratio::from_int(320));
    assert_eq!(p.bottom(), Ratio::from_int(-240));
    assert_eq!(p.top(), Ratio::from_int(240));
}

#[test]
fn from_resolution_rejects_an_empty_resolution() {
    assert_eq!(BoxFitProjection::from_resolution(0, 480).err(), Some(BoxFitError::InvalidResolution));
    assert_eq!(BoxFitProjection::from_resolution(640, 0).err(), Some(BoxFitError::InvalidResolution));
    assert_eq!(BoxFitProjection::from_resolution(-1, 480).err(), Some(BoxFitError::InvalidResolution));
    assert_eq!(BoxFitProjection::from_resolution(640, i32::MIN).err(), Some(BoxFitError::InvalidResolution));
    assert!(BoxFitProjection::from_resolution(1, 1).is_ok());
}

#[test]
fn accessors_read_the_configuration() {
    let mut p = BoxFitProjection::from_resolution(320, 200).expect("valid resolution");
    assert_eq!(p.virtual_width(), 320);
    assert_eq!(p.virtual_height(), 200);
    assert!(p.centered());
    p.centered = false;
    p.virtual_width = 64;
    assert_eq!(p.virtual_width(), 64);
    assert!(!p.centered());
}

#[test]
fn setters_change_the_configuration_only() {
    let mut p = BoxFitProjection::from_resolution(640, 480).expect("valid resolution");
    p.set_virtual_width(320);
    p.set_virtual_height(-7);
    p.set_centered(false);
    assert_eq!(p.virtual_width, 320);
    assert_eq!(p.virtual_height, -7);
    assert!(!p.centered);
    assert_eq!((p.zoom().num(), p.zoom().den()), (640, 640));
    assert_eq!((p.left().num(), p.left().den()), (-320, 1));
    assert_eq!((p.right().num(), p.right().den()), (204_800, 640));
    assert_eq!((p.bottom().num(), p.bottom().den()), (-240, 1));
    assert_eq!((p.top().num(), p.top().den()), (153_600, 640));
    assert_eq!(p.near(), Ratio::from_int(0));
    assert_eq!(p.far(), Ratio::from_int(1000));
    p.set_centered(true);
    assert!(p.centered());
}

#[test]
fn wide_window_is_limited_by_its_height() {
    let p = fit(640, 480, true, 800, 480);
    assert_eq!(p.zoom(), Ratio::from_int(1));
    assert_eq!((p.zoom().num(), p.zoom().den()), (480, 480));
    assert_eq!(p.left(), Ratio::from_int(-400));
    assert_eq!(p.right(), Ratio::from_int(400));
    assert_eq!(p.bottom(), Ratio::from_int(-240));
    assert_eq!(p.top(), Ratio::from_int(240));
}

#[test]
fn tall_window_is_limited_by_its_width() {
    let p = fit(640, 480, true, 640, 960);
    assert_eq!((p.zoom().num(), p.zoom().den()), (640, 640));
    assert_eq!(p.left(), Ratio::from_int(-320));
    assert_eq!(p.right(), Ratio::from_int(320));
    assert_eq!(p.bottom(), Ratio::from_int(-480));
    assert_eq!(p.top(), Ratio::from_int(480));
}

#[test]
fn equal_ratios_take_the_horizontal_one() {
    let p = fit(640, 480, true, 1280, 960);
    assert_eq!((p.zoom().num(), p.zoom().den()), (1280, 640));
    assert_eq!(p.zoom(), Ratio::from_int(2));
}

#[test]
fn zoom_is_the_smaller_axis_ratio() {
    let p = fit(640, 480, true, 1280, 720);
    assert_eq!((p.zoom().num(), p.zoom().den()), (720, 480));
    assert_eq!(p.zoom(), ratio(3, 2));
    // 1280 / 1.5 = 853 1/3 is visible across; half of 853 is 426.
    assert_eq!(p.left(), Ratio::from_int(-426));
    assert_eq!(p.right(), ratio(1282, 3));
    assert_eq!((p.right().num(), p.right().den()), (1280 * 480 - 426 * 720, 720));
    assert_eq!(p.bottom(), Ratio::from_int(-240));
    assert_eq!(p.top(), Ratio::from_int(240));
}

#[test]
fn zoom_below_one_shrinks_the_view() {
    let p = fit(640, 480, true, 320, 480);
    assert_eq!(p.zoom(), ratio(1, 2));
    assert_eq!(p.left(), Ratio::from_int(-320));
    assert_eq!(p.right(), Ratio::from_int(320));
    assert_eq!(p.bottom(), Ratio::from_int(-480));
    assert_eq!(p.top(), Ratio::from_int(480));
}

#[test]
fn spans_times_zoom_give_the_window() {
    let windows: [(u32, u32); 6] = [(640, 480), (800, 480), (1280, 720), (333, 777), (1, 1), (1920, 1080)];
    for centered in [true, false] {
        for (w, h) in windows {
            let p = fit(640, 480, centered, w, h);
            let ((xn, xd), (yn, yd)) = scaled_spans(&p);
            assert_eq!(xn, w as i128 * xd, "width of {w}x{h}");
            assert_eq!(yn, h as i128 * yd, "height of {w}x{h}");
            // The zoom is one of the two axis ratios and no larger than either.
            let z = p.zoom();
            assert!(z == ratio(w as i64, 640) || z == ratio(h as i64, 480));
            assert!(z.num() as i128 * 640 <= w as i128 * z.den() as i128);
            assert!(z.num() as i128 * 480 <= h as i128 * z.den() as i128);
        }
    }
}

#[test]
fn centered_odd_extent_is_off_by_half_a_pixel() {
    let p = fit(641, 481, true, 641, 481);
    assert_eq!(p.left(), Ratio::from_int(-320));
    assert_eq!(p.right(), Ratio::from_int(321));
    assert_eq!(p.bottom(), Ratio::from_int(-240));
    assert_eq!(p.top(), Ratio::from_int(241));
}

#[test]
fn centered_middle_lies_between_zero_and_one() {
    let windows: [(u32, u32); 5] = [(641, 481), (800, 601), (1279, 719), (7, 3), (1000, 1)];
    for (w, h) in windows {
        let p = fit(641, 481, true, w, h);
        for (low, high) in [(p.left(), p.right()), (p.bottom(), p.top())] {
            // low + high, over high's denominator, lies in [0, 2).
            assert_eq!(low.den(), 1);
            let sum = low.num() as i128 * high.den() as i128 + high.num() as i128;
            assert!(0 <= sum, "{w}x{h}");
            assert!(sum < 2 * high.den() as i128, "{w}x{h}");
        }
    }
}

#[test]
fn uncentered_bounds_are_kept_by_a_refused_update() {
    let mut p = fit(640, 480, false, 800, 480);
    assert_eq!(p.update(0, 480), Err(BoxFitError::EmptyViewport));
    assert_eq!(p.left(), Ratio::from_int(0));
    assert_eq!(p.bottom(), Ratio::from_int(0));
    assert_eq!(p.right(), Ratio::from_int(800));
    // A projection that was centered keeps its centered bounds until an update succeeds.
    let mut q = fit(640, 480, true, 800, 480);
    q.set_centered(false);
    assert_eq!(q.update(0, 480), Err(BoxFitError::EmptyViewport));
    assert_eq!(q.left(), Ratio::from_int(-400));
    assert_eq!(q.update(800, 480), Ok(()));
    assert_eq!(q.left(), Ratio::from_int(0));
}

#[test]
fn uncentered_starts_at_the_origin() {
    let p = fit(640, 480, false, 800, 480);
    assert_eq!((p.left().num(), p.left().den()), (0, 1));
    assert_eq!((p.bottom().num(), p.bottom().den()), (0, 1));
    assert_eq!(p.right(), Ratio::from_int(800));
    assert_eq!(p.top(), Ratio::from_int(480));
    let q = fit(640, 480, false, 1280, 720);
    assert_eq!(q.left(), Ratio::from_int(0));
    assert_eq!(q.bottom(), Ratio::from_int(0));
    assert_eq!(q.right(), ratio(2560, 3));
    assert_eq!(q.top(), Ratio::from_int(480));
}

#[test]
fn extreme_sizes_stay_exact() {
    let p = fit(i32::MAX, 1, true, u32::MAX, 1);
    // Limited by the height: zoom 1, all of the window's width is visible.
    assert_eq!(p.zoom(), Ratio::from_int(1));
    assert_eq!(p.left(), Ratio::from_int(-(u32::MAX as i64 / 2)));
    assert_eq!(p.right(), Ratio::from_int(u32::MAX as i64 - u32::MAX as i64 / 2));
    let q = fit(1, i32::MAX, true, u32::MAX, 1);
    assert_eq!(q.zoom(), ratio(1, i32::MAX as i64));
    let across = u32::MAX as i64 * i32::MAX as i64;
    assert_eq!(q.left(), Ratio::from_int(-(across / 2)));
    assert_eq!(q.right(), Ratio::from_int(across - across / 2));
    assert_eq!(q.top(), Ratio::from_int(i32::MAX as i64 - i32::MAX as i64 / 2));
}

#[test]
fn update_rejects_an_empty_window() {
    let mut p = BoxFitProjection::from_resolution(640, 480).expect("valid resolution");
    p.update(800, 600).expect("fits");
    let before = p;
    assert_eq!(p.update(0, 600), Err(BoxFitError::EmptyViewport));
    assert_eq!(p.update(800, 0), Err(BoxFitError::EmptyViewport));
    assert_eq!(p.update(0, 0), Err(BoxFitError::EmptyViewport));
    assert_eq!(p.zoom().num(), before.zoom().num());
    assert_eq!(p.zoom().den(), before.zoom().den());
    assert_eq!(p.left().num(), before.left().num());
    assert_eq!(p.right().num(), before.right().num());
    assert_eq!(p.right().den(), before.right().den());
    assert_eq!(p.top().num(), before.top().num());
}

#[test]
fn update_rejects_an_invalid_resolution() {
    let mut p = BoxFitProjection::from_resolution(640, 480).expect("valid resolution");
    p.set_virtual_width(0);
    assert_eq!(p.update(800, 600), Err(BoxFitError::InvalidResolution));
    assert_eq!(p.update(0, 0), Err(BoxFitError::InvalidResolution));
    p.set_virtual_width(640);
    p.set_virtual_height(-480);
    assert_eq!(p.update(800, 600), Err(BoxFitError::InvalidResolution));
    assert_eq!(p.right(), Ratio::from_int(320));
    assert_eq!(p.top(), Ratio::from_int(240));
    p.set_virtual_height(480);
    assert_eq!(p.update(800, 600), Ok(()));
}

#[test]
fn update_keeps_configuration_and_planes() {
    let mut p = BoxFitProjection::from_resolution(320, 240).expect("valid resolution");
    p.set_centered(false);
    p.update(1000, 700).expect("fits");
    assert_eq!(p.virtual_width, 320);
    assert_eq!(p.virtual_height, 240);
    assert!(!p.centered);
    assert_eq!(p.near(), Ratio::from_int(0));
    assert_eq!(p.far(), Ratio::from_int(1000));
}

#[test]
fn update_follows_a_changed_configuration() {
    let mut p = BoxFitProjection::from_resolution(640, 480).expect("valid resolution");
    p.set_virtual_width(320);
    p.set_virtual_height(240);
    // Nothing is refitted until the next update.
    assert_eq!(p.right(), Ratio::from_int(320));
    p.update(640, 480).expect("fits");
    assert_eq!(p.zoom(), Ratio::from_int(2));
    assert_eq!(p.left(), Ratio::from_int(-160));
    assert_eq!(p.right(), Ratio::from_int(160));
    assert_eq!(p.bottom(), Ratio::from_int(-120));
    assert_eq!(p.top(), Ratio::from_int(120));
}

#[test]
fn update_twice_gives_the_same_bounds() {
    let mut p = BoxFitProjection::from_resolution(640, 480).expect("valid resolution");
    p.update(1280, 720).expect("fits");
    let once = (p.zoom().num(), p.left().num(), p.right().num(), p.bottom().num(), p.top().num());
    p.update(1280, 720).expect("fits");
    let twice = (p.zoom().num(), p.left().num(), p.right().num(), p.bottom().num(), p.top().num());
    assert_eq!(once, twice);
}

#[test]
fn a_window_in_steps_keeps_its_fraction() {
    // 800.5 x 600 pixels: the height limits, zoom 1.25, 640.4 x 480 is visible.
    let mut p = BoxFitProjection::from_resolution(640, 480).expect("valid resolution");
    assert_eq!(p.update_in_steps(1601, 1200, 2), Ok(()));
    assert_eq!((p.zoom().num(), p.zoom().den()), (1200, 960));
    assert_eq!(p.zoom(), ratio(5, 4));
    assert_eq!(p.left(), Ratio::from_int(-320));
    assert_eq!(p.right(), ratio(3204, 10));
    assert_eq!(p.bottom(), Ratio::from_int(-240));
    assert_eq!(p.top(), Ratio::from_int(240));
    // 500.5 x 600 pixels: the width limits, zoom 500.5 / 640.
    assert_eq!(p.update_in_steps(1001, 1200, 2), Ok(()));
    assert_eq!((p.zoom().num(), p.zoom().den()), (1001, 1280));
    assert_eq!(p.left(), Ratio::from_int(-320));
    assert_eq!(p.right(), Ratio::from_int(320));
    assert_eq!(p.top(), ratio(1200 * 640, 1001).checked_add_int(-383).expect("fits"));
}

#[test]
fn steps_of_one_are_whole_pixels() {
    let mut fine = BoxFitProjection::from_resolution(640, 480).expect("valid resolution");
    let mut whole = fine;
    for (w, h) in [(640, 480), (800, 480), (1280, 720), (333, 777)] {
        fine.update_in_steps(w, h, 1).expect("fits");
        whole.update(w, h).expect("fits");
        assert_eq!((fine.zoom().num(), fine.zoom().den()), (whole.zoom().num(), whole.zoom().den()));
        assert_eq!((fine.right().num(), fine.right().den()), (whole.right().num(), whole.right().den()));
        assert_eq!((fine.top().num(), fine.top().den()), (whole.top().num(), whole.top().den()));
        assert_eq!(fine.left().num(), whole.left().num());
        assert_eq!(fine.bottom().num(), whole.bottom().num());
    }
}

#[test]
fn finer_steps_show_the_same_window() {
    let mut coarse = fit(640, 480, true, 1280, 720);
    let mut fine = coarse;
    coarse.update_in_steps(1280, 720, 1).expect("fits");
    fine.update_in_steps(1280 * 256, 720 * 256, 256).expect("fits");
    assert_eq!(fine.zoom(), coarse.zoom());
    assert_eq!(fine.left(), coarse.left());
    assert_eq!(fine.right(), coarse.right());
    assert_eq!(fine.bottom(), coarse.bottom());
    assert_eq!(fine.top(), coarse.top());
}

#[test]
fn spans_times_zoom_give_the_window_in_steps() {
    for (w, h, steps) in [(1601_u32, 1200_u32, 2_u32), (1001, 1200, 2), (7, 3, 5), (u32::MAX, 1, u32::MAX)] {
        for centered in [true, false] {
            let mut p = BoxFitProjection::from_resolution(640, 480).expect("valid resolution");
            p.set_centered(centered);
            p.update_in_steps(w, h, steps).expect("fits");
            let ((xn, xd), (yn, yd)) = scaled_spans(&p);
            assert_eq!(xn * steps as i128, w as i128 * xd);
            assert_eq!(yn * steps as i128, h as i128 * yd);
            let z = p.zoom();
            assert!(z == ratio(w as i64, 640 * steps as i64) || z == ratio(h as i64, 480 * steps as i64));
            assert!(z.num() as i128 * 640 * steps as i128 <= w as i128 * z.den() as i128);
            assert!(z.num() as i128 * 480 * steps as i128 <= h as i128 * z.den() as i128);
        }
    }
}

#[test]
fn update_in_steps_refuses_what_update_refuses() {
    let mut p = BoxFitProjection::from_resolution(640, 480).expect("valid resolution");
    p.update(800, 600).expect("fits");
    let before = (p.zoom().num(), p.zoom().den(), p.right().num(), p.top().num());
    assert_eq!(p.update_in_steps(800, 600, 0), Err(BoxFitError::EmptyViewport));
    assert_eq!(p.update_in_steps(0, 600, 2), Err(BoxFitError::EmptyViewport));
    assert_eq!(p.update_in_steps(800, 0, 2), Err(BoxFitError::EmptyViewport));
    p.set_virtual_height(0);
    assert_eq!(p.update_in_steps(800, 600, 2), Err(BoxFitError::InvalidResolution));
    assert_eq!(p.update_in_steps(800, 600, 0), Err(BoxFitError::InvalidResolution));
    assert_eq!(before, (p.zoom().num(), p.zoom().den(), p.right().num(), p.top().num()));
}
