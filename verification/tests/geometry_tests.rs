use webview_host::geometry::{centered, effective_dpi, mul_div, scaled_client_rect, Rect};

#[test]
fn mul_div_scales_exactly_at_nominal_dpi() {
    assert_eq!(mul_div(800, 96, 96), 800);
    assert_eq!(mul_div(600, 96, 96), 600);
    assert_eq!(mul_div(0, 96, 96), 0);
}

#[test]
fn mul_div_scales_to_higher_dpi() {
    assert_eq!(mul_div(800, 144, 96), 1200);
    assert_eq!(mul_div(600, 144, 96), 900);
    assert_eq!(mul_div(800, 120, 96), 1000);
    assert_eq!(mul_div(800, 192, 96), 1600);
}

#[test]
fn mul_div_rounds_to_nearest_with_halves_away_from_zero() {
    // 1 * 120 / 96 = 1.25
    assert_eq!(mul_div(1, 120, 96), 1);
    // 2 * 120 / 96 = 2.5
    assert_eq!(mul_div(2, 120, 96), 3);
    // 3 * 120 / 96 = 3.75
    assert_eq!(mul_div(3, 120, 96), 4);
    assert_eq!(mul_div(1, 1, 2), 1);
    assert_eq!(mul_div(1, 1, 3), 0);
    assert_eq!(mul_div(7, 1, 2), 4);
}

#[test]
fn mul_div_keeps_the_sign_of_the_quotient() {
    assert_eq!(mul_div(-2, 120, 96), -3);
    assert_eq!(mul_div(2, -120, 96), -3);
    assert_eq!(mul_div(2, 120, -96), -3);
    assert_eq!(mul_div(-2, -120, 96), 3);
    assert_eq!(mul_div(-2, -120, -96), -3);
    assert_eq!(mul_div(-1, 1, 3), 0);
}

#[test]
fn mul_div_reports_zero_denominator_and_overflow() {
    assert_eq!(mul_div(800, 96, 0), -1);
    assert_eq!(mul_div(i32::MAX, 2, 1), -1);
    assert_eq!(mul_div(i32::MAX, i32::MAX, 1), -1);
    assert_eq!(mul_div(i32::MIN, 1, 1), -1);
    assert_eq!(mul_div(i32::MIN, i32::MIN, i32::MIN), -1);
    assert_eq!(mul_div(i32::MAX, 1, 1), i32::MAX);
    assert_eq!(mul_div(-i32::MAX, 1, 1), -i32::MAX);
    assert_eq!(mul_div(i32::MAX, i32::MAX, i32::MAX), i32::MAX);
}

#[test]
fn scaling_there_and_back_stays_within_one_pixel() {
    let dpis: [i32; 8] = [33, 48, 72, 96, 120, 144, 192, 480];
    for dpi in dpis {
        for logical in 0..2000 {
            let physical = mul_div(logical, dpi, 96);
            let back = mul_div(physical, 96, dpi);
            assert!((back - logical).abs() <= 1, "dpi {} logical {}", dpi, logical);
            if dpi >= 96 {
                assert_eq!(back, logical);
            }
        }
    }
}

#[test]
fn scaling_back_can_be_off_by_more_below_33_dpi() {
    let physical = mul_div(200, 1, 96);
    assert_eq!(physical, 2);
    assert_eq!(mul_div(physical, 96, 1), 192);
}

#[test]
fn effective_dpi_falls_back_to_nominal() {
    assert_eq!(effective_dpi(0), 96);
    assert_eq!(effective_dpi(u32::MAX), 96);
    assert_eq!(effective_dpi(0x8000_0000), 96);
    assert_eq!(effective_dpi(96), 96);
    assert_eq!(effective_dpi(144), 144);
    assert_eq!(effective_dpi(0x7fff_ffff), i32::MAX);
}

#[test]
fn scaled_client_rect_starts_at_the_origin() {
    assert_eq!(
        scaled_client_rect(800, 600, 96),
        Rect { left: 0, top: 0, right: 800, bottom: 600 }
    );
    assert_eq!(
        scaled_client_rect(800, 600, 144),
        Rect { left: 0, top: 0, right: 1200, bottom: 900 }
    );
    assert_eq!(
        scaled_client_rect(i32::MAX, 1, 192),
        Rect { left: 0, top: 0, right: -1, bottom: 2 }
    );
}

#[test]
fn rect_extent_and_corner() {
    let r = Rect { left: 100, top: 100, right: 900, bottom: 700 };
    assert_eq!(r.width(), 800);
    assert_eq!(r.height(), 600);
    assert_eq!(Rect::at(100, 100, 800, 600), r);
    assert_eq!(Rect::zero(), Rect { left: 0, top: 0, right: 0, bottom: 0 });
}

#[test]
fn rect_extent_wraps_and_comes_back() {
    let r = Rect { left: i32::MIN, top: -5, right: i32::MAX, bottom: i32::MIN };
    assert_eq!(r.width(), -1);
    assert_eq!(r.height(), i32::MIN.wrapping_add(5));
    assert_eq!(Rect::at(r.left, r.top, r.width(), r.height()), r);
}

#[test]
fn centered_puts_the_window_in_the_middle() {
    let work_area = Rect { left: 0, top: 0, right: 1920, bottom: 1080 };
    // An 800 x 600 client area with an 8-pixel frame and a 31-pixel caption.
    let outer = Rect { left: -8, top: -31, right: 808, bottom: 608 };
    let placed = centered(outer, work_area);
    assert_eq!(placed, Rect { left: 552, top: 221, right: 1368, bottom: 860 });
    assert_eq!(placed.width(), outer.width());
    assert_eq!(placed.height(), outer.height());
}

#[test]
fn centered_rounds_halves_toward_zero() {
    let work_area = Rect { left: 0, top: 0, right: 1921, bottom: 1081 };
    let outer = Rect { left: 0, top: 0, right: 801, bottom: 601 };
    // 1921 / 2 = 960, 801 / 2 = 400; 1081 / 2 = 540, 601 / 2 = 300.
    assert_eq!(
        centered(outer, work_area),
        Rect { left: 560, top: 240, right: 1361, bottom: 841 }
    );
}

#[test]
fn centered_a_window_larger_than_the_work_area() {
    let work_area = Rect { left: 0, top: 0, right: 800, bottom: 600 };
    let outer = Rect { left: 0, top: 0, right: 1000, bottom: 700 };
    assert_eq!(
        centered(outer, work_area),
        Rect { left: -100, top: -50, right: 900, bottom: 650 }
    );
}

#[test]
fn centered_on_a_work_area_with_its_own_origin() {
    let work_area = Rect { left: 100, top: 50, right: 1920, bottom: 1040 };
    let outer = Rect { left: 0, top: 0, right: 800, bottom: 600 };
    // 100 + 1820 / 2 - 800 / 2 = 610, 50 + 990 / 2 - 600 / 2 = 245.
    assert_eq!(
        centered(outer, work_area),
        Rect { left: 610, top: 245, right: 1410, bottom: 845 }
    );
    // Where the outer rectangle lies makes no difference, only its extent.
    let moved = Rect { left: -8, top: -31, right: 792, bottom: 569 };
    assert_eq!(centered(moved, work_area), centered(outer, work_area));
}

#[test]
fn centered_on_a_work_area_left_of_the_origin() {
    let work_area = Rect { left: -1920, top: -200, right: 0, bottom: 880 };
    let outer = Rect { left: 0, top: 0, right: 801, bottom: 601 };
    // -1920 + 960 - 400 = -1360, -200 + 540 - 300 = 40.
    assert_eq!(
        centered(outer, work_area),
        Rect { left: -1360, top: 40, right: -559, bottom: 641 }
    );
}
