use clipper::preview::{preview_size, rgba_frame_len, PREVIEW_WIDTH};
use clipper::CropRect;

#[test]
fn default_crop_is_centred_full_height() {
    // 16:9 source: full height, width = 1080 * 9 / 16 rounded, centred.
    let c = CropRect::default_for(1920, 1080);
    assert_eq!(c, CropRect { x: 656, y: 0, w: 608, h: 1080 });
    assert_eq!(c.x + c.w as i32 + c.x, 1920);
}

#[test]
fn default_crop_rounds_half_up() {
    // 720 * 9 / 16 = 405 exactly; 100 * 9 / 16 = 56.25 -> 56; 8 * 9 / 16 = 4.5 -> 5.
    assert_eq!(CropRect::default_for(1280, 720).w, 405);
    assert_eq!(CropRect::default_for(1280, 100).w, 56);
    assert_eq!(CropRect::default_for(1280, 8).w, 5);
}

#[test]
fn default_crop_on_narrow_source_fits_inside() {
    // 608 px would be needed for full height; the window becomes full width
    // and 500 * 16 / 9 = 888.9 -> 889 tall, centred vertically.
    let c = CropRect::default_for(500, 1080);
    assert_eq!(c, CropRect { x: 0, y: 95, w: 500, h: 889 });
    // A portrait 720x1920 source gets a 720x1280 window, 320 px from the top.
    let p = CropRect::default_for(720, 1920);
    assert_eq!(p, CropRect { x: 0, y: 320, w: 720, h: 1280 });
    assert_eq!(p.w * 16, p.h * 9);
    let odd = CropRect::default_for(1000, 1080);
    assert_eq!(odd.x, 196);
}

#[test]
fn clamp_stops_right_edge_on_frame_edge() {
    let mut c = CropRect { x: 1500, y: 0, w: 608, h: 1080 };
    c.clamp_to(1920, 1080);
    assert_eq!(c, CropRect { x: 1312, y: 0, w: 608, h: 1080 });
}

#[test]
fn clamp_negative_position_and_oversize() {
    let mut c = CropRect { x: -40, y: -3, w: 5000, h: 0 };
    c.clamp_to(1920, 1080);
    assert_eq!(c, CropRect { x: 0, y: 0, w: 1920, h: 1 });
}

#[test]
fn clamp_scales_oversized_window_keeping_9_16() {
    let mut c = CropRect { x: 0, y: 0, w: 1080, h: 1920 };
    c.clamp_to(720, 1920);
    assert_eq!(c, CropRect { x: 0, y: 0, w: 720, h: 1280 });
    assert_eq!(c.w * 16, c.h * 9);
    let mut d = CropRect { x: 300, y: 100, w: 900, h: 1600 };
    d.clamp_to(1920, 1080);
    // height binds: 1080 tall, 900 * 1080 / 1600 = 607.5 -> 607 wide
    assert_eq!(d, CropRect { x: 300, y: 0, w: 607, h: 1080 });
}

#[test]
fn clamp_keeps_window_inside_unchanged_and_is_idempotent() {
    let mut c = CropRect { x: 10, y: 20, w: 608, h: 1000 };
    c.clamp_to(1920, 1080);
    assert_eq!(c, CropRect { x: 10, y: 20, w: 608, h: 1000 });
    let mut d = CropRect { x: 1900, y: 900, w: 608, h: 1080 };
    d.clamp_to(1920, 1080);
    let once = d;
    d.clamp_to(1920, 1080);
    assert_eq!(d, once);
    assert_eq!(once, CropRect { x: 1312, y: 0, w: 608, h: 1080 });
}

#[test]
fn drag_crop_left_by_100() {
    let mut c = CropRect::default_for(1920, 1080);
    c.move_by(-100, 0, 1920, 1080);
    assert_eq!(c, CropRect { x: 556, y: 0, w: 608, h: 1080 });
}

#[test]
fn drag_crop_out_of_bounds_is_clamped() {
    let mut c = CropRect::default_for(1920, 1080);
    c.move_by(2000, 50, 1920, 1080);
    assert_eq!(c, CropRect { x: 1312, y: 0, w: 608, h: 1080 });
    c.move_by(-5000, 0, 1920, 1080);
    assert_eq!(c.x, 0);
}

#[test]
fn preview_size_keeps_aspect_and_evens_height() {
    assert_eq!(PREVIEW_WIDTH, 720);
    // 1080 * 720 / 1920 = 405 -> made even -> 404
    assert_eq!(preview_size(1920, 1080), (720, 404));
    // 1080 * 720 / 1280 = 607.5 -> 608
    assert_eq!(preview_size(1280, 1080), (720, 608));
    // portrait 1080x1920 -> 1280
    assert_eq!(preview_size(1080, 1920), (720, 1280));
}

#[test]
fn preview_size_degenerate_sources() {
    assert_eq!(preview_size(1000, 1), (720, 2));
    assert_eq!(preview_size(0, 0), (720, 2));
    assert_eq!(preview_size(0, 100), (720, u32::MAX - 1));
    assert_eq!(preview_size(1, u32::MAX), (720, u32::MAX - 1));
}

#[test]
fn preview_size_matches_floating_point_rounding() {
    for &(w, h) in &[(1920u32, 1080u32), (1280, 720), (640, 481), (3, 7), (1001, 333), (4096, 2160)] {
        let expect = ((h as f64 * 720.0 / w as f64).round() as u32) & !1;
        assert_eq!(preview_size(w, h).1, expect.max(2));
    }
}

#[test]
fn rgba_frame_len_is_four_bytes_per_pixel() {
    assert_eq!(rgba_frame_len(720, 404), 720 * 404 * 4);
    assert_eq!(rgba_frame_len(0, 404), 0);
}
