use audio_switcher::osd::anchor_or_screen;
use audio_switcher::osd::{
    colorref, fit, layout, scale, BAR_H, CARD_H, CARD_W, GAP, KEY_RGB, PAD, THUMB_D,
};

#[test]
fn fit_places_the_card_above_the_icon() {
    let work = (0, 0, 1920, 1032);
    let icon = (1800, 1040, 24, 24);
    let (x, y) = fit(icon, 240, 64, GAP, work);
    assert_eq!(x, 1920 - 240, "centred on the icon, then clamped");
    assert_eq!(y, 1040 - 64 - GAP, "one gap above the icon");
}

#[test]
fn fit_flips_below_when_the_taskbar_leaves_no_room_above() {
    let work = (0, 48, 1920, 1080);
    let icon = (100, 10, 24, 24);
    assert_eq!(fit(icon, 240, 64, GAP, work), (0, 48));
}

#[test]
fn fit_clamps_out_of_a_left_taskbar() {
    let work = (48, 0, 1920, 1080);
    let icon = (10, 500, 24, 24);
    assert_eq!(fit(icon, 240, 64, GAP, work), (48, 500 - 64 - GAP));
}

#[test]
fn layout_keeps_every_element_inside_the_card() {
    let (w, h, dpi, state_col) = (scale(CARD_W, 96), scale(CARD_H, 96), 96, 24);
    let l = layout(w, h, dpi, state_col, true, 72);
    for r in [l.name, l.bar_track, l.bar_fill, l.thumb, l.state] {
        assert!(r.left >= 0 && r.top >= 0 && r.right <= w && r.bottom <= h, "{r:?} escapes the card");
    }
    assert!(l.bar_track.left < l.bar_track.right, "empty track");
    assert!(l.bar_fill.right <= l.bar_track.right, "fill overflows the track");
    assert!(l.state.left >= l.bar_track.right);
    let track = l.bar_track.right - l.bar_track.left;
    let fill = l.bar_fill.right - l.bar_fill.left;
    assert!(fill > 0 && fill < track, "fill {fill} of track {track}");
    assert!((fill * 100 / track).abs_diff(72) <= 1);
}

#[test]
fn layout_keeps_the_thumb_on_the_track() {
    let (w, h, dpi, state_col) = (scale(CARD_W, 96), scale(CARD_H, 96), 96, 24);
    let radius = scale(THUMB_D, dpi) / 2;
    for percent in [0, 5, 50, 95, 100] {
        let l = layout(w, h, dpi, state_col, true, percent);
        assert_eq!(l.thumb.right - l.thumb.left, radius * 2, "{percent}%");
        assert_eq!(l.thumb.bottom - l.thumb.top, radius * 2, "{percent}%");
        assert!(
            l.thumb.left >= l.bar_track.left && l.thumb.right <= l.bar_track.right,
            "{percent}%: thumb {:?} overhangs track {:?}",
            l.thumb,
            l.bar_track
        );
    }
}

#[test]
fn layout_centres_the_bar_without_a_device_name() {
    let (w, h) = (scale(CARD_W, 96), scale(CARD_H, 96));
    let with_name = layout(w, h, 96, 24, true, 50);
    let without = layout(w, h, 96, 24, false, 50);
    assert_eq!(with_name.bar_track.bottom, CARD_H - PAD);
    assert_eq!(without.bar_track.bottom, CARD_H / 2 + BAR_H / 2);
}

#[test]
fn layout_zero_percent_draws_no_fill() {
    let (w, h) = (scale(CARD_W, 96), scale(CARD_H, 96));
    let l = layout(w, h, 96, 24, true, 0);
    assert_eq!(l.bar_fill.left, l.bar_fill.right, "0% must fill nothing");
    assert!(l.bar_track.left < l.bar_track.right, "track still drawn");
}

#[test]
fn scaling_rounds_to_the_nearest_pixel() {
    assert_eq!(scale(CARD_W, 96), 230);
    assert_eq!(scale(CARD_W, 144), 345);
    assert_eq!(scale(1, 120), 1);
    assert_eq!(scale(10, 130), 14);
    assert_eq!(scale(-10, 96), -9);
    assert_eq!(colorref(KEY_RGB), 0x00FF_00FF);
    assert_eq!(colorref((0x12, 0x34, 0x56)), 0x0056_3412);
}

#[test]
fn an_unknown_icon_anchors_at_the_bottom_centre() {
    assert_eq!(anchor_or_screen(None, 1920, 1080), (960, 1032, 0, 0));
    assert_eq!(anchor_or_screen(Some((1, 2, 3, 4)), 1920, 1080), (1, 2, 3, 4));
}

#[test]
fn the_track_and_state_box_do_not_move_with_the_level() {
    let (w, h, dpi, state_w) = (scale(CARD_W, 144), scale(CARD_H, 144), 144, 40);
    let at5 = layout(w, h, dpi, state_w, true, 5);
    let at100 = layout(w, h, dpi, state_w, true, 100);
    let muted = layout(w, h, dpi, state_w, true, 0);
    assert_eq!(at5.bar_track, at100.bar_track);
    assert_eq!(at5.state, at100.state);
    assert_eq!(at5.bar_track, muted.bar_track);
    assert_eq!(at5.state, muted.state);
    assert_ne!(at5.bar_fill, at100.bar_fill);
}

#[test]
fn a_zero_dpi_lays_out_without_failing() {
    let l = layout(230, 60, 0, 24, true, 50);
    assert_eq!(l.bar_track.left, scale(PAD, 0));
    assert!(l.bar_track.left <= l.bar_track.right);
    assert!(l.state.left >= l.bar_track.right);
}
