//! Volume overlay geometry: where the card goes next to the tray icon, and
//! where each of its elements goes inside it, in physical pixels.
//!
//! The card is sized in logical pixels and scaled by the screen DPI; the
//! window and the painting live with the application.

use vstd::prelude::*;

verus! {

/// Gap between the tray icon and the overlay, logical pixels.
pub const GAP: i32 = 10;
/// Card width, logical pixels.
pub const CARD_W: i32 = 230;
/// Card height, logical pixels.
pub const CARD_H: i32 = 60;
/// Inner padding of the card.
pub const PAD: i32 = 12;
/// Top of the device-name line.
pub const NAME_TOP: i32 = 6;
/// Height of the device-name line.
pub const NAME_H: i32 = 20;
/// Slider track thickness.
pub const BAR_H: i32 = 4;
/// Slider thumb diameter.
pub const THUMB_D: i32 = 12;
/// Card corner radius (the small menu corner).
pub const RADIUS: i32 = 4;
/// Text size used when the shell reports no menu font.
pub const FALLBACK_TEXT_PX: i32 = 12;
/// The colour keyed out of the layered window, as `(r, g, b)`.
pub const KEY_RGB: (u8, u8, u8) = (0xFF, 0x00, 0xFF);

/// Division rounding toward zero, as Rust's integer `/` does.
pub open spec fn trunc_div(a: int, d: int) -> int {
    if a >= 0 { a / d } else { -((-a) / d) }
}

/// `a / d` for `d > 0`, rounding toward zero.
fn div_trunc(a: i32, d: i32) -> (r: i32)
    requires
        d > 0,
    ensures
        r == trunc_div(a as int, d as int),
{
    if a >= 0 {
        a / d
    } else {
        let n: i64 = -(a as i64);
        let q: i64 = n / (d as i64);
        proof {
            assert(0 <= q <= n) by (nonlinear_arith)
                requires n >= 1, d >= 1, q == n / (d as i64);
        }
        (-q) as i32
    }
}

/// Logical pixels to physical, rounded: `(v * dpi + 48) / 96`.
pub open spec fn scaled(v: int, dpi: int) -> int {
    trunc_div(v * dpi + 48, 96)
}

/// Logical pixels to physical, rounded.
pub fn scale(v: i32, dpi: i32) -> (r: i32)
    requires
        i32::MIN <= v * dpi,
        v * dpi + 48 <= i32::MAX,
    ensures
        r == scaled(v as int, dpi as int),
{
    let n: i32 = v * dpi + 48;
    div_trunc(n, 96)
}

/// `COLORREF` packing: `0x00BBGGRR`.
pub open spec fn colorref_spec(r: u8, g: u8, b: u8) -> u32 {
    (r + g * 0x100 + b * 0x1_0000) as u32
}

/// Pack an `(r, g, b)` colour as a `COLORREF` (`0x00BBGGRR`, not RGB).
pub fn colorref(rgb: (u8, u8, u8)) -> (r: u32)
    ensures
        r == colorref_spec(rgb.0, rgb.1, rgb.2),
{
    let (r, g, b) = rgb;
    let v = (r as u32) | ((g as u32) << 8u32) | ((b as u32) << 16u32);
    assert((r as u32) | ((g as u32) << 8u32) | ((b as u32) << 16u32) == (r as u32) + (g as u32)
        * 0x100u32 + (b as u32) * 0x1_0000u32) by (bit_vector);
    v
}

/// `v` held inside `[lo, max(hi, lo)]`.
pub open spec fn clamp_spec(v: int, lo: int, hi: int) -> int {
    let top = if hi > lo { hi } else { lo };
    if v < lo { lo } else if v > top { top } else { v }
}

/// The card's `(x, y)`: above the icon and centred on it, flipped below when
/// the work area leaves no room above, then clamped into the work area.
pub open spec fn fit_spec(
    anchor: (i32, i32, i32, i32),
    w: i32,
    h: i32,
    gap: i32,
    work: (i32, i32, i32, i32),
) -> (int, int) {
    let (ax, ay, aw, ah) = anchor;
    let (wl, wt, wr, wb) = work;
    let x = ax + trunc_div(aw as int, 2) - trunc_div(w as int, 2);
    let above = ay - h - gap;
    let y = if above < wt { ay + ah + gap } else { above };
    (clamp_spec(x, wl as int, wr - w), clamp_spec(y, wt as int, wb - h))
}

/// Whether every intermediate of [`fit`] fits in `i32`.
pub open spec fn fit_in_range(
    anchor: (i32, i32, i32, i32),
    w: i32,
    h: i32,
    gap: i32,
    work: (i32, i32, i32, i32),
) -> bool {
    let (ax, ay, aw, ah) = anchor;
    let (wl, wt, wr, wb) = work;
    &&& i32::MIN <= ax + trunc_div(aw as int, 2) <= i32::MAX
    &&& i32::MIN <= ax + trunc_div(aw as int, 2) - trunc_div(w as int, 2) <= i32::MAX
    &&& i32::MIN <= ay - h <= i32::MAX
    &&& i32::MIN <= ay - h - gap <= i32::MAX
    &&& i32::MIN <= ay + ah <= i32::MAX
    &&& i32::MIN <= ay + ah + gap <= i32::MAX
    &&& i32::MIN <= wr - w <= i32::MAX
    &&& i32::MIN <= wb - h <= i32::MAX
}

fn clamp_i32(v: i32, lo: i32, hi: i32) -> (r: i32)
    ensures
        r == clamp_spec(v as int, lo as int, hi as int),
{
    let top = if hi > lo { hi } else { lo };
    if v < lo {
        lo
    } else if v > top {
        top
    } else {
        v
    }
}

/// Fit a `w`x`h` card a `gap` away from `anchor` (`x, y, width, height`),
/// inside `work` (`left, top, right, bottom`).
pub fn fit(
    anchor: (i32, i32, i32, i32),
    w: i32,
    h: i32,
    gap: i32,
    work: (i32, i32, i32, i32),
) -> (r: (i32, i32))
    requires
        fit_in_range(anchor, w, h, gap, work),
    ensures
        (r.0 as int, r.1 as int) == fit_spec(anchor, w, h, gap, work),
{
    let (ax, ay, aw, ah) = anchor;
    let (wl, wt, wr, wb) = work;
    let x = ax + div_trunc(aw, 2) - div_trunc(w, 2);
    let mut y = ay - h - gap;
    if y < wt {
        y = ay + ah + gap;
    }
    (clamp_i32(x, wl, wr - w), clamp_i32(y, wt, wb - h))
}

/// The placed card never leaves the work area when it fits in it.
pub proof fn lemma_fit_stays_in_work_area(
    anchor: (i32, i32, i32, i32),
    w: i32,
    h: i32,
    gap: i32,
    work: (i32, i32, i32, i32),
)
    requires
        work.0 + w <= work.2,
        work.1 + h <= work.3,
    ensures
        work.0 <= fit_spec(anchor, w, h, gap, work).0,
        fit_spec(anchor, w, h, gap, work).0 + w <= work.2,
        work.1 <= fit_spec(anchor, w, h, gap, work).1,
        fit_spec(anchor, w, h, gap, work).1 + h <= work.3,
{
}

/// A rectangle in physical pixels.
#[derive(Debug, Clone, Copy, PartialEq, Eq, Structural)]
pub struct Rect {
    pub left: i32,
    pub top: i32,
    pub right: i32,
    pub bottom: i32,
}

/// Where each element of the card goes.
#[derive(Debug, Clone, Copy, PartialEq, Eq, Structural)]
pub struct Layout {
    pub name: Rect,
    pub bar_track: Rect,
    pub bar_fill: Rect,
    /// Bounding box of the round slider thumb.
    pub thumb: Rect,
    pub state: Rect,
}

/// The percentage as the slider reads it: values beyond `i32` count as zero.
pub open spec fn percent_i32(percent: u32) -> int {
    if percent <= i32::MAX { percent as int } else { 0 }
}

/// Bottom edge of the slider: bottom-aligned under a device line, centred
/// without one.
pub open spec fn bar_bottom_spec(h: i32, dpi: i32, has_name: bool) -> int {
    if has_name {
        scaled(CARD_H - PAD, dpi as int)
    } else {
        trunc_div(h as int, 2) + trunc_div(scaled(BAR_H as int, dpi as int), 2)
    }
}

/// Right edge of the slider: short of the state text, at least a few pixels
/// long.
pub open spec fn bar_right_spec(w: i32, dpi: i32, state_w: i32) -> int {
    let left = scaled(PAD as int, dpi as int);
    let r = w - left - state_w - scaled(10, dpi as int);
    let least = left + scaled(4, dpi as int);
    if r > least { r } else { least }
}

/// The card layout, element by element.
pub open spec fn layout_spec(w: i32, h: i32, dpi: i32, state_w: i32, has_name: bool, percent: u32) -> (
    int,
    int,
    int,
    int,
    int,
    int,
    int,
) {
    let bar_bottom = bar_bottom_spec(h, dpi, has_name);
    let bar_top = bar_bottom - scaled(BAR_H as int, dpi as int);
    let bar_left = scaled(PAD as int, dpi as int);
    let bar_right = bar_right_spec(w, dpi, state_w);
    let fill_w = trunc_div((bar_right - bar_left) * percent_i32(percent), 100);
    let radius = trunc_div(scaled(THUMB_D as int, dpi as int), 2);
    let head = bar_left + fill_w;
    let centre = clamp_spec(head, bar_left + radius, bar_right - radius);
    let mid = trunc_div(bar_top + bar_bottom, 2);
    (bar_top, bar_bottom, bar_left, bar_right, head, centre, mid)
}

/// Whether `v` fits in `i32`.
pub open spec fn fits(v: int) -> bool {
    i32::MIN <= v <= i32::MAX
}

/// Whether every intermediate of [`layout`] fits in `i32`: the scaled
/// lengths (at most 48 logical pixels) and the sums built from them.
pub open spec fn layout_in_range(w: i32, h: i32, dpi: i32, state_w: i32, has_name: bool, percent: u32) -> bool {
    let (bar_top, bar_bottom, bar_left, bar_right, head, centre, mid) = layout_spec(
        w,
        h,
        dpi,
        state_w,
        has_name,
        percent,
    );
    let radius = trunc_div(scaled(THUMB_D as int, dpi as int), 2);
    &&& fits(48 * dpi)
    &&& fits(48 * dpi + 48)
    &&& fits(w - scaled(PAD as int, dpi as int))
    &&& fits(w - scaled(PAD as int, dpi as int) - state_w)
    &&& fits(w - scaled(PAD as int, dpi as int) - state_w - scaled(10, dpi as int))
    &&& fits(trunc_div(h as int, 2) + trunc_div(scaled(BAR_H as int, dpi as int), 2))
    &&& fits(bar_top)
    &&& fits(bar_right - bar_left)
    &&& fits((bar_right - bar_left) * percent_i32(percent))
    &&& fits(head)
    &&& fits(bar_right - radius)
    &&& fits(bar_top + bar_bottom)
    &&& fits(bar_right + scaled(8, dpi as int))
    &&& fits(bar_top - scaled(8, dpi as int))
    &&& fits(bar_bottom + scaled(8, dpi as int))
    &&& fits(centre - radius)
    &&& fits(centre + radius)
    &&& fits(mid - radius)
    &&& fits(mid + radius)
}

/// The rectangles [`layout`] returns.
pub open spec fn layout_rects(w: i32, h: i32, dpi: i32, state_w: i32, has_name: bool, percent: u32) -> Layout {
    let (bar_top, bar_bottom, bar_left, bar_right, head, centre, mid) = layout_spec(
        w,
        h,
        dpi,
        state_w,
        has_name,
        percent,
    );
    let radius = trunc_div(scaled(THUMB_D as int, dpi as int), 2);
    Layout {
        name: Rect {
            left: scaled(PAD as int, dpi as int) as i32,
            top: scaled(NAME_TOP as int, dpi as int) as i32,
            right: (w - scaled(PAD as int, dpi as int)) as i32,
            bottom: scaled(NAME_TOP + NAME_H, dpi as int) as i32,
        },
        bar_track: Rect {
            left: bar_left as i32,
            top: bar_top as i32,
            right: bar_right as i32,
            bottom: bar_bottom as i32,
        },
        bar_fill: Rect {
            left: bar_left as i32,
            top: bar_top as i32,
            right: head as i32,
            bottom: bar_bottom as i32,
        },
        thumb: Rect {
            left: (centre - radius) as i32,
            top: (mid - radius) as i32,
            right: (centre + radius) as i32,
            bottom: (mid + radius) as i32,
        },
        state: Rect {
            left: (bar_right + scaled(8, dpi as int)) as i32,
            top: (bar_top - scaled(8, dpi as int)) as i32,
            right: (w - scaled(PAD as int, dpi as int)) as i32,
            bottom: (bar_bottom + scaled(8, dpi as int)) as i32,
        },
    }
}

/// A length of at most 48 logical pixels scales without overflow, to a value
/// small enough that a few of them add up inside `i32`.
proof fn lemma_scaled_bounded(v: int, dpi: int)
    requires
        0 <= v <= 48,
        i32::MIN <= 48 * dpi,
        48 * dpi + 48 <= i32::MAX,
    ensures
        i32::MIN <= v * dpi,
        v * dpi + 48 <= i32::MAX,
        -22_369_623 <= scaled(v, dpi) <= 22_369_622,
        dpi >= 0 ==> scaled(v, dpi) >= 0,
{
    if dpi >= 0 {
        assert(0 <= v * dpi <= 48 * dpi) by (nonlinear_arith)
            requires 0 <= v <= 48, dpi >= 0;
    } else {
        assert(48 * dpi <= v * dpi <= 0) by (nonlinear_arith)
            requires 0 <= v <= 48, dpi < 0;
    }
}

/// The slider keeps one length whatever the read-out says: for a given card,
/// DPI, state-text width and device line, the track and the state text's box
/// are the same at every level.
pub proof fn lemma_slider_keeps_one_length(
    w: i32,
    h: i32,
    dpi: i32,
    state_w: i32,
    has_name: bool,
    p1: u32,
    p2: u32,
)
    ensures
        layout_rects(w, h, dpi, state_w, has_name, p1).bar_track == layout_rects(
            w,
            h,
            dpi,
            state_w,
            has_name,
            p2,
        ).bar_track,
        layout_rects(w, h, dpi, state_w, has_name, p1).state == layout_rects(
            w,
            h,
            dpi,
            state_w,
            has_name,
            p2,
        ).state,
{
}

/// The thumb rides the fill head: its centre is the fill's right end held
/// inside the track (a radius in from either end), and the fill starts at the
/// track's left end and covers `percent` of the track, rounded toward zero.
/// So the thumb moves with the level.
pub proof fn lemma_thumb_rides_the_fill_head(
    w: i32,
    h: i32,
    dpi: i32,
    state_w: i32,
    has_name: bool,
    percent: u32,
)
    requires
        layout_in_range(w, h, dpi, state_w, has_name, percent),
    ensures
        ({
            let l = layout_rects(w, h, dpi, state_w, has_name, percent);
            let radius = (l.thumb.right - l.thumb.left) / 2;
            &&& l.thumb.right - l.thumb.left == 2 * radius
            &&& l.thumb.left + l.thumb.right == 2 * clamp_spec(
                l.bar_fill.right as int,
                l.bar_track.left + radius,
                l.bar_track.right - radius,
            )
            &&& l.bar_fill.left == l.bar_track.left
            &&& percent <= 100 ==> l.bar_fill.right - l.bar_fill.left == trunc_div(
                (l.bar_track.right - l.bar_track.left) * percent,
                100,
            )
        }),
{
    lemma_layout_fits(w, h, dpi, state_w, has_name, percent);
}

proof fn lemma_layout_fits(w: i32, h: i32, dpi: i32, state_w: i32, has_name: bool, percent: u32)
    requires
        layout_in_range(w, h, dpi, state_w, has_name, percent),
    ensures
        ({
            let (bar_top, bar_bottom, bar_left, bar_right, head, centre, mid) = layout_spec(
                w,
                h,
                dpi,
                state_w,
                has_name,
                percent,
            );
            fits(bar_left) && fits(bar_right) && fits(head) && fits(trunc_div(
                scaled(THUMB_D as int, dpi as int),
                2,
            ))
        }),
{
    lemma_scaled_bounded(PAD as int, dpi as int);
    lemma_scaled_bounded(THUMB_D as int, dpi as int);
    lemma_scaled_bounded(4, dpi as int);
    lemma_scaled_bounded(10, dpi as int);
}

/// Lay the card out for a `w`x`h` card and a state text `state_w` wide;
/// `has_name` is whether a device line is shown, `percent` the level.
///
/// When the track is at least one thumb long, the thumb stays on it; a level
/// up to 100% never fills past a non-empty track; 0% fills nothing; at a
/// non-negative DPI the state text starts right of the track; from 12 DPI up
/// the track is never empty.
pub fn layout(w: i32, h: i32, dpi: i32, state_w: i32, has_name: bool, percent: u32) -> (r: Layout)
    requires
        layout_in_range(w, h, dpi, state_w, has_name, percent),
    ensures
        r == layout_rects(w, h, dpi, state_w, has_name, percent),
        r.thumb.right - r.thumb.left == 2 * trunc_div(scaled(THUMB_D as int, dpi as int), 2),
        r.bar_track.right - r.bar_track.left >= r.thumb.right - r.thumb.left ==> r.bar_track.left
            <= r.thumb.left && r.thumb.right <= r.bar_track.right,
        dpi >= 0 ==> r.bar_track.left <= r.bar_track.right,
        dpi >= 12 ==> r.bar_track.left < r.bar_track.right,
        percent == 0 ==> r.bar_fill.left == r.bar_fill.right,
        percent <= 100 && r.bar_track.left <= r.bar_track.right ==> r.bar_fill.left
            <= r.bar_fill.right <= r.bar_track.right,
        dpi >= 0 ==> r.state.left >= r.bar_track.right,
{
    proof {
        lemma_scaled_bounded(PAD as int, dpi as int);
        lemma_scaled_bounded(BAR_H as int, dpi as int);
        lemma_scaled_bounded(THUMB_D as int, dpi as int);
        lemma_scaled_bounded(10, dpi as int);
        lemma_scaled_bounded(4, dpi as int);
        lemma_scaled_bounded(8, dpi as int);
        lemma_scaled_bounded(NAME_TOP as int, dpi as int);
        lemma_scaled_bounded((NAME_TOP + NAME_H) as int, dpi as int);
        lemma_scaled_bounded((CARD_H - PAD) as int, dpi as int);
    }
    let pad = scale(PAD, dpi);
    let bar_h = scale(BAR_H, dpi);
    let bar_bottom = if has_name {
        scale(CARD_H - PAD, dpi)
    } else {
        div_trunc(h, 2) + div_trunc(bar_h, 2)
    };
    let bar_top = bar_bottom - bar_h;
    let bar_left = pad;
    let r0 = w - pad - state_w - scale(10, dpi);
    let least = bar_left + scale(4, dpi);
    let bar_right = if r0 > least { r0 } else { least };
    let p: i32 = if percent <= 0x7fff_ffffu32 { percent as i32 } else { 0 };
    let span = bar_right - bar_left;
    proof {
        if dpi >= 12 {
            assert(4 * dpi + 48 >= 96) by (nonlinear_arith) requires dpi >= 12;
        }
    }
    let fill_w = div_trunc(span * p, 100);
    proof {
        if percent <= 100 && span >= 0 {
            assert(0 <= span * p <= span * 100) by (nonlinear_arith)
                requires span >= 0, 0 <= p <= 100;
            assert(fill_w <= span);
        }
        if percent == 0 {
            assert(span * p == 0) by (nonlinear_arith) requires p == 0;
        }
    }
    let radius = div_trunc(scale(THUMB_D, dpi), 2);
    let head = bar_left + fill_w;
    let centre = clamp_i32(head, bar_left + radius, bar_right - radius);
    let mid = div_trunc(bar_top + bar_bottom, 2);
    Layout {
        name: Rect {
            left: pad,
            top: scale(NAME_TOP, dpi),
            right: w - pad,
            bottom: scale(NAME_TOP + NAME_H, dpi),
        },
        bar_track: Rect { left: bar_left, top: bar_top, right: bar_right, bottom: bar_bottom },
        bar_fill: Rect { left: bar_left, top: bar_top, right: head, bottom: bar_bottom },
        thumb: Rect {
            left: centre - radius,
            top: mid - radius,
            right: centre + radius,
            bottom: mid + radius,
        },
        state: Rect {
            left: bar_right + scale(8, dpi),
            top: bar_top - scale(8, dpi),
            right: w - pad,
            bottom: bar_bottom + scale(8, dpi),
        },
    }
}

/// Where the card anchors when the tray icon's rectangle is unknown: the
/// bottom centre of the primary screen, just above a bottom taskbar.
pub fn anchor_or_screen(anchor: Option<(i32, i32, i32, i32)>, screen_w: i32, screen_h: i32) -> (r: (
    i32,
    i32,
    i32,
    i32,
))
    requires
        screen_h >= i32::MIN + 48,
    ensures
        r == (match anchor {
            Some(a) => a,
            None => (trunc_div(screen_w as int, 2) as i32, (screen_h - 48) as i32, 0i32, 0i32),
        }),
{
    match anchor {
        Some(a) => a,
        None => (div_trunc(screen_w, 2), screen_h - 48, 0, 0),
    }
}

} // verus!
