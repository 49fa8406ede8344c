//! Message boxes and the one-shot centring of dialogs: where a window goes to
//! sit in the middle of its monitor's work area, and which window counts as
//! the dialog a launch just produced.

use vstd::prelude::*;
use crate::utf16;

verus! {

/// `MB_OK`.
pub const MB_OK: u32 = 0x0000_0000;
/// `MB_ICONERROR`.
pub const MB_ICONERROR: u32 = 0x0000_0010;
/// `MB_ICONWARNING`.
pub const MB_ICONWARNING: u32 = 0x0000_0030;
/// `MB_TOPMOST`.
pub const MB_TOPMOST: u32 = 0x0004_0000;

/// Window class of a standard dialog box.
pub const DIALOG_CLASS: &'static str = "#32770";

/// The message-box style: a regular error box is a warning that must not
/// steal focus; a critical startup box is an error that stays on top.
pub fn msgbox_style(critical: bool) -> (r: u32)
    ensures
        r == (if critical { MB_OK | MB_ICONERROR | MB_TOPMOST } else { MB_OK | MB_ICONWARNING }),
{
    if critical {
        MB_OK | MB_ICONERROR | MB_TOPMOST
    } else {
        MB_OK | MB_ICONWARNING
    }
}

/// Where a window of the given rectangle (`left, top, right, bottom`) goes to
/// be centred in a work area (`x, y, width, height`): `None` for an empty
/// window; otherwise the area's origin plus half of the room left over (none
/// when the window is larger than the area).
pub open spec fn centered_spec(window: (i32, i32, i32, i32), area: (i32, i32, i32, i32)) -> Option<
    (int, int),
> {
    let w = window.2 - window.0;
    let h = window.3 - window.1;
    if w <= 0 || h <= 0 {
        None
    } else {
        let room_w = if area.2 - w > 0 { area.2 - w } else { 0 };
        let room_h = if area.3 - h > 0 { area.3 - h } else { 0 };
        Some((area.0 + room_w / 2, area.1 + room_h / 2))
    }
}

/// Whether the arithmetic of [`centered_position`] stays in `i32`.
pub open spec fn centering_in_range(window: (i32, i32, i32, i32), area: (i32, i32, i32, i32)) -> bool {
    let w = window.2 - window.0;
    let h = window.3 - window.1;
    &&& i32::MIN <= w <= i32::MAX
    &&& i32::MIN <= h <= i32::MAX
    &&& i32::MIN <= area.2 - w <= i32::MAX
    &&& i32::MIN <= area.3 - h <= i32::MAX
    &&& (area.2 - w > 0 ==> area.0 + (area.2 - w) / 2 <= i32::MAX)
    &&& (area.3 - h > 0 ==> area.1 + (area.3 - h) / 2 <= i32::MAX)
}

/// The centred position of a window in a work area (see [`centered_spec`]).
pub fn centered_position(window: (i32, i32, i32, i32), area: (i32, i32, i32, i32)) -> (r: Option<
    (i32, i32),
>)
    requires
        centering_in_range(window, area),
    ensures
        match (r, centered_spec(window, area)) {
            (Some(p), Some(q)) => p.0 == q.0 && p.1 == q.1,
            (None, None) => true,
            _ => false,
        },
{
    let w = window.2 - window.0;
    let h = window.3 - window.1;
    if w <= 0 || h <= 0 {
        return None;
    }
    let room_w = if area.2 - w > 0 { area.2 - w } else { 0 };
    let room_h = if area.3 - h > 0 { area.3 - h } else { 0 };
    Some((area.0 + room_w / 2, area.1 + room_h / 2))
}

/// A window that fits in the work area lands wholly inside it, with equal
/// room (to a pixel) on both sides.
pub proof fn lemma_centered_window_fits(window: (i32, i32, i32, i32), area: (i32, i32, i32, i32))
    requires
        window.2 - window.0 > 0,
        window.3 - window.1 > 0,
        window.2 - window.0 <= area.2,
        window.3 - window.1 <= area.3,
    ensures
        ({
            let p = centered_spec(window, area)->Some_0;
            let w = window.2 - window.0;
            let h = window.3 - window.1;
            &&& area.0 <= p.0
            &&& p.0 + w <= area.0 + area.2
            &&& area.1 <= p.1
            &&& p.1 + h <= area.1 + area.3
            &&& (area.0 + area.2 - (p.0 + w)) - (p.0 - area.0) <= 1
            &&& (area.0 + area.2 - (p.0 + w)) - (p.0 - area.0) >= 0
        }),
{
}

/// Whether a window is the dialog a launch produced: visible, of the dialog
/// class, and not among the dialogs already on screen before the launch.
pub open spec fn is_new_dialog_spec(hwnd: isize, visible: bool, class_name: Seq<u16>, known: Seq<
    isize,
>) -> bool {
    visible && class_name == utf16::encode_utf16(DIALOG_CLASS@) && !known.contains(hwnd)
}

/// The match for the dialog a launch produced (see [`is_new_dialog_spec`]);
/// `class_name` is the window's class as UTF-16.
pub fn is_new_dialog(hwnd: isize, visible: bool, class_name: &[u16], known: &[isize]) -> (r: bool)
    ensures
        r == is_new_dialog_spec(hwnd, visible, class_name@, known@),
{
    if !visible {
        return false;
    }
    let mut class: Vec<u16> = Vec::new();
    utf16::wide_into(&mut class, DIALOG_CLASS);
    if class.len() != class_name.len() {
        return false;
    }
    let mut i: usize = 0;
    while i < class.len()
        invariant
            class@.len() == class_name@.len(),
            class@ == utf16::encode_utf16(DIALOG_CLASS@),
            i <= class@.len(),
            forall|k: int| 0 <= k < i ==> class@[k] == class_name@[k],
        decreases class.len() - i,
    {
        if class[i] != class_name[i] {
            return false;
        }
        i = i + 1;
    }
    assert(class@ =~= class_name@);
    let mut j: usize = 0;
    while j < known.len()
        invariant
            j <= known@.len(),
            visible,
            class_name@ == utf16::encode_utf16(DIALOG_CLASS@),
            forall|k: int| 0 <= k < j ==> known@[k] != hwnd,
        decreases known.len() - j,
    {
        if known[j] == hwnd {
            return false;
        }
        j = j + 1;
    }
    true
}

} // verus!
