//! The low-level mouse hook's logic: which messages count as clicks, how a
//! wheel notch and the position it carried travel from the hook to the main
//! loop, and when a wheel gesture counts as "over the tray icon".
//!
//! Installing and removing the hook is the application's business; this module
//! holds what the hook procedure decides and the state it shares with the loop.

use vstd::prelude::*;
use crate::utf16;

verus! {

/// `WM_MOUSEMOVE`.
pub const WM_MOUSEMOVE: u32 = 0x0200;
/// `WM_LBUTTONDOWN`.
pub const WM_LBUTTONDOWN: u32 = 0x0201;
/// `WM_LBUTTONUP`.
pub const WM_LBUTTONUP: u32 = 0x0202;
/// `WM_RBUTTONDOWN`.
pub const WM_RBUTTONDOWN: u32 = 0x0204;
/// `WM_RBUTTONUP`.
pub const WM_RBUTTONUP: u32 = 0x0205;
/// `WM_MBUTTONDOWN`.
pub const WM_MBUTTONDOWN: u32 = 0x0207;
/// `WM_MOUSEWHEEL`.
pub const WM_MOUSEWHEEL: u32 = 0x020A;
/// `WM_XBUTTONDOWN`.
pub const WM_XBUTTONDOWN: u32 = 0x020B;
/// `WM_NCLBUTTONDOWN`.
pub const WM_NCLBUTTONDOWN: u32 = 0x00A1;
/// `WM_NCRBUTTONDOWN`.
pub const WM_NCRBUTTONDOWN: u32 = 0x00A4;
/// `WM_NCMBUTTONDOWN`.
pub const WM_NCMBUTTONDOWN: u32 = 0x00A7;
/// `WM_NCXBUTTONDOWN`.
pub const WM_NCXBUTTONDOWN: u32 = 0x00AB;

/// Tolerance around the tray icon's rectangle, in pixels (DPI rounding only).
pub const TRAY_PAD: i32 = 2;

/// The value a screen position is packed into: `x` in the high half, `y`'s
/// 32 bits in the low half.
pub open spec fn packed(x: i32, y: i32) -> int {
    x * 0x1_0000_0000 + (y as u32)
}

/// The high half of a packed word, a signed coordinate: what is left once the
/// low 32 bits are taken away, counted in units of 2^32.
pub open spec fn high_half(raw: i64) -> int {
    (raw - (raw as u32)) / 0x1_0000_0000
}

/// The low 32 bits of a packed word, read back as a signed coordinate.
pub open spec fn low_half(raw: i64) -> i32 {
    (raw as u32) as i32
}

/// Pack a screen position into one word (x high, y low). Coordinates are
/// signed: a monitor left of or above the primary screen has negative ones.
pub fn pack_point(x: i32, y: i32) -> (r: i64)
    ensures
        r == packed(x, y),
{
    let r = ((x as i64) << 32u64) | ((y as u32) as i64);
    assert(((x as i64) << 32u64) | ((y as u32) as i64) == (x as i64) * 0x1_0000_0000i64 + ((
    y as u32) as i64)) by (bit_vector);
    r
}

/// Inverse of [`pack_point`]: the high half and the low half, both read back
/// as signed coordinates.
pub fn unpack_point(raw: i64) -> (r: (i32, i32))
    ensures
        r.0 == high_half(raw),
        r.1 == low_half(raw),
{
    let hi = (raw >> 32u64) as i32;
    let lo = raw as i32;
    assert(((raw >> 32u64) as i32) as i64 * 0x1_0000_0000i64 + ((raw as u32) as i64) == raw)
        by (bit_vector);
    assert(raw as i32 == (raw as u32) as i32) by (bit_vector);
    assert((raw - (raw as u32)) == hi * 0x1_0000_0000);
    assert((hi * 0x1_0000_0000) / 0x1_0000_0000 == hi as int) by (nonlinear_arith);
    (hi, lo)
}

/// A packed position unpacks to the position that was packed, negative
/// coordinates included.
pub proof fn lemma_pack_round_trip(x: i32, y: i32)
    ensures
        high_half(packed(x, y) as i64) == x,
        low_half(packed(x, y) as i64) == y,
{
    let p: i64 = ((x as i64) * 0x1_0000_0000i64 + ((y as u32) as i64)) as i64;
    assert((x as i64) * 0x1_0000_0000i64 + ((y as u32) as i64) == ((x as i64) << 32u64) | ((
    y as u32) as i64)) by (bit_vector);
    assert(p == packed(x, y));
    assert(((((x as i64) << 32u64) | ((y as u32) as i64)) as u32) == (y as u32)) by (bit_vector);
    assert((((y as u32) as i32)) == y) by (bit_vector);
    assert(p - (p as u32) == x * 0x1_0000_0000);
    assert((x * 0x1_0000_0000) / 0x1_0000_0000 == x as int) by (nonlinear_arith);
}

/// Whether `msg` is a mouse button going down. Client and non-client downs
/// both count; ups, moves and the wheel do not.
pub fn is_button_down(msg: u32) -> (r: bool)
    ensures
        r == (msg == WM_LBUTTONDOWN || msg == WM_RBUTTONDOWN || msg == WM_MBUTTONDOWN || msg
            == WM_XBUTTONDOWN || msg == WM_NCLBUTTONDOWN || msg == WM_NCRBUTTONDOWN || msg
            == WM_NCMBUTTONDOWN || msg == WM_NCXBUTTONDOWN),
{
    msg == WM_LBUTTONDOWN || msg == WM_RBUTTONDOWN || msg == WM_MBUTTONDOWN || msg
        == WM_XBUTTONDOWN || msg == WM_NCLBUTTONDOWN || msg == WM_NCRBUTTONDOWN || msg
        == WM_NCMBUTTONDOWN || msg == WM_NCXBUTTONDOWN
}

/// What the hook procedure does with one message before forwarding it.
#[derive(Debug, Clone, Copy, PartialEq, Eq, Structural)]
pub enum HookAction {
    /// Record the wheel notch (delta and position).
    Wheel,
    /// Record that a button went down.
    Click,
    /// Nothing to record; only forward.
    Forward,
}

/// The hook procedure's decision: only `n_code >= 0` carries a message; a wheel
/// notch is recorded unless this thread is inside a menu loop (the roll is the
/// menu's), and a button down is a click.
pub fn hook_action(n_code: i32, msg: u32, in_menu_mode: bool) -> (r: HookAction)
    ensures
        r == (if n_code < 0 {
            HookAction::Forward
        } else if msg == WM_MOUSEWHEEL {
            if in_menu_mode {
                HookAction::Forward
            } else {
                HookAction::Wheel
            }
        } else if is_button_down_spec(msg) {
            HookAction::Click
        } else {
            HookAction::Forward
        }),
{
    if n_code < 0 {
        HookAction::Forward
    } else if msg == WM_MOUSEWHEEL {
        if in_menu_mode {
            HookAction::Forward
        } else {
            HookAction::Wheel
        }
    } else if is_button_down(msg) {
        HookAction::Click
    } else {
        HookAction::Forward
    }
}

/// [`is_button_down`] as a specification.
pub open spec fn is_button_down_spec(msg: u32) -> bool {
    msg == WM_LBUTTONDOWN || msg == WM_RBUTTONDOWN || msg == WM_MBUTTONDOWN || msg
        == WM_XBUTTONDOWN || msg == WM_NCLBUTTONDOWN || msg == WM_NCRBUTTONDOWN || msg
        == WM_NCMBUTTONDOWN || msg == WM_NCXBUTTONDOWN
}

/// The signed wheel delta in the high word of `MSLLHOOKSTRUCT::mouseData`.
pub open spec fn wheel_delta_spec(mouse_data: u32) -> int {
    let hi = mouse_data / 0x1_0000;
    if hi >= 0x8000 { hi - 0x1_0000 } else { hi as int }
}

/// Extract the signed wheel delta from `mouseData` (its high word).
pub fn wheel_delta(mouse_data: u32) -> (r: i32)
    ensures
        r == wheel_delta_spec(mouse_data),
{
    let r = ((mouse_data >> 16u32) as u16) as i16 as i32;
    assert(mouse_data >> 16u32 == mouse_data / 0x1_0000u32) by (bit_vector);
    assert((mouse_data >> 16u32) >= 0x8000u32 ==> ((mouse_data >> 16u32) as u16) as i16 as i32
        == ((mouse_data >> 16u32) as i32) - 0x1_0000i32) by (bit_vector);
    assert((mouse_data >> 16u32) < 0x8000u32 ==> ((mouse_data >> 16u32) as u16) as i16 as i32
        == ((mouse_data >> 16u32) as i32)) by (bit_vector);
    r
}

/// One drained wheel event: the accumulated delta and where it came from.
#[derive(Debug, Clone, Copy, PartialEq, Eq)]
pub struct WheelEvent {
    /// Accumulated `WHEEL_DELTA` units, sign included.
    pub delta: i32,
    /// Cursor position reported with the (last) notch.
    pub at: (i32, i32),
}

/// What the hook shares with the main loop: the accumulated delta, whether a
/// notch is pending, the packed position of the last notch, and whether a
/// button went down since the last poll.
#[derive(Debug, Clone, Copy)]
pub struct HookShared {
    pub delta: i32,
    pub pending: bool,
    pub at: i64,
    pub clicked: bool,
}

impl HookShared {
    /// Nothing recorded yet.
    pub fn new() -> (r: HookShared)
        ensures
            r.delta == 0,
            !r.pending,
            r.at == 0,
            !r.clicked,
    {
        HookShared { delta: 0, pending: false, at: 0, clicked: false }
    }

    /// The hook saw a wheel notch of `delta` at `(x, y)`: the position is
    /// stored with it, the delta accumulates (wrapping, as the atomic add
    /// does), and the event is marked pending.
    pub fn record_wheel(&mut self, delta: i32, x: i32, y: i32)
        ensures
            final(self).delta == old(self).delta.wrapping_add(delta),
            final(self).pending,
            final(self).at == packed(x, y),
            final(self).clicked == old(self).clicked,
    {
        self.at = pack_point(x, y);
        self.delta = self.delta.wrapping_add(delta);
        self.pending = true;
    }

    /// The hook saw a button go down.
    pub fn record_click(&mut self)
        ensures
            final(self).clicked,
            final(self).delta == old(self).delta,
            final(self).pending == old(self).pending,
            final(self).at == old(self).at,
    {
        self.clicked = true;
    }

    /// Take the pending wheel event, `None` when nothing arrived. Delta and
    /// flag are taken together; a nonzero delta counts as an event even if the
    /// flag was not seen.
    pub fn take_wheel_event(&mut self) -> (r: Option<WheelEvent>)
        ensures
            final(self).delta == 0,
            !final(self).pending,
            final(self).at == old(self).at,
            final(self).clicked == old(self).clicked,
            r == (if !old(self).pending && old(self).delta == 0 {
                None::<WheelEvent>
            } else {
                Some(
                    WheelEvent {
                        delta: old(self).delta,
                        at: (high_half(old(self).at) as i32, low_half(old(self).at)),
                    },
                )
            }),
    {
        let delta = self.delta;
        let pending = self.pending;
        self.delta = 0;
        self.pending = false;
        if !pending && delta == 0 {
            return None;
        }
        let at = unpack_point(self.at);
        Some(WheelEvent { delta, at })
    }

    /// Take the click flag: did a button go down since the last poll?
    pub fn take_click(&mut self) -> (r: bool)
        ensures
            r == old(self).clicked,
            !final(self).clicked,
            final(self).delta == old(self).delta,
            final(self).pending == old(self).pending,
            final(self).at == old(self).at,
    {
        let r = self.clicked;
        self.clicked = false;
        r
    }
}

/// A notch recorded by the hook reaches the loop with its own delta and the
/// position it carried; taking it again yields nothing.
pub proof fn lemma_wheel_event_carries_its_position(s: HookShared, delta: i32, x: i32, y: i32)
    requires
        s.delta == 0,
        !s.pending,
    ensures
        ({
            let after = HookShared { delta: s.delta.wrapping_add(delta), pending: true, at: packed(x, y) as i64, clicked: s.clicked };
            &&& after.delta == delta
            &&& high_half(after.at) == x
            &&& low_half(after.at) == y
        }),
{
    lemma_pack_round_trip(x, y);
    assert(0i32.wrapping_add(delta) == delta) by {
        assert(vstd::wrapping::i32_specs::wrapping_add(0i32, delta) == delta);
    }
}

/// Known taskbar and tray window classes (the overlay's own class included:
/// rolling over the card keeps adjusting the volume).
pub const TRAY_CLASSES: [&'static str; 6] = [
    "Shell_TrayWnd",
    "Shell_SecondaryTrayWnd",
    "NotifyIconOverflowWindow",
    "TopLevelWindowForOverflowXamlIsland",
    "TrayNotifyWnd",
    "AudioSwitcherVolumeOsd",
];

/// Whether the UTF-16 class name equals the encoding of one of `TRAY_CLASSES`.
pub open spec fn is_tray_class_spec(class_name: Seq<u16>) -> bool {
    exists|i: int| 0 <= i < 6 && #[trigger] utf16::encode_utf16(TRAY_CLASSES[i]@) == class_name
}

/// Whether two UTF-16 slices hold the same units.
fn units_equal(a: &[u16], b: &[u16]) -> (r: bool)
    ensures
        r == (a@ == b@),
{
    if a.len() != b.len() {
        return false;
    }
    let mut i: usize = 0;
    while i < a.len()
        invariant
            a.len() == b.len(),
            i <= a.len(),
            forall|k: int| 0 <= k < i ==> a@[k] == b@[k],
        decreases a.len() - i,
    {
        if a[i] != b[i] {
            return false;
        }
        i = i + 1;
    }
    assert(a@ =~= b@);
    true
}

/// Whether the UTF-16 window class `class_name` is a known taskbar or tray
/// window.
pub fn is_tray_class_name(class_name: &[u16]) -> (r: bool)
    ensures
        r == is_tray_class_spec(class_name@),
{
    let mut i: usize = 0;
    while i < 6
        invariant
            i <= 6,
            forall|k: int| 0 <= k < i ==> utf16::encode_utf16(#[trigger] TRAY_CLASSES[k]@) != class_name@,
        decreases 6 - i,
    {
        let name = TRAY_CLASSES[i];
        let mut wide: Vec<u16> = Vec::new();
        utf16::wide_into(&mut wide, name);
        if units_equal(wide.as_slice(), class_name) {
            return true;
        }
        i = i + 1;
    }
    false
}

/// Whether `at` lies in the icon rectangle `(x, y, width, height)` widened by
/// [`TRAY_PAD`] on every side (right and bottom edges exclusive).
pub open spec fn in_padded_rect(rect: (i32, i32, i32, i32), at: (i32, i32)) -> bool {
    let (rx, ry, rw, rh) = rect;
    &&& at.0 >= rx - TRAY_PAD
    &&& at.0 < rx + rw + TRAY_PAD
    &&& at.1 >= ry - TRAY_PAD
    &&& at.1 < ry + rh + TRAY_PAD
}

/// The wheel gate's first half: `None` when the icon rectangle is unknown,
/// otherwise whether the gesture's position is inside the padded rectangle.
/// (The second half, whether the window there belongs to the taskbar, asks
/// the system.)
pub fn icon_hit(rect: Option<(i32, i32, i32, i32)>, at: (i32, i32)) -> (r: Option<bool>)
    ensures
        r == (match rect {
            None => None,
            Some(rc) => Some(in_padded_rect(rc, at)),
        }),
{
    match rect {
        None => None,
        Some((rx, ry, rw, rh)) => {
            let (x, y) = (at.0 as i64, at.1 as i64);
            let pad = TRAY_PAD as i64;
            let (rx, ry, rw, rh) = (rx as i64, ry as i64, rw as i64, rh as i64);
            Some(x >= rx - pad && x < rx + rw + pad && y >= ry - pad && y < ry + rh + pad)
        },
    }
}

/// Whether a wheel gesture at `at` is over the tray icon: inside the padded
/// icon rectangle and over a taskbar or tray window. `None` when the icon
/// rectangle is unknown.
pub fn cursor_over_tray(
    rect: Option<(i32, i32, i32, i32)>,
    at: (i32, i32),
    window_is_tray: bool,
) -> (r: Option<bool>)
    ensures
        r == (match rect {
            None => None,
            Some(rc) => Some(in_padded_rect(rc, at) && window_is_tray),
        }),
{
    match icon_hit(rect, at) {
        None => None,
        Some(false) => Some(false),
        Some(true) => Some(window_is_tray),
    }
}

/// An installed hook, by its raw handle. `0` is never a live hook.
#[derive(Debug)]
pub struct WheelHook {
    handle: isize,
}

impl WheelHook {
    /// Adopt the handle `SetWindowsHookExW` returned; a null handle is no hook.
    pub fn install(handle: isize) -> (r: Option<WheelHook>)
        ensures
            r matches Some(h) ==> h.handle() == handle,
            r is Some <==> handle != 0,
    {
        if handle == 0 {
            None
        } else {
            Some(WheelHook { handle })
        }
    }

    pub closed spec fn handle(&self) -> isize {
        self.handle
    }

    /// The raw handle to unhook on drop.
    pub fn raw(&self) -> (r: isize)
        ensures
            r == self.handle(),
    {
        self.handle
    }
}

} // verus!
