//! The decisions the message loop makes each frame: the menu entries that are
//! pure config changes, the step math of the volume and device actions, and
//! the timing of the coalesced device rebuild, the overlay and the wait.
//!
//! Times are microseconds on one monotonic clock, read by the caller.

use vstd::prelude::*;
use vstd::string::*;
use crate::config::{self, AppConfig, Lang};
use crate::menu::{MenuAction, MenuActionView};

verus! {

/// Whether a volume gesture lifts mute: volume-up clears it, volume-down
/// leaves it (asking for less sound is not asking for sound).
pub fn lifts_mute(delta: i32, muted: bool) -> (r: bool)
    ensures
        r == (delta > 0 && muted),
{
    delta > 0 && muted
}

/// What a menu action whose whole effect is a config field does to the config
/// (`None` for every other action).
pub open spec fn config_after(cfg: AppConfig, action: MenuActionView) -> Option<AppConfig> {
    match action {
        MenuActionView::VolEnabled => Some(
            AppConfig { volume_limit_enabled: !cfg.volume_limit_enabled, ..cfg },
        ),
        MenuActionView::VolLimit(limit) => Some(
            AppConfig { volume_limit: limit, volume_limit_enabled: true, ..cfg },
        ),
        MenuActionView::LangSystem => Some(AppConfig { lang: Lang::System, ..cfg }),
        MenuActionView::LangZh => Some(AppConfig { lang: Lang::Zh, ..cfg }),
        MenuActionView::LangEn => Some(AppConfig { lang: Lang::En, ..cfg }),
        _ => None,
    }
}

/// Apply a menu action whose whole effect is a config field; returns whether
/// the config changed. Picking a preset also switches the cap on; a language
/// entry stores the mode and the resolved UI language together.
pub fn apply_menu_config(
    cfg: &mut AppConfig,
    ui_lang: &mut Lang,
    action: &MenuAction,
    locale_name: &str,
) -> (r: bool)
    ensures
        match config_after(*old(cfg), action@) {
            Some(c) => {
                &&& r
                &&& *final(cfg) == c
                &&& match action@ {
                    MenuActionView::LangSystem | MenuActionView::LangZh | MenuActionView::LangEn =>
                        *final(ui_lang) == config::effective_lang_spec(c.lang, locale_name@),
                    _ => *final(ui_lang) == *old(ui_lang),
                }
            },
            None => !r && *final(cfg) == *old(cfg) && *final(ui_lang) == *old(ui_lang),
        },
{
    match action {
        MenuAction::VolEnabled => {
            cfg.volume_limit_enabled = !cfg.volume_limit_enabled;
        },
        MenuAction::VolLimit(limit) => {
            cfg.volume_limit = *limit;
            cfg.volume_limit_enabled = true;
        },
        MenuAction::LangSystem | MenuAction::LangZh | MenuAction::LangEn => {
            cfg.lang = match action {
                MenuAction::LangZh => Lang::Zh,
                MenuAction::LangEn => Lang::En,
                _ => Lang::System,
            };
            *ui_lang = cfg.effective_lang(locale_name);
        },
        _ => {
            return false;
        },
    }
    true
}

/// Whether a menu action that changed the config re-applies the cap to the
/// volume playing now: only the volume-limit entries do, and only while the
/// cap is on after the change; a language change never touches the volume.
pub fn reclamps_after_menu(action: &MenuAction, cfg: &AppConfig) -> (r: bool)
    ensures
        r == ((action@ is VolEnabled || action@ is VolLimit) && cfg.volume_limit_enabled),
{
    match action {
        MenuAction::VolEnabled | MenuAction::VolLimit(_) => cfg.volume_limit_enabled,
        _ => false,
    }
}

/// Where cycling starts: the current device, or the first one when the
/// current one is unknown or beyond `i32`.
pub open spec fn cycle_start(current: Option<usize>) -> int {
    match current {
        Some(c) if c <= i32::MAX => c as int,
        _ => 0,
    }
}

/// The device count as the step math sees it (capped at `i32::MAX`).
pub open spec fn cycle_len(len: usize) -> int {
    if len <= i32::MAX {
        len as int
    } else {
        i32::MAX as int
    }
}

proof fn lemma_negative_mod(s: int, n: int)
    requires
        n > 0,
        s < 0,
    ensures
        (-s) % n == 0 ==> s % n == 0,
        (-s) % n != 0 ==> s % n == n - (-s) % n,
{
    let q = (-s) / n;
    let m = (-s) % n;
    vstd::arithmetic::div_mod::lemma_fundamental_div_mod(-s, n);
    vstd::arithmetic::div_mod::lemma_mod_bound(-s, n);
    assert(n * q == q * n) by (nonlinear_arith);
    if m == 0 {
        assert(s == (-q) * n + 0) by (nonlinear_arith)
            requires
                -s == n * q + m,
                m == 0,
        ;
        vstd::arithmetic::div_mod::lemma_fundamental_div_mod_converse(s, n, -q, 0);
    } else {
        assert(s == (-q - 1) * n + (n - m)) by (nonlinear_arith)
            requires
                -s == n * q + m,
        ;
        vstd::arithmetic::div_mod::lemma_fundamental_div_mod_converse(s, n, -q - 1, n - m);
    }
}

/// Index of the device `step` positions from `current`, wrapping at both
/// ends; `None` only for an empty list.
pub fn cycle_index(len: usize, current: Option<usize>, step: i32) -> (r: Option<usize>)
    requires
        i32::MIN <= cycle_start(current) + step <= i32::MAX,
    ensures
        len == 0 ==> r is None,
        len > 0 ==> r == Some(((cycle_start(current) + step) % cycle_len(len)) as usize),
        len > 0 ==> (r matches Some(i) && i < len),
{
    if len == 0 {
        return None;
    }
    let start: i64 = match current {
        Some(c) => if c <= 0x7FFF_FFFF {
            c as i64
        } else {
            0
        },
        None => 0,
    };
    let n: i64 = if len <= 0x7FFF_FFFF {
        len as i64
    } else {
        0x7FFF_FFFF
    };
    let s: i64 = start + step as i64;
    let idx: i64 = if s >= 0 {
        s % n
    } else {
        let m = (-s) % n;
        if m == 0 {
            0
        } else {
            n - m
        }
    };
    proof {
        if s < 0 {
            lemma_negative_mod(s as int, n as int);
        }
    }
    Some(idx as usize)
}

/// `volume + delta` held inside `0..=100`.
pub open spec fn stepped(volume: u32, delta: i32) -> u32 {
    let v = volume + delta;
    if v < 0 {
        0
    } else if v > 100 {
        100
    } else {
        v as u32
    }
}

/// Apply one `delta` percent to `volume`, clamped to the `0..=100`
/// invariant; neither a wheel burst nor `i32::MIN` can wrap.
pub fn stepped_volume(volume: u32, delta: i32) -> (r: u32)
    ensures
        r == stepped(volume, delta),
        r <= 100,
{
    let v: i64 = volume as i64 + delta as i64;
    if v < 0 {
        0
    } else if v > 100 {
        100
    } else {
        v as u32
    }
}

/// Idle wait cap in milliseconds: bounds how long a lost wake can delay
/// feedback.
pub const PUMP_IDLE_MS: u32 = 15_000;

/// Device notifications are coalesced over this window (microseconds) before
/// the menu is rebuilt.
pub const DEVICE_COALESCE_WINDOW_US: u64 = 120_000;

/// How long the volume overlay stays up after the last change (milliseconds).
pub const VISIBLE_MS: u64 = 2000;

/// Whether a latched device change is old enough to rebuild the menu for; the
/// window boundary itself counts as due.
pub fn devices_refresh_due(pending: bool, last_us: u64, now_us: u64) -> (r: bool)
    ensures
        r == (pending && now_us >= last_us && now_us - last_us >= DEVICE_COALESCE_WINDOW_US),
{
    pending && now_us >= last_us && now_us - last_us >= DEVICE_COALESCE_WINDOW_US
}

/// Milliseconds to wait for `next`: the remaining time rounded up (a
/// sub-millisecond remainder must not become a zero-timeout spin), capped at
/// [`PUMP_IDLE_MS`]; no deadline waits the cap.
pub open spec fn wait_ms_spec(now_us: u64, next_us: Option<u64>) -> u32 {
    match next_us {
        None => PUMP_IDLE_MS,
        Some(next) => {
            let remaining: int = if next > now_us { next - now_us } else { 0 };
            let millis = (remaining + 999) / 1000;
            if millis < PUMP_IDLE_MS { millis as u32 } else { PUMP_IDLE_MS }
        },
    }
}

/// Milliseconds to wait for `next` (see [`wait_ms_spec`]).
pub fn wait_ms(now_us: u64, next_us: Option<u64>) -> (r: u32)
    ensures
        r == wait_ms_spec(now_us, next_us),
        r <= PUMP_IDLE_MS,
{
    match next_us {
        None => PUMP_IDLE_MS,
        Some(next) => {
            let remaining: u64 = if next > now_us { next - now_us } else { 0 };
            let millis: u64 = remaining / 1000 + if remaining % 1000 != 0 { 1 } else { 0 };
            assert(millis == (remaining + 999) / 1000) by (nonlinear_arith)
                requires millis == remaining / 1000 + if remaining % 1000 != 0 { 1int } else { 0int };
            if millis < PUMP_IDLE_MS as u64 {
                millis as u32
            } else {
                PUMP_IDLE_MS
            }
        },
    }
}

/// The earlier of an optional deadline and another.
pub open spec fn earliest(a: Option<u64>, b: u64) -> Option<u64> {
    match a {
        Some(x) => Some(if x < b { x } else { b }),
        None => Some(b),
    }
}

/// The loop's next deadline: the overlay's hide, a pending hook install, a
/// coalesced device rebuild, whichever comes first.
pub open spec fn next_deadline(
    osd_deadline: Option<u64>,
    hook_installed: bool,
    hook_install_at: u64,
    devices_pending: bool,
    last_rebuild: u64,
) -> Option<u64> {
    let a = if hook_installed { osd_deadline } else { earliest(osd_deadline, hook_install_at) };
    if devices_pending {
        earliest(a, (last_rebuild + DEVICE_COALESCE_WINDOW_US) as u64)
    } else {
        a
    }
}

/// Wait timeout for one loop pass: [`wait_ms`] for the earliest deadline the
/// loop must not sleep past.
pub fn wait_timeout(
    now_us: u64,
    osd_deadline: Option<u64>,
    hook_installed: bool,
    hook_install_at: u64,
    devices_pending: bool,
    last_rebuild: u64,
) -> (r: u32)
    requires
        last_rebuild + DEVICE_COALESCE_WINDOW_US <= u64::MAX,
    ensures
        r == wait_ms_spec(
            now_us,
            next_deadline(osd_deadline, hook_installed, hook_install_at, devices_pending, last_rebuild),
        ),
{
    let mut next = osd_deadline;
    if !hook_installed {
        next = match next {
            Some(x) => Some(if x < hook_install_at { x } else { hook_install_at }),
            None => Some(hook_install_at),
        };
    }
    if devices_pending {
        let at = last_rebuild + DEVICE_COALESCE_WINDOW_US;
        next = match next {
            Some(x) => Some(if x < at { x } else { at }),
            None => Some(at),
        };
    }
    wait_ms(now_us, next)
}

/// Whether the wheel hook should be installed this frame: none is installed
/// and its install time has come.
pub fn hook_install_due(installed: bool, now_us: u64, install_at_us: u64) -> (r: bool)
    ensures
        r == (!installed && now_us >= install_at_us),
{
    !installed && now_us >= install_at_us
}

/// The volume overlay's visibility as loop policy: shown until a deadline,
/// hidden at once on any mouse button.
#[derive(Debug, Clone, Copy, PartialEq, Eq, Structural)]
pub struct OsdTimer {
    /// Hide deadline (microseconds); `None` while nothing is shown.
    pub deadline: Option<u64>,
}

impl OsdTimer {
    /// Nothing shown.
    pub fn new() -> (r: OsdTimer)
        ensures
            r.deadline is None,
    {
        OsdTimer { deadline: None }
    }

    /// Whether the overlay is on screen.
    pub fn visible(&self) -> (r: bool)
        ensures
            r == self.deadline is Some,
    {
        self.deadline.is_some()
    }

    /// The overlay was (re)shown at `now_us`: it stays up [`VISIBLE_MS`] more.
    pub fn show(&mut self, now_us: u64)
        requires
            now_us + VISIBLE_MS * 1000 <= u64::MAX,
        ensures
            final(self).deadline == Some((now_us + VISIBLE_MS * 1000) as u64),
    {
        self.deadline = Some(now_us + VISIBLE_MS * 1000);
    }

    /// A mouse button went down: returns whether the overlay must be hidden
    /// now (it was on screen), and forgets the deadline.
    pub fn click(&mut self) -> (r: bool)
        ensures
            r == old(self).deadline is Some,
            final(self).deadline is None,
    {
        let was = self.deadline.is_some();
        self.deadline = None;
        was
    }

    /// One frame at `now_us`: returns whether the overlay must be hidden now
    /// (its deadline passed), forgetting the deadline when it did.
    pub fn poll(&mut self, now_us: u64) -> (r: bool)
        ensures
            match old(self).deadline {
                Some(d) => r == (now_us >= d) && final(self).deadline == (if now_us >= d {
                    None
                } else {
                    Some(d)
                }),
                None => !r && final(self).deadline is None,
            },
    {
        match self.deadline {
            Some(d) => {
                if now_us >= d {
                    self.deadline = None;
                    true
                } else {
                    false
                }
            },
            None => false,
        }
    }
}

} // verus!

verus! {

/// The loop's mirror of the endpoint's volume and mute: authoritative for the
/// tool's own writes, so a wheel notch costs one endpoint write and no read.
#[derive(Debug, Clone, Copy, PartialEq, Eq, Structural)]
pub struct VolumeMirror {
    /// `0..=100`.
    pub volume: u32,
    pub muted: bool,
}

impl VolumeMirror {
    /// The volume a nudge of `delta` percent writes: stepped from the mirror,
    /// then capped by the config.
    pub fn nudge_target(&self, delta: i32, cfg: &AppConfig) -> (r: u32)
        ensures
            r == config::clamped_volume(
                stepped(self.volume, delta),
                cfg.volume_limit_enabled,
                cfg.volume_limit,
            ),
            r <= 100,
            cfg.volume_limit_enabled ==> r <= cfg.volume_limit,
    {
        config::clamp_volume(stepped_volume(self.volume, delta), cfg)
    }

    /// Only a confirmed write moves the mirror, so a failed write cannot
    /// leave the step origin ahead of the endpoint.
    pub fn volume_written(&mut self, target: u32, confirmed: bool)
        ensures
            final(self).volume == (if confirmed { target } else { old(self).volume }),
            final(self).muted == old(self).muted,
    {
        if confirmed {
            self.volume = target;
        }
    }

    /// The mute state a mute toggle writes.
    pub fn mute_target(&self) -> (r: bool)
        ensures
            r == !self.muted,
    {
        !self.muted
    }

    /// A confirmed mute toggle flips the mirror and re-applies the cap to the
    /// mirrored volume (the click keeps its side effect of applying the
    /// limit); a failed one changes nothing.
    pub fn mute_written(&mut self, target: bool, confirmed: bool, cfg: &AppConfig)
        ensures
            confirmed ==> final(self).muted == target && final(self).volume
                == config::clamped_volume(
                old(self).volume,
                cfg.volume_limit_enabled,
                cfg.volume_limit,
            ),
            !confirmed ==> *final(self) == *old(self),
    {
        if confirmed {
            self.muted = target;
            self.volume = config::clamp_volume(self.volume, cfg);
        }
    }

    /// Whether a nudge of `delta` also clears mute (volume-up while muted).
    pub fn lifts_mute(&self, delta: i32) -> (r: bool)
        ensures
            r == (delta > 0 && self.muted),
    {
        lifts_mute(delta, self.muted)
    }

    /// A confirmed unmute clears the mirror's mute; a failed one leaves it
    /// showing muted, which is then still true.
    pub fn unmute_written(&mut self, confirmed: bool)
        ensures
            final(self).muted == (if confirmed { false } else { old(self).muted }),
            final(self).volume == old(self).volume,
    {
        if confirmed {
            self.muted = false;
        }
    }
}

/// Tray-build attempts at startup: Explorer may be restarting exactly then.
pub const TRAY_BOOT_ATTEMPTS: u32 = 3;
/// Pause between tray-build attempts, milliseconds.
pub const TRAY_BOOT_RETRY_WAIT_MS: u64 = 250;
/// Pause before retrying the wheel hook after a failed install, microseconds.
pub const HOOK_RETRY_WAIT_US: u64 = 2_000_000;
/// A frame this long (microseconds) may have cost the wheel hook; it is
/// re-armed.
pub const HOOK_STALL_REARM_US: u64 = 500_000;
/// Volume percent per volume hotkey press.
pub const HOTKEY_VOLUME_STEP: i32 = 2;

/// Whether a failed tray build is retried: attempts are bounded, and the last
/// failure is reported instead of waiting once more.
pub fn tray_boot_retry(attempt: u32) -> (r: bool)
    ensures
        r == (attempt < TRAY_BOOT_ATTEMPTS),
{
    attempt < TRAY_BOOT_ATTEMPTS
}

/// Whether a frame ran long enough that the wheel hook is re-armed.
pub fn hook_rearm_due(frame_us: u64) -> (r: bool)
    ensures
        r == (frame_us >= HOOK_STALL_REARM_US),
{
    frame_us >= HOOK_STALL_REARM_US
}

/// When the wheel hook is tried again after a failed install at `now_us`.
pub fn hook_retry_at(now_us: u64) -> (r: u64)
    ensures
        r == (if now_us <= u64::MAX - HOOK_RETRY_WAIT_US {
            (now_us + HOOK_RETRY_WAIT_US) as u64
        } else {
            u64::MAX
        }),
{
    now_us.saturating_add(HOOK_RETRY_WAIT_US)
}

} // verus!

verus! {

/// A tray icon event, as the loop distinguishes them.
#[derive(Debug, Clone, Copy, PartialEq, Eq, Structural)]
pub enum TrayEvent {
    /// A click: which button (`0` left, `1` right, `2` middle) and whether it
    /// is the release.
    Click { button: u8, up: bool },
    DoubleClick { button: u8 },
    Enter,
    Move,
    Leave,
}

/// What the loop does for a tray event.
#[derive(Debug, Clone, Copy, PartialEq, Eq, Structural)]
pub enum TrayResponse {
    /// Toggle mute, then reset the wheel acceleration.
    ToggleMute,
    /// Reset the wheel acceleration so a stale burst cannot jump the volume.
    ResetWheel,
    Nothing,
}

/// Middle-click release toggles mute; entering or leaving the icon, and a
/// right click or double click (the menu opening), reset the wheel; anything
/// else is ignored.
pub fn tray_response(event: TrayEvent) -> (r: TrayResponse)
    ensures
        r == (match event {
            TrayEvent::Click { button: 2, up: true } => TrayResponse::ToggleMute,
            TrayEvent::Click { button: 1, .. } => TrayResponse::ResetWheel,
            TrayEvent::DoubleClick { button: 1 } => TrayResponse::ResetWheel,
            TrayEvent::Enter => TrayResponse::ResetWheel,
            TrayEvent::Leave => TrayResponse::ResetWheel,
            _ => TrayResponse::Nothing,
        }),
{
    match event {
        TrayEvent::Click { button: 2, up: true } => TrayResponse::ToggleMute,
        TrayEvent::Click { button: 1, .. } => TrayResponse::ResetWheel,
        TrayEvent::DoubleClick { button: 1 } => TrayResponse::ResetWheel,
        TrayEvent::Enter => TrayResponse::ResetWheel,
        TrayEvent::Leave => TrayResponse::ResetWheel,
        _ => TrayResponse::Nothing,
    }
}

} // verus!
