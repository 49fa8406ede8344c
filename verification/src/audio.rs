//! The audio model: endpoints, errors, the per-refresh snapshot, and the
//! decisions around the Windows audio calls (the volume cap write, the device
//! name shown, the notification flags the COM callbacks raise).

use vstd::prelude::*;
use vstd::string::*;
use crate::config::{self, AppConfig};
use crate::text;

verus! {

/// An audio endpoint.
#[derive(Debug, Clone, PartialEq, Eq)]
pub struct AudioDevice {
    /// Endpoint id (`IMMDevice::GetId`).
    pub id: String,
    /// Friendly name (`PKEY_Device_FriendlyName`).
    pub name: String,
}

/// Errors from the audio subsystem.
#[derive(Debug, Clone, PartialEq, Eq)]
pub enum AudioError {
    /// A Windows call returned this `HRESULT`.
    Com { hr: i32, msg: String },
    /// Anything else, e.g. an id that names no endpoint.
    Failed(String),
}

/// The character of a hexadecimal digit (upper case).
pub open spec fn hex_digit(d: u32) -> char {
    if d < 10 {
        ((d + 48) as u8) as char
    } else {
        ((d + 55) as u8) as char
    }
}

/// `format!("{:08X}", v)`: eight upper-case hex digits, most significant first.
pub open spec fn hex8(v: u32) -> Seq<char> {
    Seq::new(8, |i: int| hex_digit(((v as int / pow16(7 - i)) % 16) as u32))
}

pub open spec fn pow16(e: int) -> int
    decreases e,
{
    if e <= 0 {
        1
    } else {
        16 * pow16(e - 1)
    }
}

proof fn lemma_pow16_positive(e: int)
    ensures
        pow16(e) >= 1,
    decreases e,
{
    if e > 0 {
        lemma_pow16_positive(e - 1);
    }
}

fn hex_digit_exec(d: u32) -> (c: char)
    requires
        d < 16,
    ensures
        c == hex_digit(d),
{
    if d < 10 {
        ((d + 48) as u8) as char
    } else {
        ((d + 55) as u8) as char
    }
}

/// Eight upper-case hex digits of `v`.
pub fn hex8_exec(v: u32) -> (r: String)
    ensures
        r@ == hex8(v),
{
    let mut r = String::new();
    let mut div: u32 = 0x1000_0000;
    let mut i: usize = 0;
    proof {
        reveal_with_fuel(pow16, 8);
    }
    while i < 8
        invariant
            i <= 8,
            div >= 1,
            div as int == pow16(7 - i),
            r@ == hex8(v).take(i as int),
        decreases 8 - i,
    {
        let d = (v / div) % 16;
        text::push_char(&mut r, hex_digit_exec(d));
        assert(r@ =~= hex8(v).take(i + 1));
        if i < 7 {
            proof {
                assert(pow16(7 - i) == 16 * pow16(6 - i));
                lemma_pow16_positive(6 - i);
            }
            div = div / 16;
        }
        i = i + 1;
    }
    assert(hex8(v).take(8) =~= hex8(v));
    r
}

impl AudioError {
    /// The user-visible message: `COM 0x<HRESULT>: <msg>` or
    /// `audio failed: <msg>`.
    pub fn to_string(&self) -> (r: String)
        ensures
            r@ == match self {
                AudioError::Com { hr, msg } => "COM 0x"@ + hex8(*hr as u32) + ": "@ + msg@,
                AudioError::Failed(msg) => "audio failed: "@ + msg@,
            },
    {
        match self {
            AudioError::Com { hr, msg } => {
                let mut r = text::to_owned("COM 0x");
                let h = hex8_exec(*hr as u32);
                r.append(h.as_str());
                r.append(": ");
                r.append(msg.as_str());
                r
            },
            AudioError::Failed(msg) => text::concat("audio failed: ", msg.as_str()),
        }
    }
}

/// Snapshot of the audio state, fetched once per UI refresh.
#[derive(Debug, Clone)]
pub struct AudioSnapshot {
    pub devices: Vec<AudioDevice>,
    pub default_device: Option<AudioDevice>,
    pub input_devices: Vec<AudioDevice>,
    pub default_input_device: Option<AudioDevice>,
    /// `0..=100`.
    pub volume: u32,
    pub mute: bool,
}

impl Default for AudioSnapshot {
    /// Nothing enumerated, 50%, unmuted.
    fn default() -> (r: AudioSnapshot)
        ensures
            r.devices@.len() == 0,
            r.default_device is None,
            r.input_devices@.len() == 0,
            r.default_input_device is None,
            r.volume == 50,
            !r.mute,
    {
        AudioSnapshot {
            devices: Vec::new(),
            default_device: None,
            input_devices: Vec::new(),
            default_input_device: None,
            volume: 50,
            mute: false,
        }
    }
}

/// Assemble a snapshot from the backend's answers: a failed enumeration shows
/// as an empty list, a failed volume read as 50% unmuted, and the volume is
/// reported with the cap applied.
pub fn snapshot_from(
    devices: Result<Vec<AudioDevice>, AudioError>,
    default_device: Option<AudioDevice>,
    input_devices: Result<Vec<AudioDevice>, AudioError>,
    default_input_device: Option<AudioDevice>,
    volume_and_mute: Result<(u32, bool), AudioError>,
    cfg: &AppConfig,
) -> (r: AudioSnapshot)
    ensures
        r.devices@ == match devices {
            Ok(v) => v@,
            Err(_) => Seq::<AudioDevice>::empty(),
        },
        r.default_device == default_device,
        r.input_devices@ == match input_devices {
            Ok(v) => v@,
            Err(_) => Seq::<AudioDevice>::empty(),
        },
        r.default_input_device == default_input_device,
        r.volume == config::clamped_volume(
            match volume_and_mute {
                Ok((v, _)) => v,
                Err(_) => 50,
            },
            cfg.volume_limit_enabled,
            cfg.volume_limit,
        ),
        r.mute == match volume_and_mute {
            Ok((_, m)) => m,
            Err(_) => false,
        },
{
    let devices = match devices {
        Ok(v) => v,
        Err(_) => Vec::new(),
    };
    let input_devices = match input_devices {
        Ok(v) => v,
        Err(_) => Vec::new(),
    };
    let (volume, mute) = match volume_and_mute {
        Ok(pair) => pair,
        Err(_) => (50, false),
    };
    AudioSnapshot {
        devices,
        default_device,
        input_devices,
        default_input_device,
        volume: config::clamp_volume(volume, cfg),
        mute,
    }
}

/// The volume write the cap calls for, if any: only while the cap is on, and
/// only when the current volume is above it.
pub fn clamp_target(cfg: &AppConfig, current: u32) -> (r: Option<u32>)
    ensures
        r == (if cfg.volume_limit_enabled && config::clamped_volume(
            current,
            true,
            cfg.volume_limit,
        ) != current {
            Some(config::clamped_volume(current, true, cfg.volume_limit))
        } else {
            None::<u32>
        }),
{
    if !cfg.volume_limit_enabled {
        return None;
    }
    let clamped = config::clamp_volume(current, cfg);
    if clamped != current {
        Some(clamped)
    } else {
        None
    }
}

/// Whether an endpoint id can be handed to the default-device switch: not
/// empty, no NUL (it becomes a NUL-terminated UTF-16 string).
pub fn device_id_valid(id: &str) -> (r: bool)
    ensures
        r == (id@.len() > 0 && !id@.contains('\0')),
{
    id.unicode_len() > 0 && !text::contains_char(id, '\0')
}

/// The name shown for an endpoint: its friendly name cut to 80 characters;
/// without one, the last `\`-separated piece of its id cut to 40, or the id
/// itself cut to 40 when that piece is empty; `Unknown` without an id.
pub open spec fn shown_name(friendly: Seq<char>, id: Option<Seq<char>>) -> Seq<char> {
    if friendly.len() > 0 {
        if friendly.len() <= 80 { friendly } else { friendly.take(80) }
    } else {
        match id {
            Some(i) => {
                let short = text::split_seq(i, '\\').last();
                if short.len() > 0 {
                    if short.len() <= 40 { short } else { short.take(40) }
                } else if i.len() <= 40 {
                    i
                } else {
                    i.take(40)
                }
            },
            None => "Unknown"@,
        }
    }
}

/// The first `n` characters of `s` (all of it when shorter).
pub fn take_chars(s: &str, n: usize) -> (r: String)
    ensures
        r@ == (if s@.len() <= n { s@ } else { s@.take(n as int) }),
{
    let len = s.unicode_len();
    if len <= n {
        text::to_owned(s)
    } else {
        let t = s.substring_char(0, n);
        assert(t@ =~= s@.take(n as int));
        text::to_owned(t)
    }
}

/// The name shown for an endpoint (see [`shown_name`]).
pub fn device_display_name(friendly: &str, id: Option<&str>) -> (r: String)
    ensures
        r@ == shown_name(friendly@, match id {
            Some(i) => Some(i@),
            None => None,
        }),
{
    if friendly.unicode_len() > 0 {
        return take_chars(friendly, 80);
    }
    match id {
        Some(i) => {
            let pieces = text::split(i, '\\');
            proof {
                lemma_split_nonempty(i@, '\\', Seq::empty());
            }
            let last = pieces[pieces.len() - 1].as_str();
            assert(last@ == text::split_seq(i@, '\\').last());
            if last.unicode_len() > 0 {
                take_chars(last, 40)
            } else {
                take_chars(i, 40)
            }
        },
        None => text::to_owned("Unknown"),
    }
}

/// How an endpoint is named in the menu: a friendly name is shown as it is,
/// up to 80 characters, and a longer one by its first 80; without one the
/// name comes from the id and holds at most 40 characters; without either it
/// reads `Unknown`.
pub proof fn lemma_friendly_names_are_kept_to_80(friendly: Seq<char>, id: Option<Seq<char>>)
    ensures
        0 < friendly.len() <= 80 ==> shown_name(friendly, id) == friendly,
        friendly.len() > 80 ==> shown_name(friendly, id).len() == 80 && forall|i: int|
            0 <= i < 80 ==> #[trigger] shown_name(friendly, id)[i] == friendly[i],
        friendly.len() == 0 && id is Some ==> shown_name(friendly, id).len() <= 40,
        friendly.len() == 0 && id is None ==> shown_name(friendly, id) == "Unknown"@,
{
}

proof fn lemma_split_nonempty(s: Seq<char>, sep: char, cur: Seq<char>)
    ensures
        text::split_from(s, sep, cur).len() > 0,
    decreases s.len(),
{
    if s.len() > 0 {
        if s[0] == sep {
            lemma_split_nonempty(s.drop_first(), sep, Seq::empty());
        } else {
            lemma_split_nonempty(s.drop_first(), sep, cur.push(s[0]));
        }
    }
}


/// Window (ms) during which notifications after a self-initiated change are
/// treated as echoes of that change.
pub const SUPPRESS_WINDOW_MS: u64 = 200;

/// How long an enumerated device list is reused (ms).
pub const DEVICE_CACHE_MS: u64 = 3000;

/// Whether a device list enumerated at `cached_at_ms` may still be reused at
/// `now_ms`.
pub fn device_cache_fresh(cached_at_ms: Option<u64>, now_ms: u64) -> (r: bool)
    ensures
        r == match cached_at_ms {
            Some(t) => now_ms >= t && now_ms - t < DEVICE_CACHE_MS,
            None => false,
        },
{
    match cached_at_ms {
        Some(t) => now_ms >= t && now_ms - t < DEVICE_CACHE_MS,
        None => false,
    }
}

/// The flags the audio notification callbacks raise for the message loop,
/// and the window in which our own writes' echoes are ignored. Every
/// callback only flips these; the loop takes them, so a burst collapses into
/// one wake.
#[derive(Debug, Clone, Copy, PartialEq, Eq, Structural)]
pub struct NotifyFlags {
    /// A device was added, removed, switched or renamed.
    pub device_changed: bool,
    /// The endpoint volume or mute changed from outside.
    pub volume_changed: bool,
    /// The volume callback must be registered again on the new default.
    pub reregister: bool,
    /// Notifications before this tick (ms) are echoes of our own write.
    pub suppress_until_ms: u64,
}

impl NotifyFlags {
    /// Nothing pending, nothing suppressed.
    pub fn new() -> (r: NotifyFlags)
        ensures
            !r.device_changed && !r.volume_changed && !r.reregister && r.suppress_until_ms == 0,
    {
        NotifyFlags { device_changed: false, volume_changed: false, reregister: false, suppress_until_ms: 0 }
    }

    /// Treat notifications in the next `ms` milliseconds as echoes of a write
    /// made now.
    pub fn suppress_self_changes_for(&mut self, now_ms: u64, ms: u64)
        ensures
            final(self).suppress_until_ms == (if now_ms + ms > u64::MAX {
                u64::MAX
            } else {
                (now_ms + ms) as u64
            }),
            final(self).device_changed == old(self).device_changed,
            final(self).volume_changed == old(self).volume_changed,
            final(self).reregister == old(self).reregister,
    {
        self.suppress_until_ms = now_ms.saturating_add(ms);
    }

    /// Whether a notification arriving at `now_ms` is an echo.
    pub fn suppress_notify(&self, now_ms: u64) -> (r: bool)
        ensures
            r == (now_ms < self.suppress_until_ms),
    {
        now_ms < self.suppress_until_ms
    }

    /// Returns and clears the device-change flag.
    pub fn take_device_changed(&mut self) -> (r: bool)
        ensures
            r == old(self).device_changed,
            *final(self) == (NotifyFlags { device_changed: false, ..*old(self) }),
    {
        let r = self.device_changed;
        self.device_changed = false;
        r
    }

    /// Whether a device change waits for the loop (peek, not take).
    pub fn device_changed_pending(&self) -> (r: bool)
        ensures
            r == self.device_changed,
    {
        self.device_changed
    }

    /// Returns and clears the external volume-change flag.
    pub fn take_volume_changed(&mut self) -> (r: bool)
        ensures
            r == old(self).volume_changed,
            *final(self) == (NotifyFlags { volume_changed: false, ..*old(self) }),
    {
        let r = self.volume_changed;
        self.volume_changed = false;
        r
    }

    /// Returns and clears the re-registration request.
    pub fn take_reregister(&mut self) -> (r: bool)
        ensures
            r == old(self).reregister,
            *final(self) == (NotifyFlags { reregister: false, ..*old(self) }),
    {
        let r = self.reregister;
        self.reregister = false;
        r
    }

    /// The endpoint volume or mute changed (`OnNotify`); returns whether the
    /// loop must be woken. Echoes of our own writes are dropped.
    pub fn on_volume_notify(&mut self, now_ms: u64) -> (r: bool)
        ensures
            r == !(now_ms < old(self).suppress_until_ms),
            *final(self) == (if r {
                NotifyFlags { volume_changed: true, ..*old(self) }
            } else {
                *old(self)
            }),
    {
        if self.suppress_notify(now_ms) {
            return false;
        }
        self.volume_changed = true;
        true
    }

    /// A device was added, removed or changed state; the loop must be woken.
    pub fn on_device_event(&mut self)
        ensures
            *final(self) == (NotifyFlags { device_changed: true, ..*old(self) }),
    {
        self.device_changed = true;
    }

    /// The default device changed: the volume callback must move to the new
    /// endpoint, and the menu must be rebuilt.
    pub fn on_default_device_changed(&mut self)
        ensures
            *final(self) == (NotifyFlags { device_changed: true, reregister: true, ..*old(self) }),
    {
        self.reregister = true;
        self.device_changed = true;
    }

    /// Ask the volume worker to register its callback on the (new) default
    /// endpoint.
    pub fn request_volume_reregister(&mut self)
        ensures
            *final(self) == (NotifyFlags { reregister: true, ..*old(self) }),
    {
        self.reregister = true;
    }

    /// A device property changed; only a friendly-name change outside the
    /// echo window matters. Returns whether the loop must be woken.
    pub fn on_property_changed(&mut self, is_friendly_name: bool, now_ms: u64) -> (r: bool)
        ensures
            r == (is_friendly_name && !(now_ms < old(self).suppress_until_ms)),
            *final(self) == (if r {
                NotifyFlags { device_changed: true, ..*old(self) }
            } else {
                *old(self)
            }),
    {
        if !is_friendly_name || self.suppress_notify(now_ms) {
            return false;
        }
        self.device_changed = true;
        true
    }
}

/// The audio interface the application runs against, so tests can inject their
/// own backend. Every fallible method reports `AudioError::Com` for a failed
/// system call and `AudioError::Failed` for an endpoint that does not exist.
pub trait AudioBackend {
    fn enumerate_devices(&mut self) -> Result<Vec<AudioDevice>, AudioError>;

    fn get_default_device(&self) -> Option<AudioDevice>;

    fn set_default_device(&mut self, id: &str) -> Result<(), AudioError>;

    fn enumerate_input_devices(&mut self) -> Result<Vec<AudioDevice>, AudioError>;

    fn get_default_input_device(&self) -> Option<AudioDevice>;

    fn set_default_input_device(&mut self, id: &str) -> Result<(), AudioError>;

    /// The master volume in percent, `0..=100`.
    fn get_volume(&self) -> (r: Result<u32, AudioError>)
        ensures
            r matches Ok(v) ==> v <= 100,
    ;

    /// Values outside `0..=100` are clamped by the caller.
    fn set_volume(&mut self, volume: u32) -> Result<(), AudioError>;

    fn get_mute(&self) -> Result<bool, AudioError>;

    fn set_mute(&mut self, mute: bool) -> Result<(), AudioError>;

    fn clamp_volume_if_needed(&mut self, cfg: &AppConfig) -> Result<(), AudioError>;

    /// Uncached backends implement the empty body explicitly.
    fn clear_cache(&mut self);

    /// Volume and mute together (one round trip where the backend can).
    /// The volume is in percent, `0..=100`; the default reads the volume, then
    /// the mute state, and fails with the first failure.
    fn get_volume_and_mute(&self) -> (r: Result<(u32, bool), AudioError>)
        ensures
            r matches Ok((v, _)) ==> v <= 100,
    {
        let v = self.get_volume();
        match v {
            Err(e) => Err(e),
            Ok(volume) => match self.get_mute() {
                Err(e) => Err(e),
                Ok(mute) => Ok((volume, mute)),
            },
        }
    }

    /// Take and clear the "devices changed" flag; a backend without
    /// notifications never reports one.
    fn poll_device_changed(&mut self) -> (r: bool)
        default_ensures
            !r,
    {
        false
    }

    /// Take and clear the "external volume/mute changed" flag.
    fn take_volume_changed(&mut self) -> (r: bool)
        default_ensures
            !r,
    {
        false
    }

    /// The whole audio state in one go, the volume reported with the cap
    /// applied: never above 100, and never above the limit while the cap is
    /// on, whatever the backend answered.
    fn fetch_snapshot_clamped(&mut self, cfg: &AppConfig) -> (r: AudioSnapshot)
        ensures
            r.volume <= 100,
            cfg.volume_limit_enabled ==> r.volume <= cfg.volume_limit,
    {
        let devices = self.enumerate_devices();
        let default_device = self.get_default_device();
        let input_devices = self.enumerate_input_devices();
        let default_input_device = self.get_default_input_device();
        let volume_and_mute = self.get_volume_and_mute();
        snapshot_from(
            devices,
            default_device,
            input_devices,
            default_input_device,
            volume_and_mute,
            cfg,
        )
    }
}

/// Whether a failed volume write is retried once: only for the busy and
/// timeout results (`0x8007001E`, `0x800704D4`); an invalid argument is
/// permanent.
pub fn retryable_hresult(hr: u32) -> (r: bool)
    ensures
        r == (hr == 0x8007_001E || hr == 0x8007_04D4),
{
    hr == 0x8007_001E || hr == 0x8007_04D4
}

/// A copy of a device list, entry by entry.
pub fn copy_devices(v: &Vec<AudioDevice>) -> (r: Vec<AudioDevice>)
    ensures
        r@ == v@,
{
    let mut out: Vec<AudioDevice> = Vec::new();
    let mut i: usize = 0;
    while i < v.len()
        invariant
            i <= v@.len(),
            out@ == v@.take(i as int),
        decreases v.len() - i,
    {
        let d = &v[i];
        out.push(AudioDevice { id: d.id.clone(), name: d.name.clone() });
        assert(v@.take(i + 1) =~= v@.take(i as int).push(v@[i as int]));
        i = i + 1;
    }
    assert(v@.take(v@.len() as int) =~= v@);
    out
}

/// An enumerated device list and when it was taken (ms), reused for
/// [`DEVICE_CACHE_MS`].
#[derive(Debug)]
pub struct DeviceCache {
    pub devices: Option<Vec<AudioDevice>>,
    pub at_ms: Option<u64>,
}

impl DeviceCache {
    /// Nothing cached.
    pub fn new() -> (r: DeviceCache)
        ensures
            r.devices is None,
            r.at_ms is None,
    {
        DeviceCache { devices: None, at_ms: None }
    }

    /// Drop the cached list (a device change or a manual refresh).
    pub fn clear(&mut self)
        ensures
            final(self).devices is None,
            final(self).at_ms is None,
    {
        self.devices = None;
        self.at_ms = None;
    }

    /// The cached list while it is fresh at `now_ms`.
    pub fn fresh(&self, now_ms: u64) -> (r: Option<Vec<AudioDevice>>)
        ensures
            match (self.devices, self.at_ms) {
                (Some(v), Some(t)) if now_ms >= t && now_ms - t < DEVICE_CACHE_MS => r matches Some(
                    w,
                ) && w@ == v@,
                _ => r is None,
            },
    {
        match (&self.devices, self.at_ms) {
            (Some(v), Some(t)) => {
                if now_ms >= t && now_ms - t < DEVICE_CACHE_MS {
                    Some(copy_devices(v))
                } else {
                    None
                }
            },
            _ => None,
        }
    }

    /// Record a fresh enumeration, even an empty one (the UI must see a
    /// removal rather than a stale list).
    pub fn store(&mut self, devices: &Vec<AudioDevice>, now_ms: u64)
        ensures
            final(self).devices matches Some(v) && v@ == devices@,
            final(self).at_ms == Some(now_ms),
    {
        self.devices = Some(copy_devices(devices));
        self.at_ms = Some(now_ms);
    }
}

/// Whether the volume worker (re)registers its callback this pass: when no
/// registration is live, or when one was requested.
pub fn volume_reregister_due(live: bool, requested: bool) -> (r: bool)
    ensures
        r == (!live || requested),
{
    !live || requested
}

/// How long the volume worker waits before its next pass (ms): a failing
/// registration is retried every second, a live one waits for the next
/// request, a minute at most so a lost signal still heals.
pub fn volume_worker_wait_ms(live: bool) -> (r: u64)
    ensures
        r == (if live { 60_000u64 } else { 1_000u64 }),
{
    if live {
        60_000
    } else {
        1_000
    }
}

/// The policy-config classes tried, in order, to switch the default
/// endpoint: `(CLSID, IID, vtable slot of SetDefaultEndpoint)`. Windows 10/11
/// first, then the Vista-era interface.
pub const POLICY_CONFIG_CANDIDATES: [(u128, u128, usize); 4] = [
    (0x870af99c_171d_4f9e_af0d_e63df40c2bc9, 0xf8679f50_850a_41cf_9c72_430f290290c8, 13),
    (0x870af99c_171d_4f9e_af0d_e63df40c2ea9, 0xf8679f50_850a_41cf_9c72_430f290290c8, 13),
    (0x294935ce_f637_4e7c_a41b_ab255460b862, 0x568b9108_44bf_40b4_9006_86afe5b5a620, 12),
    (0x294935ce_f588_4bd5_9f8c_bab13166b487, 0x568b9108_44bf_40b4_9006_86afe5b5a620, 12),
];

/// `REGDB_E_CLASSNOTREG`: no candidate class could be created at all.
pub const REGDB_E_CLASSNOTREG: i32 = -2147221164;

/// `E_FAIL`: a created object had no vtable.
pub const E_FAIL: i32 = -2147467259;

/// The running outcome of trying the candidate classes in turn: the first
/// success ends the search; otherwise the last failure is reported.
#[derive(Debug, Clone, Copy, PartialEq, Eq, Structural)]
pub struct EndpointAttempts {
    pub last_err: Option<i32>,
}

impl EndpointAttempts {
    /// Nothing tried yet.
    pub fn new() -> (r: EndpointAttempts)
        ensures
            r.last_err is None,
    {
        EndpointAttempts { last_err: None }
    }

    /// A candidate failed with `hr`; it becomes the error to report.
    pub fn failed(&mut self, hr: i32)
        ensures
            final(self).last_err == Some(hr),
    {
        self.last_err = Some(hr);
    }

    /// The result once every candidate failed: the last failure, or "class
    /// not registered" when none could even be tried.
    pub fn exhausted(&self) -> (r: Result<(), i32>)
        ensures
            r == Err::<(), i32>(match self.last_err {
                Some(hr) => hr,
                None => REGDB_E_CLASSNOTREG,
            }),
    {
        match self.last_err {
            Some(hr) => Err(hr),
            None => Err(REGDB_E_CLASSNOTREG),
        }
    }
}

} // verus!
