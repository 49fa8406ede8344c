//! Application configuration: the typed settings, their defaults, schema
//! migration, the volume cap, and the JSONC text around the JSON body.
//!
//! Reading and writing the file, and the JSON (de)serialization itself, happen
//! outside this crate; everything decided about the values happens here.

use vstd::prelude::*;
use vstd::string::*;
use crate::autostart::AutostartMode;
use crate::hotkey::{self, Hotkey, HotkeyAction};
use crate::text;
use vstd::utf8::encode_utf8;

verus! {

/// Current config schema version. v2 migrates the v1 `Zh` default to `System`,
/// v3 adds the opt-in `hotkeys` object, v4 replaces the `autostart` boolean
/// with the three-way `autostart_mode`.
pub const CURRENT_VERSION: u32 = 4;

/// Default volume cap, percent.
pub const DEFAULT_VOLUME_LIMIT: u32 = 25;

/// UI language. `System` (the default) follows the OS locale once at startup.
#[derive(Debug, Clone, Copy, PartialEq, Eq, Structural)]
pub enum Lang {
    System,
    Zh,
    En,
}

impl Default for Lang {
    fn default() -> (r: Lang)
        ensures
            r == Lang::System,
    {
        Lang::System
    }
}

/// Whether a lower-cased locale name is a Traditional-Chinese one.
pub open spec fn is_traditional(lower: Seq<char>) -> bool {
    ||| text::contains_seq(lower, "hant"@)
    ||| text::contains_seq(lower, "-hk"@)
    ||| text::contains_seq(lower, "-tw"@)
    ||| text::contains_seq(lower, "-mo"@)
    ||| text::contains_seq(lower, "_hk"@)
    ||| text::contains_seq(lower, "_tw"@)
    ||| text::contains_seq(lower, "_mo"@)
}

/// The language of a locale name: Simplified Chinese for `zh*` locales that
/// are not Traditional, English for everything else.
pub open spec fn lang_for_locale(name: Seq<char>) -> Lang {
    let lower = text::lower_seq(name);
    if text::starts_with_seq(lower, "zh"@) && !is_traditional(lower) {
        Lang::Zh
    } else {
        Lang::En
    }
}

impl Lang {
    /// Whether this is Chinese.
    pub fn is_zh(self) -> (r: bool)
        ensures
            r == (self == Lang::Zh),
    {
        matches!(self, Lang::Zh)
    }

    /// Map a locale name (`"zh-CN"`, `"en-US"`) to a language.
    /// Traditional-Chinese locales fall back to English: there are no
    /// Traditional-Chinese strings.
    pub fn for_locale_name(name: &str) -> (r: Lang)
        ensures
            r == lang_for_locale(name@),
    {
        let lower = text::to_ascii_lower(name);
        let l = lower.as_str();
        if text::starts_with(l, "zh") {
            let traditional = text::contains(l, "hant") || text::contains(l, "-hk")
                || text::contains(l, "-tw") || text::contains(l, "-mo") || text::contains(l, "_hk")
                || text::contains(l, "_tw") || text::contains(l, "_mo");
            if traditional {
                return Lang::En;
            }
            return Lang::Zh;
        }
        Lang::En
    }

    /// Resolve the system language from the OS locale name; an unreadable
    /// (empty) name falls back to English, never to Chinese.
    pub fn system(locale_name: &str) -> (r: Lang)
        ensures
            r == (if locale_name@.len() == 0 {
                Lang::En
            } else {
                lang_for_locale(locale_name@)
            }),
    {
        if locale_name.unicode_len() == 0 {
            return Lang::En;
        }
        Lang::for_locale_name(locale_name)
    }

    pub open spec fn spec_as_str(self) -> Seq<char> {
        match self {
            Lang::System => "system"@,
            Lang::Zh => "zh"@,
            Lang::En => "en"@,
        }
    }

    /// The config-file spelling (`system`, `zh`, `en`).
    pub fn as_str(self) -> (r: &'static str)
        ensures
            r@ == self.spec_as_str(),
    {
        match self {
            Lang::System => "system",
            Lang::Zh => "zh",
            Lang::En => "en",
        }
    }

    /// The config-file spelling, owned.
    pub fn to_string(self) -> (r: String)
        ensures
            r@ == self.spec_as_str(),
    {
        text::to_owned(self.as_str())
    }

    /// The language a config-file spelling names, if any.
    pub open spec fn from_name_spec(name: Seq<char>) -> Option<Lang> {
        if name == "system"@ {
            Some(Lang::System)
        } else if name == "zh"@ {
            Some(Lang::Zh)
        } else if name == "en"@ {
            Some(Lang::En)
        } else {
            None
        }
    }

    /// The language a config-file spelling names, if any.
    pub fn from_name(name: &str) -> (r: Option<Lang>)
        ensures
            r == Lang::from_name_spec(name@),
    {
        if text::str_eq(name, "system") {
            Some(Lang::System)
        } else if text::str_eq(name, "zh") {
            Some(Lang::Zh)
        } else if text::str_eq(name, "en") {
            Some(Lang::En)
        } else {
            None
        }
    }
}

/// A spelling that names no language.
#[derive(Debug, Clone, Copy, PartialEq, Eq, Structural)]
pub struct UnknownLang;

impl core::str::FromStr for Lang {
    type Err = UnknownLang;

    fn from_str(s: &str) -> (r: Result<Lang, UnknownLang>)
        ensures
            r == (match Lang::from_name_spec(s@) {
                Some(l) => Ok(l),
                None => Err(UnknownLang),
            }),
    {
        match Lang::from_name(s) {
            Some(l) => Ok(l),
            None => Err(UnknownLang),
        }
    }
}


/// The view of an optional string.
pub open spec fn opt_view(v: Option<String>) -> Option<Seq<char>> {
    match v {
        Some(s) => Some(s@),
        None => None,
    }
}

/// Global-hotkey opt-ins, one combination string per [`HotkeyAction`];
/// `None` means "no hotkey".
#[derive(Debug, Clone, PartialEq, Eq)]
pub struct Hotkeys {
    pub mute: Option<String>,
    pub volume_up: Option<String>,
    pub volume_down: Option<String>,
    pub next_device: Option<String>,
    pub prev_device: Option<String>,
}

/// A stored combination canonicalized: trimmed, empty dropped, unparsable
/// dropped, otherwise rewritten in the canonical form.
pub open spec fn normalized_slot(v: Option<Seq<char>>) -> Option<Seq<char>> {
    match v {
        None => None,
        Some(raw) => {
            let t = text::trim_seq(raw);
            if t.len() == 0 {
                None
            } else {
                match hotkey::parse_spec(t) {
                    Ok(h) => Some(hotkey::hotkey_text(h)),
                    Err(_) => None,
                }
            }
        },
    }
}

impl Hotkeys {
    /// All off.
    pub fn new() -> (r: Hotkeys)
        ensures
            forall|a: HotkeyAction| r.slot(a) is None,
    {
        Hotkeys { mute: None, volume_up: None, volume_down: None, next_device: None, prev_device: None }
    }

    /// The stored combination of `action`.
    pub open spec fn slot(&self, action: HotkeyAction) -> Option<String> {
        match action {
            HotkeyAction::Mute => self.mute,
            HotkeyAction::VolumeUp => self.volume_up,
            HotkeyAction::VolumeDown => self.volume_down,
            HotkeyAction::NextDevice => self.next_device,
            HotkeyAction::PrevDevice => self.prev_device,
        }
    }

    /// Combination bound to `action`, if the action is switched on.
    pub fn get(&self, action: HotkeyAction) -> (r: Option<&str>)
        ensures
            match r {
                Some(s) => opt_view(self.slot(action)) == Some(s@),
                None => self.slot(action) is None,
            },
    {
        let slot = match action {
            HotkeyAction::Mute => &self.mute,
            HotkeyAction::VolumeUp => &self.volume_up,
            HotkeyAction::VolumeDown => &self.volume_down,
            HotkeyAction::NextDevice => &self.next_device,
            HotkeyAction::PrevDevice => &self.prev_device,
        };
        match slot {
            Some(s) => Some(s.as_str()),
            None => None,
        }
    }

    /// Bind (`Some`) or clear (`None`) `action`'s combination; the other
    /// actions keep theirs.
    pub fn set(&mut self, action: HotkeyAction, combo: Option<String>)
        ensures
            final(self).slot(action) == combo,
            forall|b: HotkeyAction| b != action ==> final(self).slot(b) == old(self).slot(b),
    {
        match action {
            HotkeyAction::Mute => self.mute = combo,
            HotkeyAction::VolumeUp => self.volume_up = combo,
            HotkeyAction::VolumeDown => self.volume_down = combo,
            HotkeyAction::NextDevice => self.next_device = combo,
            HotkeyAction::PrevDevice => self.prev_device = combo,
        }
    }

    /// Canonicalize every slot: trim, drop empties, drop unparsable combos,
    /// rewrite the rest as `Ctrl+Alt+M`.
    pub fn normalize(&mut self)
        ensures
            forall|a: HotkeyAction|
                opt_view(#[trigger] final(self).slot(a)) == normalized_slot(opt_view(old(self).slot(a))),
    {
        let mute = normalize_slot(&self.mute);
        let volume_up = normalize_slot(&self.volume_up);
        let volume_down = normalize_slot(&self.volume_down);
        let next_device = normalize_slot(&self.next_device);
        let prev_device = normalize_slot(&self.prev_device);
        self.mute = mute;
        self.volume_up = volume_up;
        self.volume_down = volume_down;
        self.next_device = next_device;
        self.prev_device = prev_device;
    }
}

impl Default for Hotkeys {
    fn default() -> (r: Hotkeys)
        ensures
            forall|a: HotkeyAction| r.slot(a) is None,
    {
        Hotkeys::new()
    }
}

/// Canonicalize one stored combination.
pub fn normalize_slot(v: &Option<String>) -> (r: Option<String>)
    ensures
        opt_view(r) == normalized_slot(opt_view(*v)),
{
    match v {
        None => None,
        Some(raw) => {
            let t = text::trim(raw.as_str());
            if t.unicode_len() == 0 {
                return None;
            }
            match Hotkey::parse(t) {
                Ok(h) => Some(h.to_string()),
                Err(_) => None,
            }
        },
    }
}


/// Persisted application configuration.
#[derive(Debug, Clone, PartialEq, Eq)]
pub struct AppConfig {
    /// Schema version driving [`AppConfig::migrate`].
    pub version: u32,
    pub lang: Lang,
    pub volume_limit_enabled: bool,
    /// `1..=100`.
    pub volume_limit: u32,
    pub autostart_mode: AutostartMode,
    /// Read only to migrate a v3 file into `autostart_mode`; never written back.
    pub legacy_autostart: Option<bool>,
    /// One combination per action; all off unless set.
    pub hotkeys: Hotkeys,
}

/// The defaults: current schema, system language, the cap on at 25%, the
/// `Run`-value autostart, no hotkeys.
pub open spec fn is_default_config(c: AppConfig) -> bool {
    &&& c.version == CURRENT_VERSION
    &&& c.lang == Lang::System
    &&& c.volume_limit_enabled
    &&& c.volume_limit == DEFAULT_VOLUME_LIMIT
    &&& c.autostart_mode == AutostartMode::User
    &&& c.legacy_autostart is None
    &&& forall|a: HotkeyAction| c.hotkeys.slot(a) is None
}

impl Default for AppConfig {
    fn default() -> (r: AppConfig)
        ensures
            is_default_config(r),
    {
        AppConfig {
            version: CURRENT_VERSION,
            lang: Lang::System,
            volume_limit_enabled: true,
            volume_limit: DEFAULT_VOLUME_LIMIT,
            autostart_mode: AutostartMode::User,
            legacy_autostart: None,
            hotkeys: Hotkeys::new(),
        }
    }
}

/// What migration does to a config of any schema (see [`AppConfig::migrate`]).
pub open spec fn migrated(old: AppConfig, new: AppConfig) -> bool {
    &&& new.version == CURRENT_VERSION
    &&& new.lang == (if old.version < 2 && old.lang == Lang::Zh { Lang::System } else { old.lang })
    &&& new.volume_limit_enabled == old.volume_limit_enabled
    &&& new.volume_limit == (if 1 <= old.volume_limit <= 100 {
        old.volume_limit
    } else {
        DEFAULT_VOLUME_LIMIT
    })
    &&& new.autostart_mode == (match old.legacy_autostart {
        Some(enabled) if old.version < 4 => if enabled {
            AutostartMode::User
        } else {
            AutostartMode::Off
        },
        _ => old.autostart_mode,
    })
    &&& new.legacy_autostart is None
    &&& forall|a: HotkeyAction|
        opt_view(#[trigger] new.hotkeys.slot(a)) == normalized_slot(opt_view(old.hotkeys.slot(a)))
}

/// The effective UI language: `System` resolves through the OS locale name.
pub open spec fn effective_lang_spec(lang: Lang, locale_name: Seq<char>) -> Lang {
    match lang {
        Lang::System => if locale_name.len() == 0 {
            Lang::En
        } else {
            lang_for_locale(locale_name)
        },
        other => other,
    }
}

/// The volume after the cap: at most the limit when the cap is on, and never
/// above 100 either way.
pub open spec fn clamped_volume(volume: u32, enabled: bool, limit: u32) -> u32 {
    let cap: u32 = if enabled {
        if limit < 100 { limit } else { 100 }
    } else {
        100
    };
    if volume < cap { volume } else { cap }
}

impl AppConfig {
    /// Effective UI language: `System` resolves the OS locale name (read by
    /// the caller), everything else is itself.
    pub fn effective_lang(&self, locale_name: &str) -> (r: Lang)
        ensures
            r == effective_lang_spec(self.lang, locale_name@),
    {
        match self.lang {
            Lang::System => Lang::system(locale_name),
            other => other,
        }
    }

    /// Migrate older schemas: bump the version, reset an out-of-range limit to
    /// the default (never clamp: a hand-edited value says nothing about which
    /// limit was meant), move the v1 `Zh` default to `System`, fold the v3
    /// autostart boolean into `autostart_mode`, and canonicalize the hotkeys.
    pub fn migrate(cfg: AppConfig) -> (r: AppConfig)
        ensures
            migrated(cfg, r),
    {
        let mut cfg = cfg;
        let ghost old_cfg = cfg;
        if cfg.version < 2 && matches!(cfg.lang, Lang::Zh) {
            cfg.lang = Lang::System;
        }
        if cfg.version < 4 {
            if let Some(enabled) = cfg.legacy_autostart {
                cfg.autostart_mode = if enabled {
                    AutostartMode::User
                } else {
                    AutostartMode::Off
                };
            }
        }
        cfg.legacy_autostart = None;
        cfg.version = CURRENT_VERSION;
        if !(1 <= cfg.volume_limit && cfg.volume_limit <= 100) {
            cfg.volume_limit = DEFAULT_VOLUME_LIMIT;
        }
        cfg.hotkeys.normalize();
        cfg
    }
}

/// Clamp `volume` according to `cfg`: capped at the limit while the cap is on,
/// and at 100 always, even for a limit out of range.
pub fn clamp_volume(volume: u32, cfg: &AppConfig) -> (r: u32)
    ensures
        r == clamped_volume(volume, cfg.volume_limit_enabled, cfg.volume_limit),
{
    if cfg.volume_limit_enabled {
        let cap = if cfg.volume_limit < 100 { cfg.volume_limit } else { 100 };
        if volume < cap { volume } else { cap }
    } else {
        if volume < 100 { volume } else { 100 }
    }
}

/// Why a typed-in volume limit was refused.
#[derive(Debug, Clone, Copy, PartialEq, Eq, Structural)]
pub enum LimitError {
    /// Not a whole number.
    NotANumber,
    /// A number outside `1..=100`.
    OutOfRange,
}

impl AppConfig {
    /// Validate a typed-in volume limit: surrounding whitespace ignored, a
    /// whole number in `1..=100`.
    pub fn validate_custom_limit(raw: &str) -> (r: Result<u32, LimitError>)
        ensures
            r == validate_custom_limit_spec(raw@),
    {
        match text::parse_u32(text::trim(raw)) {
            None => Err(LimitError::NotANumber),
            Some(v) => if 1 <= v && v <= 100 {
                Ok(v)
            } else {
                Err(LimitError::OutOfRange)
            },
        }
    }
}

/// The verdict on a typed-in volume limit.
pub open spec fn validate_custom_limit_spec(raw: Seq<char>) -> Result<u32, LimitError> {
    match text::parse_u32_spec(text::trim_seq(raw)) {
        None => Err(LimitError::NotANumber),
        Some(v) => if 1 <= v <= 100 {
            Ok(v)
        } else {
            Err(LimitError::OutOfRange)
        },
    }
}

/// A `volume_limit` given as a JSON number: kept when it is a non-negative
/// integer that fits `u32`.
pub fn volume_limit_from_number(n: Option<u64>) -> (r: Option<u32>)
    ensures
        r == match n {
            Some(v) if v <= u32::MAX => Some(v as u32),
            _ => None::<u32>,
        },
{
    match n {
        Some(v) => if v <= 0xFFFF_FFFF {
            Some(v as u32)
        } else {
            None
        },
        None => None,
    }
}

/// A `volume_limit` given as a JSON string: trimmed, then read as a `u32`.
pub fn volume_limit_from_text(s: &str) -> (r: Option<u32>)
    ensures
        r == text::parse_u32_spec(text::trim_seq(s@)),
{
    text::parse_u32(text::trim(s))
}


/// Where the comment stripper is in the text.
#[derive(Debug, Clone, Copy, PartialEq, Eq, Structural)]
pub enum Lex {
    /// JSON outside any string.
    Code,
    /// Inside a string.
    Str,
    /// Inside a string, right after a backslash.
    StrEscaped,
    /// Inside a `//` comment.
    LineComment,
    /// Inside a `/* */` comment.
    BlockComment,
    /// Inside a `/* */` comment, right after a `*`.
    BlockCommentStar,
}

/// The JSONC text `b` with its comments removed, starting in state `m`: `//`
/// runs to the end of the line and `/* */` to its closing `*/`, each keeping
/// its newlines; inside strings (with backslash escapes) nothing is removed.
pub open spec fn strip_from(b: Seq<u8>, m: Lex) -> Seq<u8>
    decreases b.len(),
{
    if b.len() == 0 {
        Seq::empty()
    } else {
        let c = b[0];
        let rest = b.drop_first();
        match m {
            Lex::Code => if c == 0x22 {
                seq![c] + strip_from(rest, Lex::Str)
            } else if c == 0x2F && rest.len() > 0 && rest[0] == 0x2F {
                strip_from(rest.drop_first(), Lex::LineComment)
            } else if c == 0x2F && rest.len() > 0 && rest[0] == 0x2A {
                strip_from(rest.drop_first(), Lex::BlockComment)
            } else {
                seq![c] + strip_from(rest, Lex::Code)
            },
            Lex::Str => seq![c] + strip_from(
                rest,
                if c == 0x5C {
                    Lex::StrEscaped
                } else if c == 0x22 {
                    Lex::Code
                } else {
                    Lex::Str
                },
            ),
            Lex::StrEscaped => seq![c] + strip_from(rest, Lex::Str),
            Lex::LineComment => if c == 0x0A {
                seq![0x0Au8] + strip_from(rest, Lex::Code)
            } else {
                strip_from(rest, Lex::LineComment)
            },
            Lex::BlockComment | Lex::BlockCommentStar => if c == 0x0A {
                seq![0x0Au8] + strip_from(rest, Lex::BlockComment)
            } else if m == Lex::BlockCommentStar && c == 0x2F {
                strip_from(rest, Lex::Code)
            } else if c == 0x2A {
                strip_from(rest, Lex::BlockCommentStar)
            } else {
                strip_from(rest, Lex::BlockComment)
            },
        }
    }
}

/// Calls `std::str::from_utf8` and reports whether `bytes` are UTF-8.
#[verifier::external_body]
fn is_utf8(bytes: &[u8]) -> (r: bool)
    ensures
        r == vstd::utf8::valid_utf8(bytes@),
{
    std::str::from_utf8(bytes).is_ok()
}

/// Strip `//` line comments and `/* */` blocks outside strings (JSONC).
///
/// Works on the UTF-8 bytes: every byte it looks at is ASCII, and no byte of a
/// multi-byte character is, so this is the character-level rule. Bytes that
/// are not UTF-8 come back unchanged, so the JSON parse still fails loudly.
pub fn strip_json_comments(bytes: &[u8]) -> (r: Vec<u8>)
    ensures
        r@ == (if vstd::utf8::valid_utf8(bytes@) {
            strip_from(bytes@, Lex::Code)
        } else {
            bytes@
        }),
{
    if !is_utf8(bytes) {
        return vstd::slice::slice_to_vec(bytes);
    }
    let n = bytes.len();
    let mut out: Vec<u8> = Vec::new();
    let mut m = Lex::Code;
    let mut i: usize = 0;
    assert(bytes@.skip(0) =~= bytes@);
    assert(out@ + strip_from(bytes@, Lex::Code) =~= strip_from(bytes@, Lex::Code));
    while i < n
        invariant
            n == bytes@.len(),
            i <= n,
            out@ + strip_from(bytes@.skip(i as int), m) == strip_from(bytes@, Lex::Code),
        decreases n - i,
    {
        let c = bytes[i];
        let ghost rest = bytes@.skip(i as int);
        assert(rest[0] == c);
        assert(rest.drop_first() =~= bytes@.skip(i + 1));
        let ghost old_out = out@;
        match m {
            Lex::Code => {
                if c == 0x22 {
                    out.push(c);
                    m = Lex::Str;
                } else if c == 0x2F && i + 1 < n && bytes[i + 1] == 0x2F {
                    assert(rest.drop_first().drop_first() =~= bytes@.skip(i + 2));
                    m = Lex::LineComment;
                    i = i + 1;
                } else if c == 0x2F && i + 1 < n && bytes[i + 1] == 0x2A {
                    assert(rest.drop_first().drop_first() =~= bytes@.skip(i + 2));
                    m = Lex::BlockComment;
                    i = i + 1;
                } else {
                    out.push(c);
                }
            },
            Lex::Str => {
                out.push(c);
                m = if c == 0x5C {
                    Lex::StrEscaped
                } else if c == 0x22 {
                    Lex::Code
                } else {
                    Lex::Str
                };
            },
            Lex::StrEscaped => {
                out.push(c);
                m = Lex::Str;
            },
            Lex::LineComment => {
                if c == 0x0A {
                    out.push(0x0A);
                    m = Lex::Code;
                }
            },
            Lex::BlockComment | Lex::BlockCommentStar => {
                if c == 0x0A {
                    out.push(0x0A);
                    m = Lex::BlockComment;
                } else if matches!(m, Lex::BlockCommentStar) && c == 0x2F {
                    m = Lex::Code;
                } else if c == 0x2A {
                    m = Lex::BlockCommentStar;
                } else {
                    m = Lex::BlockComment;
                }
            },
        }
        i = i + 1;
    }
    out
}


/// The header's opening lines.
pub const HEADER_TOP: [&'static str; 2] = [
    "// AudioSwitcher config — edit, save, then restart the app to apply.",
    "// 配置文件 — 改完保存后重启生效。",
];

/// The start of the header line naming the file's location.
pub const HEADER_LOCATION: &'static str = "// Location / 位置: ";

/// The header's lines after the location: the format of every field and of
/// the hotkey combinations.
pub const HEADER_BODY: [&'static str; 20] = [
    "// Language / 语言: \"system\" (follow OS / 跟随系统), \"zh\", \"en\".",
    "// Volume limit / 音量上限: \"volume_limit_enabled\" true/false, \"volume_limit\" 1-100.",
    "// Autostart / 开机自启: \"autostart_mode\" = \"off\" | \"user\" (Run value / 注册表启动) | \"admin\" (elevated logon task / 管理员权限登录任务).",
    "//",
    "// Hotkeys / 快捷键 (all unbound by default / 默认无绑定):",
    "//   Each action takes a combination string; null disables it.",
    "//   每个动作填组合字符串，null 表示关闭。",
    "//   Format / 格式: modifiers + key, e.g. \"Ctrl+Alt+M\".",
    "//   Modifiers / 修饰键 (at least one / 至少一个): Ctrl, Alt, Shift, Win (case-insensitive, any order / 不区分大小写，顺序不限).",
    "//   Key / 按键: A-Z, 0-9, F1-F24, Up/Down/Left/Right, Space, Enter, etc.",
    "//   Actions / 动作:",
    "//     \"mute\"         Toggle mute / 静音切换",
    "//     \"volume_up\"    Volume up 2% per press / 音量加（每次 2%）",
    "//     \"volume_down\"  Volume down 2% per press / 音量减（每次 2%）",
    "//     \"next_device\"  Next output device / 下一个输出设备",
    "//     \"prev_device\"  Previous output device / 上一个输出设备",
    "//   Example / 示例:",
    "//     \"hotkeys\": { \"mute\": \"Ctrl+Alt+M\", \"volume_up\": \"Ctrl+Alt+Up\", \"volume_down\": \"Ctrl+Alt+Down\", \"next_device\": null, \"prev_device\": null }",
    "//   A combination owned by another program is disabled with a dialog; the rest keep working.",
    "//   被其他程序占用的组合会弹窗并自动禁用，其余照常工作。",
];

/// Lines joined as text, each ended by a line break.
pub open spec fn lines_text(lines: Seq<Seq<char>>) -> Seq<char>
    decreases lines.len(),
{
    if lines.len() == 0 {
        Seq::empty()
    } else {
        lines[0] + "\n"@ + lines_text(lines.drop_first())
    }
}

/// The header's lines for a file written to `path`.
pub open spec fn header_lines(path: Seq<char>) -> Seq<Seq<char>> {
    seq![HEADER_TOP[0]@, HEADER_TOP[1]@, HEADER_LOCATION@ + path] + Seq::new(
        20,
        |i: int| HEADER_BODY[i]@,
    )
}

proof fn lemma_lines_text_push(lines: Seq<Seq<char>>, l: Seq<char>)
    ensures
        lines_text(lines.push(l)) == lines_text(lines) + l + "\n"@,
    decreases lines.len(),
{
    if lines.len() == 0 {
        assert(lines.push(l).drop_first() =~= Seq::<Seq<char>>::empty());
        assert(lines_text(Seq::<Seq<char>>::empty()) == Seq::<char>::empty());
        assert(lines.push(l)[0] == l);
        assert(lines_text(lines) == Seq::<char>::empty());
        assert(lines_text(lines.push(l)) =~= l + "\n"@ + Seq::<char>::empty());
    } else {
        assert(lines.push(l).drop_first() =~= lines.drop_first().push(l));
        lemma_lines_text_push(lines.drop_first(), l);
        assert(lines_text(lines.push(l)) =~= lines_text(lines) + l + "\n"@);
    }
}

/// Bilingual header written above the JSON body on every save: how to edit
/// the file, the format of every field and of the hotkey combinations, and
/// the path this file is actually written to, one `//` comment per line.
pub fn config_comment_header(path: &str) -> (r: String)
    ensures
        r@ == lines_text(header_lines(path@)),
{
    let mut r = String::new();
    let ghost lines = header_lines(path@);
    let mut i: usize = 0;
    while i < 2
        invariant
            i <= 2,
            lines == header_lines(path@),
            r@ == lines_text(lines.take(i as int)),
        decreases 2 - i,
    {
        let ghost before = r@;
        r.append(HEADER_TOP[i]);
        r.append("\n");
        proof {
            assert(lines.take(i + 1) =~= lines.take(i as int).push(lines[i as int]));
            lemma_lines_text_push(lines.take(i as int), lines[i as int]);
        }
        i = i + 1;
    }
    r.append(HEADER_LOCATION);
    r.append(path);
    r.append("\n");
    proof {
        assert(lines.take(3) =~= lines.take(2).push(lines[2]));
        lemma_lines_text_push(lines.take(2), lines[2]);
        assert(r@ =~= lines_text(lines.take(3)));
    }
    let mut j: usize = 0;
    while j < 20
        invariant
            j <= 20,
            lines == header_lines(path@),
            r@ == lines_text(lines.take(3 + j)),
        decreases 20 - j,
    {
        r.append(HEADER_BODY[j]);
        r.append("\n");
        proof {
            assert(lines.take(3 + j + 1) =~= lines.take(3 + j).push(lines[3 + j]));
            lemma_lines_text_push(lines.take(3 + j), lines[3 + j]);
        }
        j = j + 1;
    }
    assert(lines.take(23) =~= lines);
    r
}

/// The whole config file: the header, a newline, the JSON body, a newline.
pub fn config_file_text(path: &str, json: &str) -> (r: String)
    ensures
        r@ == lines_text(header_lines(path@)) + "\n"@ + json@ + "\n"@,
{
    let mut r = config_comment_header(path);
    r.append("\n");
    r.append(json);
    r.append("\n");
    r
}

} // verus!

verus! {

/// File name of the config inside its folder.
pub const CONFIG_FILE_NAME: &'static str = "config.json";

/// Folder name of the pre-scheme (v1) config, for the one-time import.
pub const LEGACY_DIR_NAME: &'static str = "AudioSwitcher";

/// `name` appended to the folder `dir` with the Windows separator (none added
/// after an empty folder or one that already ends in a separator).
pub open spec fn join_spec(dir: Seq<char>, name: Seq<char>) -> Seq<char> {
    if dir.len() == 0 {
        name
    } else if dir.last() == '\\' || dir.last() == '/' {
        dir + name
    } else {
        dir + "\\"@ + name
    }
}

/// Append `name` to the folder `dir` (see [`join_spec`]).
pub fn join_path(dir: &str, name: &str) -> (r: String)
    ensures
        r@ == join_spec(dir@, name@),
{
    let n = dir.unicode_len();
    if n == 0 {
        return text::to_owned(name);
    }
    let last = dir.get_char(n - 1);
    if last == '\\' || last == '/' {
        text::concat(dir, name)
    } else {
        let mut s = text::concat(dir, "\\");
        s.append(name);
        s
    }
}

/// Where the config lives: its folder, its file, and whether that is the
/// degraded temp fallback (saves warn).
#[derive(Debug, Clone, PartialEq, Eq)]
pub struct ConfigLocation {
    pub dir: String,
    pub path: String,
    pub degraded: bool,
}

/// The config folder under a root: `<root>\audio-switcher`.
pub open spec fn tool_dir(root: Seq<char>) -> Seq<char> {
    join_spec(root, crate::TOOL_ID@)
}

/// The first usable root: `APPDATA`, then `LOCALAPPDATA`, each only when set
/// to an absolute path; otherwise the temp folder, degraded.
pub open spec fn resolve_spec(
    appdata: Option<(Seq<char>, bool)>,
    localappdata: Option<(Seq<char>, bool)>,
    tmp: Seq<char>,
) -> (Seq<char>, bool) {
    match appdata {
        Some((root, true)) => (root, false),
        _ => match localappdata {
            Some((root, true)) => (root, false),
            _ => (tmp, true),
        },
    }
}

/// Resolve the config location from the environment's roots; each root comes
/// with whether it is an absolute path.
pub fn resolve_for(appdata: Option<(&str, bool)>, localappdata: Option<(&str, bool)>, tmp: &str) -> (r:
    ConfigLocation)
    ensures
        ({
            let (root, degraded) = resolve_spec(
                match appdata {
                    Some((s, a)) => Some((s@, a)),
                    None => None,
                },
                match localappdata {
                    Some((s, a)) => Some((s@, a)),
                    None => None,
                },
                tmp@,
            );
            &&& r.dir@ == tool_dir(root)
            &&& r.path@ == join_spec(tool_dir(root), CONFIG_FILE_NAME@)
            &&& r.degraded == degraded
        }),
{
    let (root, degraded) = match appdata {
        Some((s, true)) => (s, false),
        _ => match localappdata {
            Some((s, true)) => (s, false),
            _ => (tmp, true),
        },
    };
    let dir = join_path(root, crate::TOOL_ID);
    let path = join_path(dir.as_str(), CONFIG_FILE_NAME);
    ConfigLocation { dir, path, degraded }
}

/// The legacy v1 config file under an absolute `APPDATA`
/// (`<APPDATA>\AudioSwitcher\config.json`); none otherwise.
pub fn legacy_config_path(appdata: Option<(&str, bool)>) -> (r: Option<String>)
    ensures
        match appdata {
            Some((root, true)) => r matches Some(p) && p@ == join_spec(
                join_spec(root@, LEGACY_DIR_NAME@),
                CONFIG_FILE_NAME@,
            ),
            _ => r is None,
        },
{
    match appdata {
        Some((root, true)) => {
            let dir = join_path(root, LEGACY_DIR_NAME);
            Some(join_path(dir.as_str(), CONFIG_FILE_NAME))
        },
        _ => None,
    }
}

/// What reading the config file gave.
#[derive(Debug, Clone, PartialEq, Eq)]
pub enum ConfigRead {
    /// The file parsed (comments stripped) into a config.
    Parsed(AppConfig),
    /// The file exists but is not a valid config (corrupt JSON, unknown field).
    Corrupt,
    /// There is no file yet.
    NotFound,
    /// The file could not be read (e.g. permission).
    Failed,
}

/// What the caller does after a load besides using the returned config.
#[derive(Debug, Clone, Copy, PartialEq, Eq, Structural)]
pub enum LoadFollowUp {
    Nothing,
    /// First run: write the defaults out.
    WriteDefaults,
    /// Back the offending bytes up next to the file, then write the defaults.
    BackupAndReset,
}

impl AppConfig {
    /// The config file path.
    pub fn config_path(loc: &ConfigLocation) -> (r: String)
        ensures
            r@ == loc.path@,
    {
        loc.path.clone()
    }

    /// The config folder (parent of the config path).
    pub fn config_dir(loc: &ConfigLocation) -> (r: String)
        ensures
            r@ == loc.dir@,
    {
        loc.dir.clone()
    }

    /// Whether the resolved path is the degraded temp fallback.
    pub fn config_degraded(loc: &ConfigLocation) -> (r: bool)
        ensures
            r == loc.degraded,
    {
        loc.degraded
    }

    /// The config path inside a given folder.
    pub fn config_path_for(dir: &str) -> (r: String)
        ensures
            r@ == join_spec(dir@, CONFIG_FILE_NAME@),
    {
        join_path(dir, CONFIG_FILE_NAME)
    }

    /// The config a read gives, and what to do next: a parsed file is
    /// migrated; a corrupt one resets to the defaults after a backup (loud,
    /// never silent); a missing one starts from the defaults and writes them;
    /// an unreadable one runs on in-memory defaults without touching the file.
    pub fn load(read: ConfigRead) -> (r: (AppConfig, LoadFollowUp))
        ensures
            match read {
                ConfigRead::Parsed(cfg) => migrated(cfg, r.0) && r.1 == LoadFollowUp::Nothing,
                ConfigRead::Corrupt => is_default_config(r.0) && r.1
                    == LoadFollowUp::BackupAndReset,
                ConfigRead::NotFound => is_default_config(r.0) && r.1
                    == LoadFollowUp::WriteDefaults,
                ConfigRead::Failed => is_default_config(r.0) && r.1 == LoadFollowUp::Nothing,
            },
    {
        match read {
            ConfigRead::Parsed(cfg) => (AppConfig::migrate(cfg), LoadFollowUp::Nothing),
            ConfigRead::Corrupt => (AppConfig::default(), LoadFollowUp::BackupAndReset),
            ConfigRead::NotFound => (AppConfig::default(), LoadFollowUp::WriteDefaults),
            ConfigRead::Failed => (AppConfig::default(), LoadFollowUp::Nothing),
        }
    }
}

/// Whether the legacy file is imported: only when the new file is missing
/// and the legacy one exists.
pub fn should_import_legacy(new_exists: bool, legacy_exists: bool) -> (r: bool)
    ensures
        r == (!new_exists && legacy_exists),
{
    !new_exists && legacy_exists
}

/// The config a legacy file imports as: migrated when it parsed; a file the
/// current schema cannot parse is skipped, never replaced by defaults.
pub fn legacy_import(parsed: Option<AppConfig>) -> (r: Option<AppConfig>)
    ensures
        match parsed {
            Some(cfg) => r matches Some(m) && migrated(cfg, m),
            None => r is None,
        },
{
    match parsed {
        Some(cfg) => Some(AppConfig::migrate(cfg)),
        None => None,
    }
}

} // verus!

verus! {

/// The bindings a config asks for, action by action in `actions`' order:
/// every switched-on action whose combination parses (one that does not is
/// skipped, the others still bind).
pub open spec fn bindings_spec(h: Hotkeys, actions: Seq<HotkeyAction>) -> Seq<(HotkeyAction, hotkey::Hotkey)>
    decreases actions.len(),
{
    if actions.len() == 0 {
        Seq::empty()
    } else {
        let prev = bindings_spec(h, actions.drop_last());
        let a = actions.last();
        match opt_view(h.slot(a)) {
            Some(raw) => match hotkey::parse_spec(raw) {
                Ok(k) => prev.push((a, k)),
                Err(_) => prev,
            },
            None => prev,
        }
    }
}

/// The hotkeys to register at startup: every action of [`HotkeyAction::ALL`]
/// with a combination that parses, in id order.
pub fn hotkey_bindings(h: &Hotkeys) -> (r: Vec<(HotkeyAction, hotkey::Hotkey)>)
    ensures
        r@ == bindings_spec(*h, HotkeyAction::ALL@),
{
    let mut out: Vec<(HotkeyAction, hotkey::Hotkey)> = Vec::new();
    let mut i: usize = 0;
    while i < 5
        invariant
            i <= 5,
            out@ == bindings_spec(*h, HotkeyAction::ALL@.take(i as int)),
        decreases 5 - i,
    {
        let action = HotkeyAction::ALL[i];
        proof {
            assert(HotkeyAction::ALL@.take(i + 1).drop_last() =~= HotkeyAction::ALL@.take(i as int));
            assert(HotkeyAction::ALL@.take(i + 1).last() == action);
        }
        match h.get(action) {
            Some(raw) => match hotkey::Hotkey::parse(raw) {
                Ok(k) => out.push((action, k)),
                Err(_) => {},
            },
            None => {},
        }
        i = i + 1;
    }
    assert(HotkeyAction::ALL@.take(5) =~= HotkeyAction::ALL@);
    out
}

} // verus!

verus! {

/// Canonicalizing a stored combination twice changes nothing more than
/// canonicalizing it once.
pub proof fn lemma_normalized_slot_idempotent(v: Option<Seq<char>>)
    ensures
        normalized_slot(normalized_slot(v)) == normalized_slot(v),
{
    match v {
        None => {},
        Some(raw) => {
            let t = text::trim_seq(raw);
            if t.len() > 0 {
                if let Ok(h) = hotkey::parse_spec(t) {
                    hotkey::lemma_parsed_is_valid(t);
                    hotkey::lemma_canonical_text_trimmed(h);
                    hotkey::lemma_canonical_round_trip(h);
                }
            }
        },
    }
}

/// Two configs agree in everything the file stores, the combinations compared
/// as text.
pub open spec fn same_config(a: AppConfig, b: AppConfig) -> bool {
    &&& a.version == b.version
    &&& a.lang == b.lang
    &&& a.volume_limit_enabled == b.volume_limit_enabled
    &&& a.volume_limit == b.volume_limit
    &&& a.autostart_mode == b.autostart_mode
    &&& a.legacy_autostart == b.legacy_autostart
    &&& forall|x: HotkeyAction| opt_view(#[trigger] a.hotkeys.slot(x)) == opt_view(b.hotkeys.slot(x))
}

/// Migration is idempotent: a migrated config migrates to itself.
pub proof fn lemma_migrate_idempotent(c: AppConfig, m1: AppConfig, m2: AppConfig)
    requires
        migrated(c, m1),
        migrated(m1, m2),
    ensures
        same_config(m1, m2),
{
    assert forall|x: HotkeyAction| opt_view(#[trigger] m1.hotkeys.slot(x)) == opt_view(m2.hotkeys.slot(x)) by {
        lemma_normalized_slot_idempotent(opt_view(c.hotkeys.slot(x)));
    }
}

/// A migrated config is in range: the current schema, a limit in `1..=100`,
/// no legacy autostart flag, and every combination canonical.
pub proof fn lemma_migrated_in_range(c: AppConfig, m: AppConfig)
    requires
        migrated(c, m),
    ensures
        m.version == CURRENT_VERSION,
        1 <= m.volume_limit <= 100,
        m.legacy_autostart is None,
        forall|x: HotkeyAction| #[trigger] normalized_slot(opt_view(m.hotkeys.slot(x))) == opt_view(
            m.hotkeys.slot(x),
        ),
{
    assert forall|x: HotkeyAction| #[trigger] normalized_slot(opt_view(m.hotkeys.slot(x))) == opt_view(
        m.hotkeys.slot(x),
    ) by {
        lemma_normalized_slot_idempotent(opt_view(c.hotkeys.slot(x)));
    }
}

} // verus!

verus! {

/// A language's spelling names that language, and only its own spelling
/// does.
pub proof fn lemma_lang_name_round_trip(l: Lang, name: Seq<char>)
    ensures
        Lang::from_name_spec(l.spec_as_str()) == Some(l),
        Lang::from_name_spec(name) == Some(l) ==> name == l.spec_as_str(),
{
    reveal_strlit("system");
    reveal_strlit("zh");
    reveal_strlit("en");
    assert("zh"@.len() != "system"@.len());
    assert("en"@.len() != "system"@.len());
    assert("zh"@ != "en"@) by {
        assert("zh"@[0] != "en"@[0]);
    }
}

} // verus!

verus! {

/// The cap never raises the volume, never exceeds 100, holds the volume at
/// or below the limit while on, and applying it twice is applying it once.
pub proof fn lemma_clamp_laws(volume: u32, enabled: bool, limit: u32)
    ensures
        clamped_volume(volume, enabled, limit) <= volume,
        clamped_volume(volume, enabled, limit) <= 100,
        enabled ==> clamped_volume(volume, enabled, limit) <= limit,
        clamped_volume(clamped_volume(volume, enabled, limit), enabled, limit) == clamped_volume(
            volume,
            enabled,
            limit,
        ),
        volume <= 100 && (!enabled || volume <= limit) ==> clamped_volume(volume, enabled, limit)
            == volume,
{
}

} // verus!

verus! {

/// A `//` comment line: it opens with `//` and holds no line break.
pub open spec fn comment_line(l: Seq<char>) -> bool {
    l.len() >= 2 && l[0] == '/' && l[1] == '/' && !l.contains('\n')
}

/// `n` line breaks, as bytes.
pub open spec fn line_breaks(n: nat) -> Seq<u8> {
    Seq::new(n, |i: int| 0x0Au8)
}

proof fn lemma_utf8_concat(a: Seq<char>, b: Seq<char>)
    ensures
        encode_utf8(a + b) == encode_utf8(a) + encode_utf8(b),
    decreases a.len(),
{
    if a.len() == 0 {
        assert(a + b =~= b);
        assert(encode_utf8(a) =~= Seq::<u8>::empty());
        assert(encode_utf8(a) + encode_utf8(b) =~= encode_utf8(b));
    } else {
        assert((a + b).drop_first() =~= a.drop_first() + b);
        assert((a + b)[0] == a[0]);
        lemma_utf8_concat(a.drop_first(), b);
        assert(encode_utf8(a + b) =~= encode_utf8(a) + encode_utf8(b));
    }
}

proof fn lemma_scalar_bytes(s: u32)
    requires
        vstd::utf8::is_scalar(s),
    ensures
        s < 0x80 ==> vstd::utf8::encode_scalar(s) == seq![s as u8],
        s >= 0x80 ==> forall|i: int|
            0 <= i < vstd::utf8::encode_scalar(s).len() ==> #[trigger] vstd::utf8::encode_scalar(s)[i] >= 0x80,
{
    if s < 0x80 {
        assert((s & 0x7F) as u8 == s as u8) by (bit_vector)
            requires s < 0x80u32;
    } else {
        assert(0xC0u8 | ((s >> 6u32) & 0x1Fu32) as u8 >= 0x80u8) by (bit_vector);
        assert(0xE0u8 | ((s >> 12u32) & 0x0Fu32) as u8 >= 0x80u8) by (bit_vector);
        assert(0xF0u8 | ((s >> 18u32) & 0x7u32) as u8 >= 0x80u8) by (bit_vector);
        assert(0x80u8 | (s & 0x3Fu32) as u8 >= 0x80u8) by (bit_vector);
        assert(0x80u8 | ((s >> 6u32) & 0x3Fu32) as u8 >= 0x80u8) by (bit_vector);
        assert(0x80u8 | ((s >> 12u32) & 0x3Fu32) as u8 >= 0x80u8) by (bit_vector);
    }
}

/// The UTF-8 bytes of a text without the ASCII character `c` hold no byte `c`.
proof fn lemma_utf8_avoids(t: Seq<char>, c: char)
    requires
        (c as u32) < 0x80,
        !t.contains(c),
    ensures
        forall|i: int| 0 <= i < encode_utf8(t).len() ==> #[trigger] encode_utf8(t)[i] != (c as u32) as u8,
    decreases t.len(),
{
    if t.len() > 0 {
        assert(!t.drop_first().contains(c)) by {
            if t.drop_first().contains(c) {
                let k = choose|k: int| 0 <= k < t.drop_first().len() && t.drop_first()[k] == c;
                assert(t[k + 1] == c);
            }
        }
        lemma_utf8_avoids(t.drop_first(), c);
        vstd::utf8::char_is_scalar(t[0]);
        lemma_scalar_bytes(t[0] as u32);
        let head = vstd::utf8::encode_scalar(t[0] as u32);
        assert(t[0] != c);
        assert forall|i: int| 0 <= i < head.len() implies #[trigger] head[i] != (c as u32) as u8 by {
            if (t[0] as u32) < 0x80 {
                assert(head[i] == (t[0] as u32) as u8);
                vstd::utf8::char_u32_cast(t[0], t[0] as u32);
                vstd::utf8::char_u32_cast(c, c as u32);
                assert((t[0] as u32) != (c as u32));
            }
        }
        assert(encode_utf8(t) == head + encode_utf8(t.drop_first()));
        assert forall|i: int| 0 <= i < encode_utf8(t).len() implies #[trigger] encode_utf8(t)[i] != (
        c as u32) as u8 by {
            if i < head.len() {
                assert(encode_utf8(t)[i] == head[i]);
            } else {
                assert(encode_utf8(t)[i] == encode_utf8(t.drop_first())[i - head.len()]);
            }
        }
    }
}

/// Inside a `//` comment every byte up to the line break is dropped.
proof fn lemma_skip_line(b: Seq<u8>, rest: Seq<u8>)
    requires
        forall|i: int| 0 <= i < b.len() ==> #[trigger] b[i] != 0x0A,
    ensures
        strip_from(b + rest, Lex::LineComment) == strip_from(rest, Lex::LineComment),
    decreases b.len(),
{
    if b.len() > 0 {
        assert((b + rest)[0] == b[0]);
        assert((b + rest).drop_first() =~= b.drop_first() + rest);
        lemma_skip_line(b.drop_first(), rest);
    } else {
        assert(b + rest =~= rest);
    }
}

/// Outside comments, bytes without a `/` come through unchanged.
proof fn lemma_plain_bytes(b: Seq<u8>, m: Lex)
    requires
        m == Lex::Code || m == Lex::Str || m == Lex::StrEscaped,
        forall|i: int| 0 <= i < b.len() ==> #[trigger] b[i] != 0x2F,
    ensures
        strip_from(b, m) == b,
    decreases b.len(),
{
    if b.len() > 0 {
        let c = b[0];
        let next = match m {
            Lex::Code => if c == 0x22 { Lex::Str } else { Lex::Code },
            Lex::Str => if c == 0x5C {
                Lex::StrEscaped
            } else if c == 0x22 {
                Lex::Code
            } else {
                Lex::Str
            },
            _ => Lex::Str,
        };
        lemma_plain_bytes(b.drop_first(), next);
        assert(strip_from(b, m) == seq![c] + strip_from(b.drop_first(), next));
        assert(seq![c] + b.drop_first() =~= b);
    }
}

/// One comment line and its line break strip to the line break alone.
proof fn lemma_strip_comment_line(l: Seq<char>, rest: Seq<u8>)
    requires
        comment_line(l),
    ensures
        strip_from(encode_utf8(l + "\n"@) + rest, Lex::Code) == seq![0x0Au8] + strip_from(
            rest,
            Lex::Code,
        ),
{
    reveal_strlit("\n");
    let tail = l.skip(2);
    assert(l =~= seq!['/', '/'] + tail);
    assert(!tail.contains('\n')) by {
        if tail.contains('\n') {
            let k = choose|k: int| 0 <= k < tail.len() && tail[k] == '\n';
            assert(l[k + 2] == '\n');
        }
    }
    assert(l + "\n"@ =~= seq!['/', '/'] + (tail + seq!['\n']));
    lemma_utf8_concat(seq!['/', '/'], tail + seq!['\n']);
    lemma_utf8_concat(tail, seq!['\n']);
    vstd::utf8::char_is_scalar('/');
    vstd::utf8::char_is_scalar('\n');
    lemma_scalar_bytes('/' as u32);
    lemma_scalar_bytes('\n' as u32);
    assert(('/' as u32) == 0x2Fu32);
    assert(('\n' as u32) == 0x0Au32);
    assert(vstd::utf8::encode_scalar('/' as u32) == seq![0x2Fu8]);
    assert(vstd::utf8::encode_scalar('\n' as u32) == seq![0x0Au8]);
    assert(encode_utf8(seq!['/', '/']) =~= seq![0x2Fu8, 0x2Fu8]) by {
        assert(seq!['/', '/'].drop_first() =~= seq!['/']);
        assert(seq!['/'].drop_first() =~= Seq::<char>::empty());
        assert(encode_utf8(Seq::<char>::empty()) == Seq::<u8>::empty());
        assert(seq!['/'][0] == '/');
        assert(encode_utf8(seq!['/']) == vstd::utf8::encode_scalar(seq!['/'][0] as u32) + encode_utf8(seq!['/'].drop_first()));
        assert(encode_utf8(seq!['/']) =~= seq![0x2Fu8] + Seq::<u8>::empty());
        assert(seq!['/', '/'][0] == '/');
        assert(encode_utf8(seq!['/', '/']) == vstd::utf8::encode_scalar(seq!['/', '/'][0] as u32) + encode_utf8(seq!['/', '/'].drop_first()));
    }
    assert(encode_utf8(seq!['\n']) =~= seq![0x0Au8]) by {
        assert(seq!['\n'].drop_first() =~= Seq::<char>::empty());
        assert(encode_utf8(Seq::<char>::empty()) == Seq::<u8>::empty());
        assert(seq!['\n'][0] == '\n');
        assert(encode_utf8(seq!['\n']) == vstd::utf8::encode_scalar(seq!['\n'][0] as u32) + encode_utf8(seq!['\n'].drop_first()));
    }
    let x = encode_utf8(tail);
    lemma_utf8_avoids(tail, '\n');
    let all = encode_utf8(l + "\n"@) + rest;
    assert(all =~= seq![0x2Fu8, 0x2Fu8] + (x + (seq![0x0Au8] + rest)));
    assert(all.drop_first().drop_first() =~= x + (seq![0x0Au8] + rest));
    assert(strip_from(all, Lex::Code) == strip_from(all.drop_first().drop_first(), Lex::LineComment));
    lemma_skip_line(x, seq![0x0Au8] + rest);
    assert((seq![0x0Au8] + rest).drop_first() =~= rest);
}

/// A run of comment lines strips to their line breaks.
proof fn lemma_strip_comment_lines(lines: Seq<Seq<char>>, rest: Seq<u8>)
    requires
        forall|i: int| 0 <= i < lines.len() ==> comment_line(#[trigger] lines[i]),
    ensures
        strip_from(encode_utf8(lines_text(lines)) + rest, Lex::Code) == line_breaks(lines.len())
            + strip_from(rest, Lex::Code),
    decreases lines.len(),
{
    if lines.len() == 0 {
        assert(encode_utf8(lines_text(lines)) + rest =~= rest);
        assert(line_breaks(0) + strip_from(rest, Lex::Code) =~= strip_from(rest, Lex::Code));
    } else {
        let l = lines[0];
        let more = lines_text(lines.drop_first());
        lemma_utf8_concat(l + "\n"@, more);
        assert(lines_text(lines) == l + "\n"@ + more);
        assert(encode_utf8(lines_text(lines)) + rest =~= encode_utf8(l + "\n"@) + (encode_utf8(more)
            + rest));
        lemma_strip_comment_line(l, encode_utf8(more) + rest);
        assert forall|i: int| 0 <= i < lines.drop_first().len() implies comment_line(
            #[trigger] lines.drop_first()[i],
        ) by {
            assert(lines.drop_first()[i] == lines[i + 1]);
        }
        lemma_strip_comment_lines(lines.drop_first(), rest);
        assert(seq![0x0Au8] + line_breaks((lines.len() - 1) as nat) =~= line_breaks(lines.len()));
    }
}

proof fn lemma_prefix_holds_marker(lower: Seq<char>, prefix: Seq<char>, marker: Seq<char>)
    requires
        prefix.len() == 5,
        marker =~= prefix.subrange(2, 5),
        text::starts_with_seq(lower, prefix),
    ensures
        text::contains_seq(lower, marker),
{
    assert(lower.subrange(2, 5) =~= prefix.subrange(2, 5)) by {
        assert forall|k: int| 0 <= k < 3 implies lower.subrange(2, 5)[k] == prefix.subrange(2, 5)[k] by {
            assert(lower.subrange(0, 5)[k + 2] == prefix[k + 2]);
        }
    }
    assert(text::occurs_at(lower, marker, 2));
}

/// Traditional-Chinese locales get the English UI, compared case-insensitively:
/// every locale whose name starts with `zh-HK`, `zh-TW`, `zh-MO` (or the same
/// with `_`), and every one naming the `Hant` script; a locale that is not
/// Chinese at all is English too.
pub proof fn lemma_traditional_chinese_locales_use_english(name: Seq<char>)
    ensures
        text::contains_seq(text::lower_seq(name), "hant"@) ==> lang_for_locale(name) == Lang::En,
        text::starts_with_seq(text::lower_seq(name), "zh-hk"@) ==> lang_for_locale(name) == Lang::En,
        text::starts_with_seq(text::lower_seq(name), "zh-tw"@) ==> lang_for_locale(name) == Lang::En,
        text::starts_with_seq(text::lower_seq(name), "zh-mo"@) ==> lang_for_locale(name) == Lang::En,
        text::starts_with_seq(text::lower_seq(name), "zh_hk"@) ==> lang_for_locale(name) == Lang::En,
        text::starts_with_seq(text::lower_seq(name), "zh_tw"@) ==> lang_for_locale(name) == Lang::En,
        text::starts_with_seq(text::lower_seq(name), "zh_mo"@) ==> lang_for_locale(name) == Lang::En,
        !text::starts_with_seq(text::lower_seq(name), "zh"@) ==> lang_for_locale(name) == Lang::En,
{
    reveal_strlit("zh-hk");
    reveal_strlit("zh-tw");
    reveal_strlit("zh-mo");
    reveal_strlit("zh_hk");
    reveal_strlit("zh_tw");
    reveal_strlit("zh_mo");
    reveal_strlit("-hk");
    reveal_strlit("-tw");
    reveal_strlit("-mo");
    reveal_strlit("_hk");
    reveal_strlit("_tw");
    reveal_strlit("_mo");
    let lower = text::lower_seq(name);
    if text::starts_with_seq(lower, "zh-hk"@) {
        lemma_prefix_holds_marker(lower, "zh-hk"@, "-hk"@);
    }
    if text::starts_with_seq(lower, "zh-tw"@) {
        lemma_prefix_holds_marker(lower, "zh-tw"@, "-tw"@);
    }
    if text::starts_with_seq(lower, "zh-mo"@) {
        lemma_prefix_holds_marker(lower, "zh-mo"@, "-mo"@);
    }
    if text::starts_with_seq(lower, "zh_hk"@) {
        lemma_prefix_holds_marker(lower, "zh_hk"@, "_hk"@);
    }
    if text::starts_with_seq(lower, "zh_tw"@) {
        lemma_prefix_holds_marker(lower, "zh_tw"@, "_tw"@);
    }
    if text::starts_with_seq(lower, "zh_mo"@) {
        lemma_prefix_holds_marker(lower, "zh_mo"@, "_mo"@);
    }
}

/// In any letter case, a Hong Kong, Taiwan or Macau Chinese locale is English:
/// `zh-HK` followed by anything resolves to English, and so do `zh-TW`,
/// `zh-MO` and their `_` forms.
pub proof fn lemma_hk_tw_mo_locales_use_english(region: Seq<char>, suffix: Seq<char>)
    requires
        region == "zh-HK"@ || region == "zh-TW"@ || region == "zh-MO"@ || region == "zh_HK"@
            || region == "zh_TW"@ || region == "zh_MO"@,
    ensures
        lang_for_locale(region + suffix) == Lang::En,
{
    reveal_strlit("zh-HK");
    reveal_strlit("zh-TW");
    reveal_strlit("zh-MO");
    reveal_strlit("zh_HK");
    reveal_strlit("zh_TW");
    reveal_strlit("zh_MO");
    reveal_strlit("zh-hk");
    reveal_strlit("zh-tw");
    reveal_strlit("zh-mo");
    reveal_strlit("zh_hk");
    reveal_strlit("zh_tw");
    reveal_strlit("zh_mo");
    let name = region + suffix;
    let lower = text::lower_seq(name);
    let head = lower.subrange(0, 5);
    assert(head =~= text::lower_seq(region));
    lemma_traditional_chinese_locales_use_english(name);
    if region == "zh-HK"@ {
        assert(head =~= "zh-hk"@);
    } else if region == "zh-TW"@ {
        assert(head =~= "zh-tw"@);
    } else if region == "zh-MO"@ {
        assert(head =~= "zh-mo"@);
    } else if region == "zh_HK"@ {
        assert(head =~= "zh_hk"@);
    } else if region == "zh_TW"@ {
        assert(head =~= "zh_tw"@);
    } else {
        assert(head =~= "zh_mo"@);
    }
}

/// The line breaks of `x`, in order.
pub open spec fn newlines_of(x: Seq<u8>) -> Seq<u8>
    decreases x.len(),
{
    if x.len() == 0 {
        Seq::empty()
    } else {
        (if x[0] == 0x0A { seq![0x0Au8] } else { Seq::empty() }) + newlines_of(x.drop_first())
    }
}

/// Whether `*/` starts at index `i` of `x`.
pub open spec fn closes_at(x: Seq<u8>, i: int) -> bool {
    0 <= i && i + 1 < x.len() && x[i] == 0x2A && x[i + 1] == 0x2F
}

/// Whether `*/` occurs in `x`.
pub open spec fn has_block_close(x: Seq<u8>) -> bool {
    exists|i: int| #[trigger] closes_at(x, i)
}

proof fn lemma_block_body(x: Seq<u8>, y: Seq<u8>, m: Lex)
    requires
        !has_block_close(x),
        m == Lex::BlockComment || (m == Lex::BlockCommentStar && (x.len() == 0 || x[0] != 0x2F)),
    ensures
        strip_from(x + seq![0x2Au8, 0x2Fu8] + y, m) == newlines_of(x) + strip_from(y, Lex::Code),
    decreases x.len(),
{
    let b = x + seq![0x2Au8, 0x2Fu8] + y;
    if x.len() == 0 {
        assert(b.drop_first() =~= seq![0x2Fu8] + y);
        assert((seq![0x2Fu8] + y).drop_first() =~= y);
        assert(newlines_of(x) =~= Seq::<u8>::empty());
        assert(strip_from(seq![0x2Fu8] + y, Lex::BlockCommentStar) == strip_from(y, Lex::Code));
    } else {
        let c = x[0];
        let rest = x.drop_first();
        assert(b.drop_first() =~= rest + seq![0x2Au8, 0x2Fu8] + y);
        assert(!has_block_close(rest)) by {
            if has_block_close(rest) {
                let i = choose|i: int| closes_at(rest, i);
                assert(closes_at(x, i + 1));
            }
        }
        if c == 0x0A {
            lemma_block_body(rest, y, Lex::BlockComment);
            assert(newlines_of(x) == seq![0x0Au8] + newlines_of(rest));
            assert(seq![0x0Au8] + (newlines_of(rest) + strip_from(y, Lex::Code)) =~= newlines_of(x)
                + strip_from(y, Lex::Code));
        } else if c == 0x2A {
            if rest.len() > 0 {
                assert(!closes_at(x, 0));
            }
            lemma_block_body(rest, y, Lex::BlockCommentStar);
            assert(newlines_of(x) =~= newlines_of(rest));
        } else {
            lemma_block_body(rest, y, Lex::BlockComment);
            assert(newlines_of(x) =~= newlines_of(rest));
        }
    }
}

/// A block comment ends at the first `*/`, whatever stands before its `*`
/// (a run of stars too), and leaves only its line breaks: for a body `x`
/// without `*/`, `/*` + `x` + `*/` + `y` strips to the line breaks of `x`
/// followed by what `y` strips to.
pub proof fn lemma_block_comment_ends_at_first_close(x: Seq<u8>, y: Seq<u8>)
    requires
        !has_block_close(x),
    ensures
        strip_from(seq![0x2Fu8, 0x2Au8] + x + seq![0x2Au8, 0x2Fu8] + y, Lex::Code) == newlines_of(x)
            + strip_from(y, Lex::Code),
{
    let b = seq![0x2Fu8, 0x2Au8] + x + seq![0x2Au8, 0x2Fu8] + y;
    assert(b.drop_first().drop_first() =~= x + seq![0x2Au8, 0x2Fu8] + y);
    assert(b[0] == 0x2F && b.drop_first()[0] == 0x2A);
    lemma_block_body(x, y, Lex::BlockComment);
}

/// What loading reads back of a saved file: a header of comment lines
/// strips to its line breaks (one more for the blank line after it), and a
/// JSON body with no `/` comes through byte for byte, its closing line break
/// with it.
pub proof fn lemma_saved_text_strips_to_body(lines: Seq<Seq<char>>, json: Seq<char>)
    requires
        forall|i: int| 0 <= i < lines.len() ==> comment_line(#[trigger] lines[i]),
        !json.contains('/'),
    ensures
        strip_from(encode_utf8(lines_text(lines) + "\n"@ + json + "\n"@), Lex::Code)
            == line_breaks(lines.len() + 1) + encode_utf8(json) + seq![0x0Au8],
{
    reveal_strlit("\n");
    let body = encode_utf8(json) + seq![0x0Au8];
    lemma_utf8_concat(lines_text(lines), "\n"@ + json + "\n"@);
    assert(lines_text(lines) + "\n"@ + json + "\n"@ =~= lines_text(lines) + ("\n"@ + json + "\n"@));
    lemma_utf8_concat("\n"@, json + "\n"@);
    assert("\n"@ + json + "\n"@ =~= "\n"@ + (json + "\n"@));
    lemma_utf8_concat(json, "\n"@);
    vstd::utf8::char_is_scalar('\n');
    lemma_scalar_bytes('\n' as u32);
    assert(('\n' as u32) == 0x0Au32);
    assert(vstd::utf8::encode_scalar('\n' as u32) == seq![0x0Au8]);
    assert("\n"@ =~= seq!['\n']);
    assert(encode_utf8("\n"@) =~= seq![0x0Au8]) by {
        assert("\n"@.drop_first() =~= Seq::<char>::empty());
        assert(encode_utf8("\n"@) == vstd::utf8::encode_scalar("\n"@[0] as u32) + encode_utf8("\n"@.drop_first()));
    }
    let tail = seq![0x0Au8] + body;
    assert(encode_utf8(lines_text(lines) + "\n"@ + json + "\n"@) =~= encode_utf8(lines_text(lines)) + tail);
    lemma_strip_comment_lines(lines, tail);
    lemma_utf8_avoids(json, '/');
    assert forall|i: int| 0 <= i < body.len() implies #[trigger] body[i] != 0x2F by {
        if i < encode_utf8(json).len() {
            assert(body[i] == encode_utf8(json)[i]);
        }
    }
    lemma_plain_bytes(body, Lex::Code);
    assert(tail.drop_first() =~= body);
    assert(strip_from(tail, Lex::Code) == seq![0x0Au8] + body);
    assert(line_breaks(lines.len()) + (seq![0x0Au8] + body) =~= line_breaks(lines.len() + 1) + encode_utf8(json) + seq![0x0Au8]);
}

/// Every line of the saved header is a comment line, the location line too
/// as long as the location holds no line break.
pub proof fn lemma_header_is_comments(path: Seq<char>)
    requires
        !path.contains('\n'),
    ensures
        forall|i: int| 0 <= i < header_lines(path).len() ==> comment_line(#[trigger] header_lines(path)[i]),
{
    reveal_strlit("// AudioSwitcher config — edit, save, then restart the app to apply.");
    reveal_strlit("// 配置文件 — 改完保存后重启生效。");
    reveal_strlit("// Location / 位置: ");
    reveal_strlit("// Language / 语言: \"system\" (follow OS / 跟随系统), \"zh\", \"en\".");
    reveal_strlit("// Volume limit / 音量上限: \"volume_limit_enabled\" true/false, \"volume_limit\" 1-100.");
    reveal_strlit("// Autostart / 开机自启: \"autostart_mode\" = \"off\" | \"user\" (Run value / 注册表启动) | \"admin\" (elevated logon task / 管理员权限登录任务).");
    reveal_strlit("//");
    reveal_strlit("// Hotkeys / 快捷键 (all unbound by default / 默认无绑定):");
    reveal_strlit("//   Each action takes a combination string; null disables it.");
    reveal_strlit("//   每个动作填组合字符串，null 表示关闭。");
    reveal_strlit("//   Format / 格式: modifiers + key, e.g. \"Ctrl+Alt+M\".");
    reveal_strlit("//   Modifiers / 修饰键 (at least one / 至少一个): Ctrl, Alt, Shift, Win (case-insensitive, any order / 不区分大小写，顺序不限).");
    reveal_strlit("//   Key / 按键: A-Z, 0-9, F1-F24, Up/Down/Left/Right, Space, Enter, etc.");
    reveal_strlit("//   Actions / 动作:");
    reveal_strlit("//     \"mute\"         Toggle mute / 静音切换");
    reveal_strlit("//     \"volume_up\"    Volume up 2% per press / 音量加（每次 2%）");
    reveal_strlit("//     \"volume_down\"  Volume down 2% per press / 音量减（每次 2%）");
    reveal_strlit("//     \"next_device\"  Next output device / 下一个输出设备");
    reveal_strlit("//     \"prev_device\"  Previous output device / 上一个输出设备");
    reveal_strlit("//   Example / 示例:");
    reveal_strlit("//     \"hotkeys\": { \"mute\": \"Ctrl+Alt+M\", \"volume_up\": \"Ctrl+Alt+Up\", \"volume_down\": \"Ctrl+Alt+Down\", \"next_device\": null, \"prev_device\": null }");
    reveal_strlit("//   A combination owned by another program is disabled with a dialog; the rest keep working.");
    reveal_strlit("//   被其他程序占用的组合会弹窗并自动禁用，其余照常工作。");
    let lines = header_lines(path);
    assert(!(HEADER_LOCATION@ + path).contains('\n')) by {
        if (HEADER_LOCATION@ + path).contains('\n') {
            let k = choose|k: int| 0 <= k < (HEADER_LOCATION@ + path).len() && (HEADER_LOCATION@ + path)[k] == '\n';
            if k < HEADER_LOCATION@.len() {
                assert(HEADER_LOCATION@[k] == '\n');
            } else {
                assert(path[k - HEADER_LOCATION@.len()] == '\n');
            }
        }
    }
    assert forall|i: int| 0 <= i < lines.len() implies comment_line(#[trigger] lines[i]) by {
        if i >= 3 {
            assert(lines[i] == HEADER_BODY[i - 3]@);
        }
    }
}

/// The saved config file strips, on load, to its JSON body: the bytes of
/// [`config_file_text`] are UTF-8 (so [`strip_json_comments`] strips them),
/// and for a location without a line break and a body without `/` (the body
/// this tool writes has none), the comment header leaves only its line
/// breaks.
pub proof fn lemma_saved_config_loads_its_body(path: Seq<char>, json: Seq<char>)
    requires
        !path.contains('\n'),
        !json.contains('/'),
    ensures
        vstd::utf8::valid_utf8(encode_utf8(lines_text(header_lines(path)) + "\n"@ + json + "\n"@)),
        strip_from(encode_utf8(lines_text(header_lines(path)) + "\n"@ + json + "\n"@), Lex::Code)
            == line_breaks(24) + encode_utf8(json) + seq![0x0Au8],
{
    vstd::utf8::encode_utf8_valid_utf8(lines_text(header_lines(path)) + "\n"@ + json + "\n"@);
    lemma_header_is_comments(path);
    lemma_saved_text_strips_to_body(header_lines(path), json);
}

/// The schema version a file without one is read as.
pub fn default_version() -> (r: u32)
    ensures
        r == CURRENT_VERSION,
{
    CURRENT_VERSION
}

/// The language a file without one is read as.
pub fn default_lang() -> (r: Lang)
    ensures
        r == Lang::System,
{
    Lang::System
}

/// Whether the cap is on in a file that does not say.
pub fn default_volume_limit_enabled() -> (r: bool)
    ensures
        r,
{
    true
}

/// The limit of a file that does not name one.
pub fn default_volume_limit() -> (r: u32)
    ensures
        r == DEFAULT_VOLUME_LIMIT,
{
    DEFAULT_VOLUME_LIMIT
}

/// The autostart mode of a file that does not name one.
pub fn default_autostart_mode() -> (r: AutostartMode)
    ensures
        r == AutostartMode::User,
{
    AutostartMode::User
}

} // verus!
