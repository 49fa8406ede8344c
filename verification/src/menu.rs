//! Menu ids and their dispatch: the tray menu's items carry string ids, and
//! [`MenuAction::from_id`] turns a clicked id into the typed action.
//! The actions whose whole effect is a config field are applied here too.

use vstd::prelude::*;
use vstd::string::*;
use crate::autostart::AutostartMode;
use crate::config::{self, AppConfig, Lang};
use crate::text;

verus! {

/// Prefix of the output-device items: `device_<endpoint id>`.
pub const DEVICE_PREFIX: &'static str = "device_";
/// Prefix of the input-device items: `input_<endpoint id>`.
pub const INPUT_PREFIX: &'static str = "input_";
/// Prefix of the volume-limit presets: `vol_<percent>`.
pub const VOL_PREFIX: &'static str = "vol_";
pub const REFRESH: &'static str = "refresh";
pub const MUTE: &'static str = "mute";
pub const VOL_ENABLED: &'static str = "vol_enabled";
pub const OPEN_MIXER: &'static str = "open_mixer";
pub const OPEN_SOUND: &'static str = "open_sound";
pub const OPEN_HOTKEY_SETTINGS: &'static str = "open_hotkey_settings";
pub const AUTOSTART_OFF: &'static str = "autostart_off";
pub const AUTOSTART_USER: &'static str = "autostart_user";
pub const AUTOSTART_ADMIN: &'static str = "autostart_admin";
pub const LANG_SYSTEM: &'static str = "lang_system";
pub const LANG_ZH: &'static str = "lang_zh";
pub const LANG_EN: &'static str = "lang_en";
pub const ABOUT: &'static str = "about";
pub const EXIT: &'static str = "exit";

/// The volume-limit presets the menu offers.
pub open spec fn is_preset(v: u32) -> bool {
    v == 25 || v == 50 || v == 75
}

/// The preset a `vol_<percent>` id names; only the menu's own presets count.
pub open spec fn vol_preset(id: Seq<char>) -> Option<u32> {
    if text::starts_with_seq(id, VOL_PREFIX@) {
        match text::parse_u32_spec(id.skip(VOL_PREFIX@.len() as int)) {
            Some(v) if is_preset(v) => Some(v),
            _ => None,
        }
    } else {
        None
    }
}

/// Parse a `vol_<percent>` id; `None` for anything but a menu preset.
pub fn parse_vol_preset(id: &str) -> (r: Option<u32>)
    ensures
        r == vol_preset(id@),
{
    if !text::starts_with(id, VOL_PREFIX) {
        return None;
    }
    let p = VOL_PREFIX.unicode_len();
    let rest = id.substring_char(p, id.unicode_len());
    assert(rest@ =~= id@.skip(VOL_PREFIX@.len() as int));
    match text::parse_u32(rest) {
        Some(v) => if v == 25 || v == 50 || v == 75 {
            Some(v)
        } else {
            None
        },
        None => None,
    }
}

/// Typed menu action parsed from a menu id; a payload is the id the menu
/// emitted.
#[derive(Debug, Clone, PartialEq, Eq)]
pub enum MenuAction {
    Device(String),
    InputDevice(String),
    Mute,
    VolEnabled,
    VolLimit(u32),
    /// Manual fallback after sleep/resume or a lost callback.
    Refresh,
    OpenMixer,
    OpenSound,
    /// Opens the config folder for manual hotkey editing.
    OpenHotkeySettings,
    /// Off / current-user `Run` value / elevated logon task.
    Autostart(AutostartMode),
    LangSystem,
    LangZh,
    LangEn,
    About,
    Exit,
    /// Warned and ignored by the caller.
    Unknown(String),
}

/// A [`MenuAction`] with its strings as character sequences.
pub enum MenuActionView {
    Device(Seq<char>),
    InputDevice(Seq<char>),
    Mute,
    VolEnabled,
    VolLimit(u32),
    Refresh,
    OpenMixer,
    OpenSound,
    OpenHotkeySettings,
    Autostart(AutostartMode),
    LangSystem,
    LangZh,
    LangEn,
    About,
    Exit,
    Unknown(Seq<char>),
}

impl View for MenuAction {
    type V = MenuActionView;

    open spec fn view(&self) -> MenuActionView {
        match self {
            MenuAction::Device(s) => MenuActionView::Device(s@),
            MenuAction::InputDevice(s) => MenuActionView::InputDevice(s@),
            MenuAction::Mute => MenuActionView::Mute,
            MenuAction::VolEnabled => MenuActionView::VolEnabled,
            MenuAction::VolLimit(v) => MenuActionView::VolLimit(*v),
            MenuAction::Refresh => MenuActionView::Refresh,
            MenuAction::OpenMixer => MenuActionView::OpenMixer,
            MenuAction::OpenSound => MenuActionView::OpenSound,
            MenuAction::OpenHotkeySettings => MenuActionView::OpenHotkeySettings,
            MenuAction::Autostart(m) => MenuActionView::Autostart(*m),
            MenuAction::LangSystem => MenuActionView::LangSystem,
            MenuAction::LangZh => MenuActionView::LangZh,
            MenuAction::LangEn => MenuActionView::LangEn,
            MenuAction::About => MenuActionView::About,
            MenuAction::Exit => MenuActionView::Exit,
            MenuAction::Unknown(s) => MenuActionView::Unknown(s@),
        }
    }
}

/// A device id after its prefix: usable unless empty or holding a NUL.
pub open spec fn device_payload(id: Seq<char>, rest: Seq<char>, input: bool) -> MenuActionView {
    if rest.len() == 0 || rest.contains('\0') {
        MenuActionView::Unknown(id)
    } else if input {
        MenuActionView::InputDevice(rest)
    } else {
        MenuActionView::Device(rest)
    }
}

/// The fixed ids (everything but devices and presets).
pub open spec fn fixed_action(id: Seq<char>) -> MenuActionView {
    if id == REFRESH@ {
        MenuActionView::Refresh
    } else if id == MUTE@ {
        MenuActionView::Mute
    } else if id == VOL_ENABLED@ {
        MenuActionView::VolEnabled
    } else if id == OPEN_MIXER@ {
        MenuActionView::OpenMixer
    } else if id == OPEN_SOUND@ {
        MenuActionView::OpenSound
    } else if id == OPEN_HOTKEY_SETTINGS@ {
        MenuActionView::OpenHotkeySettings
    } else if id == AUTOSTART_OFF@ {
        MenuActionView::Autostart(AutostartMode::Off)
    } else if id == AUTOSTART_USER@ {
        MenuActionView::Autostart(AutostartMode::User)
    } else if id == AUTOSTART_ADMIN@ {
        MenuActionView::Autostart(AutostartMode::Admin)
    } else if id == LANG_SYSTEM@ {
        MenuActionView::LangSystem
    } else if id == LANG_ZH@ {
        MenuActionView::LangZh
    } else if id == LANG_EN@ {
        MenuActionView::LangEn
    } else if id == ABOUT@ {
        MenuActionView::About
    } else if id == EXIT@ {
        MenuActionView::Exit
    } else {
        MenuActionView::Unknown(id)
    }
}

/// What a menu id means: device prefixes first, then the presets, then the
/// fixed ids; anything else is `Unknown` with the id kept.
pub open spec fn menu_action_of(id: Seq<char>) -> MenuActionView {
    if text::starts_with_seq(id, DEVICE_PREFIX@) {
        device_payload(id, id.skip(DEVICE_PREFIX@.len() as int), false)
    } else if text::starts_with_seq(id, INPUT_PREFIX@) {
        device_payload(id, id.skip(INPUT_PREFIX@.len() as int), true)
    } else {
        match vol_preset(id) {
            Some(v) => MenuActionView::VolLimit(v),
            None => fixed_action(id),
        }
    }
}

impl MenuAction {
    /// Parse a menu id into a typed action.
    pub fn from_id(id: &str) -> (r: MenuAction)
        ensures
            r@ == menu_action_of(id@),
    {
        if text::starts_with(id, DEVICE_PREFIX) {
            let dev = id.substring_char(DEVICE_PREFIX.unicode_len(), id.unicode_len());
            assert(dev@ =~= id@.skip(DEVICE_PREFIX@.len() as int));
            if dev.unicode_len() == 0 || text::contains_char(dev, '\0') {
                return MenuAction::Unknown(text::to_owned(id));
            }
            return MenuAction::Device(text::to_owned(dev));
        }
        if text::starts_with(id, INPUT_PREFIX) {
            let dev = id.substring_char(INPUT_PREFIX.unicode_len(), id.unicode_len());
            assert(dev@ =~= id@.skip(INPUT_PREFIX@.len() as int));
            if dev.unicode_len() == 0 || text::contains_char(dev, '\0') {
                return MenuAction::Unknown(text::to_owned(id));
            }
            return MenuAction::InputDevice(text::to_owned(dev));
        }
        if let Some(preset) = parse_vol_preset(id) {
            return MenuAction::VolLimit(preset);
        }
        if text::str_eq(id, REFRESH) {
            MenuAction::Refresh
        } else if text::str_eq(id, MUTE) {
            MenuAction::Mute
        } else if text::str_eq(id, VOL_ENABLED) {
            MenuAction::VolEnabled
        } else if text::str_eq(id, OPEN_MIXER) {
            MenuAction::OpenMixer
        } else if text::str_eq(id, OPEN_SOUND) {
            MenuAction::OpenSound
        } else if text::str_eq(id, OPEN_HOTKEY_SETTINGS) {
            MenuAction::OpenHotkeySettings
        } else if text::str_eq(id, AUTOSTART_OFF) {
            MenuAction::Autostart(AutostartMode::Off)
        } else if text::str_eq(id, AUTOSTART_USER) {
            MenuAction::Autostart(AutostartMode::User)
        } else if text::str_eq(id, AUTOSTART_ADMIN) {
            MenuAction::Autostart(AutostartMode::Admin)
        } else if text::str_eq(id, LANG_SYSTEM) {
            MenuAction::LangSystem
        } else if text::str_eq(id, LANG_ZH) {
            MenuAction::LangZh
        } else if text::str_eq(id, LANG_EN) {
            MenuAction::LangEn
        } else if text::str_eq(id, ABOUT) {
            MenuAction::About
        } else if text::str_eq(id, EXIT) {
            MenuAction::Exit
        } else {
            MenuAction::Unknown(text::to_owned(id))
        }
    }
}

} // verus!

verus! {

/// A device entry's id dispatches back to that device: the output and input
/// prefixes carry any usable endpoint id (not empty, no NUL) through
/// unchanged.
pub proof fn lemma_device_ids_dispatch(id: Seq<char>)
    requires
        id.len() > 0,
        !id.contains('\0'),
    ensures
        menu_action_of(DEVICE_PREFIX@ + id) == MenuActionView::Device(id),
        menu_action_of(INPUT_PREFIX@ + id) == MenuActionView::InputDevice(id),
{
    reveal_strlit("device_");
    reveal_strlit("input_");
    let d = DEVICE_PREFIX@ + id;
    let i = INPUT_PREFIX@ + id;
    assert(d.subrange(0, DEVICE_PREFIX@.len() as int) =~= DEVICE_PREFIX@);
    assert(d.skip(DEVICE_PREFIX@.len() as int) =~= id);
    assert(i.subrange(0, INPUT_PREFIX@.len() as int) =~= INPUT_PREFIX@);
    assert(i.skip(INPUT_PREFIX@.len() as int) =~= id);
    assert(!text::starts_with_seq(i, DEVICE_PREFIX@)) by {
        assert(i[0] != DEVICE_PREFIX@[0]);
    }
}

/// The preset entries' ids dispatch to their limits.
pub proof fn lemma_preset_ids_dispatch()
    ensures
        menu_action_of("vol_25"@) == MenuActionView::VolLimit(25),
        menu_action_of("vol_50"@) == MenuActionView::VolLimit(50),
        menu_action_of("vol_75"@) == MenuActionView::VolLimit(75),
        menu_action_of("vol_100"@) == MenuActionView::Unknown("vol_100"@),
{
    reveal_strlit("device_");
    reveal_strlit("input_");
    reveal_strlit("vol_");
    reveal_strlit("vol_25");
    reveal_strlit("vol_50");
    reveal_strlit("vol_75");
    reveal_strlit("vol_100");
    reveal_strlit("refresh");
    reveal_strlit("mute");
    reveal_strlit("vol_enabled");
    reveal_strlit("open_mixer");
    reveal_strlit("open_sound");
    reveal_strlit("open_hotkey_settings");
    reveal_strlit("autostart_off");
    reveal_strlit("autostart_user");
    reveal_strlit("autostart_admin");
    reveal_strlit("lang_system");
    reveal_strlit("lang_zh");
    reveal_strlit("lang_en");
    reveal_strlit("about");
    reveal_strlit("exit");
    let p = "vol_"@;
    assert("vol_25"@.subrange(0, 4) =~= p);
    assert("vol_25"@.skip(4) =~= seq!['2', '5']);
    assert(text::digits_value(seq!['2', '5']) == 25) by {
        assert(seq!['2', '5'].drop_last() =~= seq!['2']);
        assert(seq!['2'].drop_last() =~= Seq::<char>::empty());
        assert(text::digits_value(Seq::<char>::empty()) == 0);
        assert(text::digits_value(seq!['2']) == 2);
    }
    assert(text::unsigned_body(seq!['2', '5']) == seq!['2', '5']);
    assert(text::all_digits(seq!['2', '5']));
    assert(text::parse_u32_spec(seq!['2', '5']) == Some(25u32));
    assert(!text::starts_with_seq("vol_25"@, DEVICE_PREFIX@)) by {
        assert("vol_25"@[0] != DEVICE_PREFIX@[0]);
    }
    assert(!text::starts_with_seq("vol_25"@, INPUT_PREFIX@)) by {
        assert("vol_25"@[0] != INPUT_PREFIX@[0]);
    }
    assert(text::starts_with_seq("vol_25"@, VOL_PREFIX@));
    assert("vol_50"@.subrange(0, 4) =~= p);
    assert("vol_50"@.skip(4) =~= seq!['5', '0']);
    assert(text::digits_value(seq!['5', '0']) == 50) by {
        assert(seq!['5', '0'].drop_last() =~= seq!['5']);
        assert(seq!['5'].drop_last() =~= Seq::<char>::empty());
        assert(text::digits_value(Seq::<char>::empty()) == 0);
        assert(text::digits_value(seq!['5']) == 5);
    }
    assert(text::unsigned_body(seq!['5', '0']) == seq!['5', '0']);
    assert(text::all_digits(seq!['5', '0']));
    assert(text::parse_u32_spec(seq!['5', '0']) == Some(50u32));
    assert(!text::starts_with_seq("vol_50"@, DEVICE_PREFIX@)) by {
        assert("vol_50"@[0] != DEVICE_PREFIX@[0]);
    }
    assert(!text::starts_with_seq("vol_50"@, INPUT_PREFIX@)) by {
        assert("vol_50"@[0] != INPUT_PREFIX@[0]);
    }
    assert(text::starts_with_seq("vol_50"@, VOL_PREFIX@));
    assert("vol_75"@.subrange(0, 4) =~= p);
    assert("vol_75"@.skip(4) =~= seq!['7', '5']);
    assert(text::digits_value(seq!['7', '5']) == 75) by {
        assert(seq!['7', '5'].drop_last() =~= seq!['7']);
        assert(seq!['7'].drop_last() =~= Seq::<char>::empty());
        assert(text::digits_value(Seq::<char>::empty()) == 0);
        assert(text::digits_value(seq!['7']) == 7);
    }
    assert(text::unsigned_body(seq!['7', '5']) == seq!['7', '5']);
    assert(text::all_digits(seq!['7', '5']));
    assert(text::parse_u32_spec(seq!['7', '5']) == Some(75u32));
    assert(!text::starts_with_seq("vol_75"@, DEVICE_PREFIX@)) by {
        assert("vol_75"@[0] != DEVICE_PREFIX@[0]);
    }
    assert(!text::starts_with_seq("vol_75"@, INPUT_PREFIX@)) by {
        assert("vol_75"@[0] != INPUT_PREFIX@[0]);
    }
    assert(text::starts_with_seq("vol_75"@, VOL_PREFIX@));
    assert("vol_100"@.subrange(0, 4) =~= p);
    assert("vol_100"@.skip(4) =~= seq!['1', '0', '0']);
    assert(text::digits_value(seq!['1', '0', '0']) == 100) by {
        assert(seq!['1', '0', '0'].drop_last() =~= seq!['1', '0']);
        assert(seq!['1', '0'].drop_last() =~= seq!['1']);
        assert(seq!['1'].drop_last() =~= Seq::<char>::empty());
        assert(text::digits_value(Seq::<char>::empty()) == 0);
        assert(text::digits_value(seq!['1']) == 1);
        assert(text::digits_value(seq!['1', '0']) == 10);
    }
    assert(text::unsigned_body(seq!['1', '0', '0']) == seq!['1', '0', '0']);
    assert(text::all_digits(seq!['1', '0', '0']));
    assert(text::parse_u32_spec(seq!['1', '0', '0']) == Some(100u32));
    assert(!text::starts_with_seq("vol_100"@, DEVICE_PREFIX@)) by {
        assert("vol_100"@[0] != DEVICE_PREFIX@[0]);
    }
    assert(!text::starts_with_seq("vol_100"@, INPUT_PREFIX@)) by {
        assert("vol_100"@[0] != INPUT_PREFIX@[0]);
    }
    assert(text::starts_with_seq("vol_100"@, VOL_PREFIX@));
    assert(fixed_action("vol_100"@) == MenuActionView::Unknown("vol_100"@)) by {
        assert("vol_100"@ != "vol_enabled"@) by {
            assert("vol_100"@[4] != "vol_enabled"@[4]);
        }
    }
}

} // verus!
