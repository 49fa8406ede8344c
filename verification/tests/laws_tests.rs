use audio_switcher::autostart::AutostartMode;
use audio_switcher::config::{
    clamp_volume, config_file_text, strip_json_comments, AppConfig, Hotkeys, Lang,
};
use audio_switcher::dialog::centered_position;
use audio_switcher::hotkey::{Hotkey, HotkeyAction};
use audio_switcher::menu::MenuAction;
use audio_switcher::osd::fit;
use audio_switcher::tray::{build_menu, classify_menu_id, MenuAction as TrayAction, TrayItem};
use audio_switcher::audio::AudioDevice;

#[test]
fn a_parsed_combination_prints_and_parses_back_to_itself() {
    for raw in ["ctrl+alt+m", " win + shift + f12 ", "Alt+Ctrl+PageUp", "Shift+Win+0", "control+esc", "Ctrl+Alt+Shift+Win+Delete"] {
        let h: Hotkey = raw.parse().unwrap();
        let again: Hotkey = h.to_string().parse().unwrap();
        assert_eq!(again, h, "{raw}");
        assert_eq!(again.to_string(), h.to_string());
    }
}

#[test]
fn migrating_twice_is_migrating_once() {
    let mut hotkeys = Hotkeys::default();
    hotkeys.set(HotkeyAction::Mute, Some(" alt+CTRL+m ".into()));
    hotkeys.set(HotkeyAction::VolumeDown, Some("Q".into()));
    let old = AppConfig {
        version: 1,
        lang: Lang::Zh,
        volume_limit: 500,
        legacy_autostart: Some(false),
        hotkeys,
        ..Default::default()
    };
    let once = AppConfig::migrate(old);
    let twice = AppConfig::migrate(once.clone());
    assert_eq!(once, twice);
    assert_eq!(once.hotkeys.get(HotkeyAction::Mute), Some("Ctrl+Alt+M"));
    assert_eq!(once.hotkeys.get(HotkeyAction::VolumeDown), None);
    assert_eq!(once.volume_limit, 25);
    assert_eq!(once.autostart_mode, AutostartMode::Off);
    assert_eq!(once.legacy_autostart, None);
}

#[test]
fn a_saved_file_strips_back_to_its_body() {
    let json = "{\n  \"version\": 4,\n  \"lang\": \"zh\",\n  \"hotkeys\": {\"mute\": \"Ctrl+Alt+M\"}\n}";
    let text = config_file_text(r"C:\Users\u\AppData\Roaming\audio-switcher\config.json", json);
    let stripped = strip_json_comments(text.as_bytes());
    let mut expected = vec![b'\n'; 24];
    expected.extend_from_slice(json.as_bytes());
    expected.push(b'\n');
    assert_eq!(stripped, expected);
}

#[test]
fn the_cap_never_raises_and_is_idempotent() {
    let cfg = AppConfig { volume_limit_enabled: true, volume_limit: 40, ..Default::default() };
    for v in [0, 39, 40, 41, 100, 150, u32::MAX] {
        let c = clamp_volume(v, &cfg);
        assert!(c <= v && c <= 40 && c <= 100);
        assert_eq!(clamp_volume(c, &cfg), c);
    }
}

#[test]
fn spellings_name_their_values_and_only_them() {
    for l in [Lang::System, Lang::Zh, Lang::En] {
        assert_eq!(Lang::from_name(l.as_str()), Some(l));
    }
    for m in [AutostartMode::Off, AutostartMode::User, AutostartMode::Admin] {
        assert_eq!(AutostartMode::from_name(m.as_str()), Some(m));
    }
    assert_eq!(Lang::from_name("ZH"), None);
    assert_eq!(AutostartMode::from_name(" user"), None);
}

#[test]
fn menu_ids_dispatch_back_to_what_they_were_built_for() {
    for id in ["{0.0.0.00000000}.{8d}", "a", "端点"] {
        assert_eq!(MenuAction::from_id(&format!("device_{id}")), MenuAction::Device(id.into()));
        assert_eq!(MenuAction::from_id(&format!("input_{id}")), MenuAction::InputDevice(id.into()));
    }
    let devices = [AudioDevice { id: "dev:weird".into(), name: "W".into() }];
    let items = build_menu(&devices, None, false);
    let TrayItem::Check { id, .. } = &items[0] else { panic!("device entry") };
    assert!(matches!(classify_menu_id(id), TrayAction::Switch("dev:weird")));
}

#[test]
fn a_card_that_fits_stays_in_the_work_area() {
    let work = (0, 0, 1920, 1040);
    for anchor in [(-500, -500, 24, 24), (5000, 5000, 24, 24), (900, 1040, 24, 24), (900, 0, 24, 24)] {
        let (x, y) = fit(anchor, 230, 60, 10, work);
        assert!(x >= 0 && x + 230 <= 1920 && y >= 0 && y + 60 <= 1040, "{anchor:?}");
    }
}

#[test]
fn a_centred_window_that_fits_lies_inside_the_area() {
    let area = (100, 50, 1000, 700);
    for (w, h) in [(1, 1), (999, 699), (1000, 700), (333, 222)] {
        let (x, y) = centered_position((0, 0, w, h), area).unwrap();
        assert!(x >= 100 && x + w <= 1100 && y >= 50 && y + h <= 750);
        let left = x - 100;
        let right = 1100 - (x + w);
        assert!(right - left == 0 || right - left == 1);
    }
}
