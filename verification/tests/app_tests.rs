use audio_switcher::actions::{
    apply_menu_config, cycle_index, devices_refresh_due, hook_install_due, hook_rearm_due,
    hook_retry_at, lifts_mute, stepped_volume, tray_boot_retry, tray_response, wait_ms,
    wait_timeout, OsdTimer, TrayEvent, TrayResponse, VolumeMirror, DEVICE_COALESCE_WINDOW_US,
    HOTKEY_VOLUME_STEP, PUMP_IDLE_MS, VISIBLE_MS,
};
use audio_switcher::autostart::AutostartMode;
use audio_switcher::config::{clamp_volume, AppConfig, Lang};
use audio_switcher::menu::MenuAction;

const US_PER_MS: u64 = 1_000;

#[test]
fn the_volume_limit_entries_store_the_preset_and_the_cap() {
    let mut cfg = AppConfig {
        volume_limit: 25,
        volume_limit_enabled: false,
        ..Default::default()
    };
    let mut ui = Lang::En;

    assert!(apply_menu_config(&mut cfg, &mut ui, &MenuAction::VolLimit(50), ""));
    assert_eq!(cfg.volume_limit, 50);
    assert!(cfg.volume_limit_enabled, "picking a preset is how the cap is switched on");
    assert_eq!(clamp_volume(80, &cfg), 50, "the caller clamps with the limit just picked");

    assert!(apply_menu_config(&mut cfg, &mut ui, &MenuAction::VolEnabled, ""));
    assert!(!cfg.volume_limit_enabled);
    assert_eq!(cfg.volume_limit, 50, "the preset survives while the cap is off");
    assert_eq!(clamp_volume(80, &cfg), 80, "off means uncapped");
}

#[test]
fn the_language_entries_store_the_mode_and_the_ui_language() {
    let mut cfg = AppConfig {
        lang: Lang::System,
        ..Default::default()
    };
    let mut ui = Lang::System;
    let locale = "zh-CN";

    for (action, expected) in [(MenuAction::LangZh, Lang::Zh), (MenuAction::LangEn, Lang::En)] {
        assert!(apply_menu_config(&mut cfg, &mut ui, &action, locale));
        assert_eq!(cfg.lang, expected);
        assert_eq!(ui, expected);
    }

    assert!(apply_menu_config(&mut cfg, &mut ui, &MenuAction::LangSystem, locale));
    assert_eq!(cfg.lang, Lang::System);
    assert_eq!(ui, cfg.effective_lang(locale));
}

#[test]
fn non_config_entries_leave_the_config_alone() {
    let mut cfg = AppConfig::default();
    let before = cfg.clone();
    let mut ui = Lang::En;
    for action in [MenuAction::Mute, MenuAction::Refresh, MenuAction::Exit, MenuAction::Autostart(AutostartMode::Off)] {
        assert!(!apply_menu_config(&mut cfg, &mut ui, &action, "zh-CN"));
        assert_eq!(cfg, before);
        assert_eq!(ui, Lang::En);
    }
}

#[test]
fn parse_device() {
    assert_eq!(MenuAction::from_id("device_abc"), MenuAction::Device("abc".into()));
    assert_eq!(MenuAction::from_id("mute"), MenuAction::Mute);
    assert_eq!(MenuAction::from_id("refresh"), MenuAction::Refresh);
    assert_eq!(MenuAction::from_id("vol_25"), MenuAction::VolLimit(25));
    assert_eq!(MenuAction::from_id("vol_50"), MenuAction::VolLimit(50));
    assert_eq!(MenuAction::from_id("vol_75"), MenuAction::VolLimit(75));
    assert_eq!(MenuAction::from_id("lang_system"), MenuAction::LangSystem);
    assert!(matches!(MenuAction::from_id("unknown"), MenuAction::Unknown(_)));
}

#[test]
fn parse_autostart_modes() {
    assert_eq!(MenuAction::from_id("autostart_off"), MenuAction::Autostart(AutostartMode::Off));
    assert_eq!(MenuAction::from_id("autostart_user"), MenuAction::Autostart(AutostartMode::User));
    assert_eq!(MenuAction::from_id("autostart_admin"), MenuAction::Autostart(AutostartMode::Admin));
    assert!(matches!(MenuAction::from_id("autostart"), MenuAction::Unknown(_)));
}

#[test]
fn parse_hotkey_settings() {
    assert_eq!(MenuAction::from_id("open_hotkey_settings"), MenuAction::OpenHotkeySettings);
    for id in ["hotkeys", "hotkey_", "hotkey_bogus", "hotkey_mute"] {
        assert!(matches!(MenuAction::from_id(id), MenuAction::Unknown(_)), "{id}");
    }
}

#[test]
fn parse_input_device() {
    assert_eq!(MenuAction::from_id("input_m1"), MenuAction::InputDevice("m1".into()));
    assert_eq!(MenuAction::from_id("device_abc"), MenuAction::Device("abc".into()));
    assert!(matches!(MenuAction::from_id("input_"), MenuAction::Unknown(_)));
}

#[test]
fn parse_vol_preset_only_accepts_menu_presets() {
    assert!(matches!(MenuAction::from_id("vol_30"), MenuAction::Unknown(_)));
    assert!(matches!(MenuAction::from_id("vol_0"), MenuAction::Unknown(_)));
    assert!(matches!(MenuAction::from_id("vol_101"), MenuAction::Unknown(_)));
    assert!(matches!(MenuAction::from_id("vol_x"), MenuAction::Unknown(_)));
}

#[test]
fn unknown_ids_stay_unknown_for_warn_path() {
    for id in ["bogus", "", "vol_", "device_", "DEVICE_abc", "About"] {
        assert!(matches!(MenuAction::from_id(id), MenuAction::Unknown(_)), "{id} must parse as Unknown");
    }
}

#[test]
fn a_device_id_with_a_nul_is_not_dispatched() {
    assert_eq!(MenuAction::from_id("device_a\0b"), MenuAction::Unknown("device_a\0b".into()));
    assert_eq!(MenuAction::from_id("input_\0"), MenuAction::Unknown("input_\0".into()));
}

#[test]
fn every_fixed_id_dispatches() {
    assert_eq!(MenuAction::from_id("vol_enabled"), MenuAction::VolEnabled);
    assert_eq!(MenuAction::from_id("open_mixer"), MenuAction::OpenMixer);
    assert_eq!(MenuAction::from_id("open_sound"), MenuAction::OpenSound);
    assert_eq!(MenuAction::from_id("lang_zh"), MenuAction::LangZh);
    assert_eq!(MenuAction::from_id("lang_en"), MenuAction::LangEn);
    assert_eq!(MenuAction::from_id("about"), MenuAction::About);
    assert_eq!(MenuAction::from_id("exit"), MenuAction::Exit);
}

#[test]
fn a_device_change_is_coalesced_and_never_dropped() {
    let last: u64 = 7_000_000;
    assert!(!devices_refresh_due(false, last, last + 5_000 * US_PER_MS));
    assert!(!devices_refresh_due(true, last, last + 50 * US_PER_MS));
    assert!(devices_refresh_due(true, last, last + 130 * US_PER_MS));
    assert!(devices_refresh_due(true, last, last + DEVICE_COALESCE_WINDOW_US));
}

#[test]
fn no_deadline_waits_the_idle_cap() {
    assert_eq!(wait_ms(123_456, None), PUMP_IDLE_MS);
}

#[test]
fn a_sub_millisecond_remainder_still_waits() {
    let now: u64 = 9_000_000;
    assert_eq!(wait_ms(now, Some(now + 500)), 1);
}

#[test]
fn a_deadline_inside_the_cap_is_waited_for_exactly() {
    let now: u64 = 9_000_000;
    assert_eq!(wait_ms(now, Some(now + 5_000 * US_PER_MS)), 5_000);
}

#[test]
fn a_deadline_beyond_the_cap_is_clamped() {
    let now: u64 = 9_000_000;
    assert_eq!(wait_ms(now, Some(now + 30_000 * US_PER_MS)), PUMP_IDLE_MS);
}

#[test]
fn a_passed_deadline_waits_nothing() {
    assert_eq!(wait_ms(9_000_000, Some(8_000_000)), 0);
}

#[test]
fn the_wait_is_for_the_earliest_deadline() {
    let now: u64 = 1_000_000;
    // Overlay hides in 2 s, the hook is due in 180 ms, a rebuild in 120 ms.
    assert_eq!(wait_timeout(now, Some(now + 2_000_000), false, now + 180_000, true, now), 120);
    // Installed hook and nothing pending: only the overlay counts.
    assert_eq!(wait_timeout(now, Some(now + 2_000_000), true, now + 180_000, false, now), 2_000);
    // Nothing at all: the idle cap.
    assert_eq!(wait_timeout(now, None, true, 0, false, now), PUMP_IDLE_MS);
}

#[test]
fn cycle_index_wraps_both_ways() {
    assert_eq!(cycle_index(3, Some(0), 1), Some(1));
    assert_eq!(cycle_index(3, Some(2), 1), Some(0));
    assert_eq!(cycle_index(3, Some(0), -1), Some(2));
    assert_eq!(cycle_index(3, None, 1), Some(1));
    assert_eq!(cycle_index(3, Some(9), -1), Some(2));
    assert_eq!(cycle_index(1, Some(0), 1), Some(0));
    assert_eq!(cycle_index(0, None, 1), None);
}

#[test]
fn stepped_volume_stays_in_range() {
    assert_eq!(stepped_volume(50, 2), 52);
    assert_eq!(stepped_volume(50, -2), 48);
    assert_eq!(stepped_volume(0, -2), 0);
    assert_eq!(stepped_volume(1, -5), 0);
    assert_eq!(stepped_volume(99, 5), 100);
    assert_eq!(stepped_volume(100, i32::MAX), 100);
    assert_eq!(stepped_volume(0, i32::MIN), 0);
}

#[test]
fn volume_up_lifts_mute_and_down_does_not() {
    assert!(lifts_mute(HOTKEY_VOLUME_STEP, true));
    assert!(!lifts_mute(-HOTKEY_VOLUME_STEP, true));
    assert!(!lifts_mute(HOTKEY_VOLUME_STEP, false));
    assert!(!lifts_mute(0, true));
}

#[test]
fn the_mirror_moves_only_on_a_confirmed_write() {
    let cfg = AppConfig {
        volume_limit_enabled: true,
        volume_limit: 25,
        ..Default::default()
    };
    let mut mirror = VolumeMirror { volume: 20, muted: true };
    let target = mirror.nudge_target(10, &cfg);
    assert_eq!(target, 25, "the cap holds the nudge");
    mirror.volume_written(target, false);
    assert_eq!(mirror.volume, 20, "a failed write leaves the step origin");
    mirror.volume_written(target, true);
    assert_eq!(mirror.volume, 25);
    assert!(mirror.lifts_mute(10));
    mirror.unmute_written(false);
    assert!(mirror.muted);
    mirror.unmute_written(true);
    assert!(!mirror.muted);
}

#[test]
fn a_mute_click_reapplies_the_cap_to_the_mirror() {
    let cfg = AppConfig {
        volume_limit_enabled: true,
        volume_limit: 25,
        ..Default::default()
    };
    let mut mirror = VolumeMirror { volume: 60, muted: false };
    let target = mirror.mute_target();
    assert!(target);
    mirror.mute_written(target, false, &cfg);
    assert_eq!(mirror, VolumeMirror { volume: 60, muted: false });
    mirror.mute_written(target, true, &cfg);
    assert_eq!(mirror, VolumeMirror { volume: 25, muted: true });
}

#[test]
fn the_overlay_hides_after_its_time_or_on_a_click() {
    let mut osd = OsdTimer::new();
    assert!(!osd.visible());
    osd.show(1_000_000);
    assert!(osd.visible());
    assert!(!osd.poll(1_000_000 + VISIBLE_MS * US_PER_MS - 1));
    assert!(osd.poll(1_000_000 + VISIBLE_MS * US_PER_MS));
    assert!(!osd.visible());
    osd.show(5_000_000);
    assert!(osd.click());
    assert!(!osd.visible());
    assert!(!osd.click(), "a click with nothing shown hides nothing");
}

#[test]
fn the_hook_is_installed_when_due_and_rearmed_after_a_stall() {
    assert!(hook_install_due(false, 200, 180));
    assert!(!hook_install_due(false, 100, 180));
    assert!(!hook_install_due(true, 200, 180));
    assert!(hook_rearm_due(500_000));
    assert!(!hook_rearm_due(499_999));
    assert_eq!(hook_retry_at(1_000), 2_001_000);
    assert_eq!(hook_retry_at(u64::MAX - 1), u64::MAX);
}

#[test]
fn the_tray_build_is_retried_a_bounded_number_of_times() {
    assert!(tray_boot_retry(1));
    assert!(tray_boot_retry(2));
    assert!(!tray_boot_retry(3));
}

#[test]
fn tray_events_drive_mute_and_the_wheel_reset() {
    assert_eq!(tray_response(TrayEvent::Click { button: 2, up: true }), TrayResponse::ToggleMute);
    assert_eq!(tray_response(TrayEvent::Click { button: 2, up: false }), TrayResponse::Nothing);
    assert_eq!(tray_response(TrayEvent::Click { button: 1, up: false }), TrayResponse::ResetWheel);
    assert_eq!(tray_response(TrayEvent::DoubleClick { button: 1 }), TrayResponse::ResetWheel);
    assert_eq!(tray_response(TrayEvent::Enter), TrayResponse::ResetWheel);
    assert_eq!(tray_response(TrayEvent::Leave), TrayResponse::ResetWheel);
    assert_eq!(tray_response(TrayEvent::Move), TrayResponse::Nothing);
    assert_eq!(tray_response(TrayEvent::Click { button: 0, up: true }), TrayResponse::Nothing);
}
