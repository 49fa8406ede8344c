use audio_switcher::dialog::{
    centered_position, is_new_dialog, msgbox_style, MB_ICONERROR, MB_ICONWARNING, MB_OK, MB_TOPMOST,
};
use audio_switcher::hook::HookRegistry;
use audio_switcher::logging::{
    crash_report, day_index, failure_note, log_file_name, max_level, should_prune, LogLevel,
    LOG_RETENTION_SECS,
};
use audio_switcher::mouse_hook::{
    cursor_over_tray, hook_action, icon_hit, is_button_down, is_tray_class_name, pack_point,
    unpack_point, wheel_delta, HookAction, HookShared, WheelEvent, WheelHook, WM_LBUTTONDOWN,
    WM_LBUTTONUP, WM_MBUTTONDOWN, WM_MOUSEMOVE, WM_MOUSEWHEEL, WM_NCLBUTTONDOWN, WM_NCMBUTTONDOWN,
    WM_NCRBUTTONDOWN, WM_NCXBUTTONDOWN, WM_RBUTTONDOWN, WM_RBUTTONUP, WM_XBUTTONDOWN,
};
use audio_switcher::pump::{route, Route, WAKE_MESSAGE, WM_HOTKEY};
use audio_switcher::shell::{
    execute_outcome, shell_execute_failed, shell_target_valid, wide_nul, working_dir, ShellError, Url,
    UrlError,
};
use audio_switcher::theme::{accent_from_abgr, appearance, fallback_icon, init, uses_dark_glyph, Theme};
use audio_switcher::utf16::{wide_into, wide_z};

fn to_wide(s: &str) -> Vec<u16> {
    s.encode_utf16().collect()
}

#[test]
fn hook_every_button_down_counts_as_a_click() {
    for msg in [
        WM_LBUTTONDOWN,
        WM_RBUTTONDOWN,
        WM_MBUTTONDOWN,
        WM_XBUTTONDOWN,
        WM_NCLBUTTONDOWN,
        WM_NCRBUTTONDOWN,
        WM_NCMBUTTONDOWN,
        WM_NCXBUTTONDOWN,
    ] {
        assert!(is_button_down(msg), "{msg:#06x} must dismiss the overlay");
    }
}

#[test]
fn hook_ups_moves_and_wheel_are_not_clicks() {
    for msg in [WM_LBUTTONUP, WM_RBUTTONUP, WM_MOUSEMOVE, WM_MOUSEWHEEL] {
        assert!(!is_button_down(msg), "{msg:#06x} must not dismiss the overlay");
    }
}

#[test]
fn click_tests_every_button_down_counts_as_a_click() {
    for msg in [
        WM_LBUTTONDOWN,
        WM_RBUTTONDOWN,
        WM_MBUTTONDOWN,
        WM_XBUTTONDOWN,
        WM_NCLBUTTONDOWN,
        WM_NCRBUTTONDOWN,
        WM_NCMBUTTONDOWN,
        WM_NCXBUTTONDOWN,
    ] {
        assert!(is_button_down(msg), "{msg:#06x} must dismiss the overlay");
        assert_eq!(hook_action(0, msg, false), HookAction::Click);
    }
}

#[test]
fn click_tests_ups_moves_and_wheel_are_not_clicks() {
    for msg in [WM_LBUTTONUP, WM_RBUTTONUP, WM_MOUSEMOVE, WM_MOUSEWHEEL] {
        assert!(!is_button_down(msg), "{msg:#06x} must not dismiss the overlay");
    }
}

#[test]
fn the_hook_records_wheels_outside_menus_only() {
    assert_eq!(hook_action(0, WM_MOUSEWHEEL, false), HookAction::Wheel);
    assert_eq!(hook_action(0, WM_MOUSEWHEEL, true), HookAction::Forward);
    assert_eq!(hook_action(-1, WM_LBUTTONDOWN, false), HookAction::Forward);
    assert_eq!(hook_action(0, WM_MOUSEMOVE, false), HookAction::Forward);
    assert_eq!(wheel_delta(0x0078_0000), 120);
    assert_eq!(wheel_delta(0xFF88_0000), -120);
    assert_eq!(wheel_delta(0x0000_FFFF), 0);
}

#[test]
fn matches_known_taskbar_and_tray_classes() {
    for class in [
        "Shell_TrayWnd",
        "Shell_SecondaryTrayWnd",
        "NotifyIconOverflowWindow",
        "TopLevelWindowForOverflowXamlIsland",
        "TrayNotifyWnd",
        "AudioSwitcherVolumeOsd",
    ] {
        let wide = to_wide(class);
        assert!(is_tray_class_name(&wide), "expected '{class}' to be recognized as a tray or taskbar window");
    }
}

#[test]
fn rejects_non_tray_and_game_classes() {
    for class in [
        "CASCADIA_HOSTING_WINDOW_CLASS",
        "UnityWndClass",
        "UnrealWindow",
        "Valve001",
        "Chrome_WidgetWin_1",
        "Notepad",
        "",
        "Shell_Tray",
        "Shell_TrayWnd_Extra",
    ] {
        let wide = to_wide(class);
        assert!(!is_tray_class_name(&wide), "expected '{class}' NOT to be recognized as a tray or taskbar window");
    }
}

#[test]
fn packed_position_round_trips_signed_coordinates() {
    for (x, y) in [(0, 0), (3489, 2127), (-1920, 40), (40, -1080), (-1, -1), (i32::MAX, i32::MIN)] {
        assert_eq!(unpack_point(pack_point(x, y)), (x, y), "packed {x},{y}");
    }
}

#[test]
fn a_wheel_event_carries_the_position_of_its_notch() {
    let mut shared = HookShared::new();
    assert_eq!(shared.take_wheel_event(), None);
    shared.record_wheel(120, -1920, 40);
    shared.record_wheel(120, 10, 20);
    assert_eq!(shared.take_wheel_event(), Some(WheelEvent { delta: 240, at: (10, 20) }));
    assert_eq!(shared.take_wheel_event(), None);
    shared.record_click();
    assert!(shared.take_click());
    assert!(!shared.take_click());
}

#[test]
fn the_wheel_gate_uses_the_padded_icon_rect() {
    let rect = Some((100, 200, 24, 24));
    assert_eq!(icon_hit(None, (110, 210)), None);
    assert_eq!(icon_hit(rect, (98, 198)), Some(true));
    assert_eq!(icon_hit(rect, (97, 210)), Some(false));
    assert_eq!(icon_hit(rect, (125, 225)), Some(true));
    assert_eq!(icon_hit(rect, (126, 210)), Some(false));
    assert_eq!(cursor_over_tray(rect, (110, 210), true), Some(true));
    assert_eq!(cursor_over_tray(rect, (110, 210), false), Some(false));
    assert_eq!(cursor_over_tray(rect, (0, 0), true), Some(false));
    assert_eq!(cursor_over_tray(None, (0, 0), true), None);
    assert_eq!(icon_hit(Some((i32::MAX, i32::MAX, i32::MAX, i32::MAX)), (i32::MAX, i32::MAX)), Some(true));
}

#[test]
fn a_null_hook_handle_is_no_hook() {
    assert!(WheelHook::install(0).is_none());
    assert_eq!(WheelHook::install(77).map(|h| h.raw()), Some(77));
}

#[test]
fn the_shared_hook_is_unhooked_by_its_last_guard() {
    let mut reg = HookRegistry::new();
    assert!(reg.acquire().is_none(), "nothing to share yet");
    let (first, stray) = reg.adopt(11);
    assert!(stray.is_none());
    let second = reg.acquire().expect("shares the installed hook");
    let (third, stray) = reg.adopt(12);
    assert_eq!(stray, Some(12), "a hook installed concurrently is unhooked");
    assert_eq!(reg.release(third), None);
    assert_eq!(reg.release(second), None);
    assert!(reg.installed());
    assert_eq!(reg.release(first), Some(11));
    assert!(!reg.installed());
}

#[test]
fn url_scheme_gate() {
    assert!("https://github.com/Wildfire2282/audio-switcher".parse::<Url>().is_ok());
    assert_eq!("http://github.com/x".parse::<Url>(), Err(UrlError::Scheme));
    assert_eq!("file:///C:/x".parse::<Url>(), Err(UrlError::Scheme));
    assert_eq!("javascript:alert(1)".parse::<Url>(), Err(UrlError::Scheme));
    assert_eq!("".parse::<Url>(), Err(UrlError::Empty));
    assert_eq!("https://example.com/x".parse::<Url>(), Err(UrlError::Host));
    assert_eq!("https://github.com.evil.com/x".parse::<Url>(), Err(UrlError::Host));
}

#[test]
fn allowlisted_hosts_ignore_case_and_one_www() {
    assert_eq!(Url::parse("  https://www.GitHub.com?x ").unwrap().as_str(), "https://www.GitHub.com?x");
    assert_eq!(Url::parse("https://WWW.github.com/"), Err(UrlError::Host), "the www. prefix is matched as written");
    assert_eq!(Url::parse("https://www.www.github.com/"), Err(UrlError::Host));
    assert_eq!(Url::parse("   "), Err(UrlError::Empty));
    assert_eq!(UrlError::Host.message(), "URL host is not allowlisted");
}

#[test]
fn shell_targets_cross_the_wide_boundary() {
    assert_eq!(wide_nul("ab"), Ok(vec![0x61, 0x62, 0]));
    assert_eq!(wide_nul("a\0b"), Err(ShellError::InteriorNul));
    assert!(shell_target_valid("SndVol.exe"));
    assert!(!shell_target_valid("a\0"));
    assert!(shell_execute_failed(32));
    assert!(!shell_execute_failed(33));
    assert_eq!(execute_outcome(&wide_z("x.exe"), 42), Ok(()));
    let err = execute_outcome(&to_wide("x.exe"), 2).unwrap_err();
    assert_eq!(err, ShellError::Execute { target: "x.exe".into(), code: 2 });
    assert_eq!(err.to_string(), "ShellExecuteW failed for x.exe (code 2)");
    assert_eq!(ShellError::InteriorNul.to_string(), "shell target contains interior NUL");
    assert_eq!(working_dir(Some(r"C:\Tools")), r"C:\Tools");
    assert_eq!(working_dir(None), "C:\\");
}

#[test]
fn accent_unpacks_low_byte_first() {
    assert_eq!(accent_from_abgr(0xFFD4_7800), (0x00, 0x78, 0xD4));
    assert_eq!(accent_from_abgr(0x0000_0000), (0, 0, 0));
    assert_eq!(accent_from_abgr(0xFFFF_FFFF), (0xFF, 0xFF, 0xFF));
}

#[test]
fn appearance_is_readable() {
    let a = appearance(None, None);
    assert!(!a.light);
    assert_eq!(a.accent, None);
    let a = appearance(Some(1), Some(0xFFD4_7800));
    assert!(a.light);
    assert_eq!(a.accent, Some((0x00, 0x78, 0xD4)));
    assert!(!appearance(Some(0), None).light);
}

#[test]
fn the_tray_theme_reads_the_little_endian_dword() {
    assert_eq!(init(None), Theme::Unknown);
    assert_eq!(init(Some(&[0, 0, 0])), Theme::Unknown);
    assert_eq!(init(Some(&[0, 0, 0, 0])), Theme::Dark);
    assert_eq!(init(Some(&[1, 0, 0, 0])), Theme::Light);
    assert_eq!(init(Some(&[0, 0, 0, 1, 9])), Theme::Light);
    assert!(uses_dark_glyph(Theme::Dark));
    assert!(!uses_dark_glyph(Theme::Unknown));
    let px = fallback_icon(Theme::Dark);
    assert_eq!(px.len(), 32 * 32 * 4);
    assert_eq!(&px[..4], &[0xE6, 0xE6, 0xE6, 0xFF]);
    let px = fallback_icon(Theme::Light);
    assert_eq!(&px[px.len() - 4..], &[0x36, 0x36, 0x36, 0xFF]);
}

#[test]
fn wide_z_appends_exactly_one_terminator() {
    assert_eq!(wide_z("ab"), [0x61, 0x62, 0x00]);
    assert_eq!(wide_z(""), [0x00]);
}

#[test]
fn wide_into_replaces_the_buffer_without_a_terminator() {
    let mut buf = vec![0xFFFF, 0xFFFF];
    wide_into(&mut buf, "ab");
    assert_eq!(buf, [0x61, 0x62]);
    wide_into(&mut buf, "");
    assert!(buf.is_empty());
}

#[test]
fn astral_planes_survive_as_surrogate_pairs() {
    let encoded = wide_z("🎧");
    assert_eq!(encoded.len(), 3);
    assert_eq!(*encoded.last().unwrap(), 0);
    assert_eq!(encoded, "🎧".encode_utf16().chain(std::iter::once(0)).collect::<Vec<u16>>());
}

#[test]
fn an_unwritable_log_file_is_named_in_the_crash_report() {
    let note = failure_note(Some("Access is denied. (os error 5)"));
    assert!(note.contains("log file unavailable"), "{note}");
    assert!(note.contains("denied"), "{note}");
}

#[test]
fn a_writable_log_file_adds_nothing_to_the_crash_report() {
    assert_eq!(failure_note(None), "");
}

#[test]
fn the_crash_report_names_the_tool_and_the_panic() {
    assert_eq!(
        crash_report("boom", Some("denied")),
        "AudioSwitcher hit an unexpected error and must exit.\n\nboom\n\n(log file unavailable: denied)"
    );
    assert_eq!(crash_report("boom", None), "AudioSwitcher hit an unexpected error and must exit.\n\nboom");
}

#[test]
fn the_log_level_switch_defaults_to_info() {
    assert_eq!(max_level(""), LogLevel::Info);
    assert_eq!(max_level(" DEBUG "), LogLevel::Debug);
    assert_eq!(max_level("warn"), LogLevel::Warn);
    assert_eq!(max_level("Error"), LogLevel::Error);
    assert_eq!(max_level("trace"), LogLevel::Trace);
    assert_eq!(max_level("verbose"), LogLevel::Info);
}

#[test]
fn daily_log_names_and_the_prune_rule() {
    assert_eq!(day_index(Some(86_400 * 3 + 5)), 3);
    assert_eq!(day_index(None), 0);
    assert_eq!(log_file_name(20_000), "audio-switcher-20000.log");
    assert_eq!(log_file_name(0), "audio-switcher-0.log");
    assert!(should_prune(Some("audio-switcher-1.log"), Some((LOG_RETENTION_SECS + 1, 0))));
    assert!(should_prune(Some("audio-switcher-1.log"), Some((LOG_RETENTION_SECS, 1))));
    assert!(!should_prune(Some("audio-switcher-1.log"), Some((LOG_RETENTION_SECS, 0))));
    assert!(!should_prune(Some("audio-switcher-1.log"), None), "a future stamp is kept");
    assert!(!should_prune(Some("other-1.log"), Some((LOG_RETENTION_SECS * 2, 0))));
    assert!(!should_prune(Some("audio-switcher-1.txt"), Some((LOG_RETENTION_SECS * 2, 0))));
    assert!(!should_prune(None, Some((LOG_RETENTION_SECS * 2, 0))));
}

#[test]
fn message_boxes_and_dialog_centring() {
    assert_eq!(msgbox_style(false), MB_OK | MB_ICONWARNING);
    assert_eq!(msgbox_style(true), MB_OK | MB_ICONERROR | MB_TOPMOST);
    assert_eq!(centered_position((0, 0, 400, 300), (0, 0, 1920, 1040)), Some((760, 370)));
    assert_eq!(centered_position((0, 0, 4000, 300), (100, 0, 1920, 1040)), Some((100, 370)));
    assert_eq!(centered_position((10, 10, 10, 50), (0, 0, 1920, 1040)), None);
    let dialog = to_wide("#32770");
    assert!(is_new_dialog(5, true, &dialog, &[1, 2]));
    assert!(!is_new_dialog(2, true, &dialog, &[1, 2]));
    assert!(!is_new_dialog(5, false, &dialog, &[]));
    assert!(!is_new_dialog(5, true, &to_wide("Notepad"), &[]));
}

#[test]
fn the_pump_keeps_hotkeys_and_wakes_for_itself() {
    assert_eq!(route(WM_HOTKEY), Route::Hotkey);
    assert_eq!(route(WAKE_MESSAGE), Route::Wake);
    assert_eq!(route(0x000F), Route::Dispatch);
}

/// A stale log is deleted at startup, and only a stale one.
#[test]
fn a_log_past_the_retention_window_is_pruned_but_a_fresh_one_is_kept() {
    let old = format!("{}-1.log", audio_switcher::TOOL_ID);
    let fresh = format!("{}-2.log", audio_switcher::TOOL_ID);
    assert!(should_prune(Some(&old), Some((LOG_RETENTION_SECS + 86_400, 0))), "a log past the window survived");
    assert!(!should_prune(Some(&fresh), Some((0, 0))), "today's log was pruned");
}

/// The log directory can hold files that are not ours.
#[test]
fn a_prune_leaves_other_files_alone() {
    let foreign = "other-tool-1.log";
    let not_a_log = format!("{}-1.txt", audio_switcher::TOOL_ID);
    let age = Some((LOG_RETENTION_SECS + 86_400, 0));
    assert!(!should_prune(Some(foreign), age), "another tool's log was deleted");
    assert!(!should_prune(Some(&not_a_log), age), "a file that is not a log was deleted");
}

#[test]
fn a_failed_launch_names_its_target_with_unpaired_surrogates_replaced() {
    let units = [0xD834u16, 0xDD1E, 0x006d, 0x0075, 0x0073, 0xDD1E, 0x0069, 0x0063, 0xD834];
    match execute_outcome(&units, 5) {
        Err(ShellError::Execute { target, code }) => {
            assert_eq!(target, "𝄞mus\u{FFFD}ic\u{FFFD}");
            assert_eq!(code, 5);
        }
        other => panic!("unexpected {other:?}"),
    }
    match execute_outcome(&[0xD800u16, 0x0069], 0) {
        Err(ShellError::Execute { target, .. }) => assert_eq!(target, "\u{FFFD}i"),
        other => panic!("unexpected {other:?}"),
    }
}
