use audio_switcher::audio::AudioDevice;
use audio_switcher::theme::Theme;
use audio_switcher::tray::{build_menu, classify_menu_id, make_icon, MenuAction, TrayItem, ID_ABOUT, ID_AUTOSTART, ID_EXIT, ID_REFRESH};

#[test]
fn classify_menu_id_dispatch_table() {
    assert!(matches!(classify_menu_id("dev:abc"), MenuAction::Switch("abc")));
    assert!(matches!(classify_menu_id(ID_REFRESH), MenuAction::Refresh));
    assert!(matches!(classify_menu_id(ID_ABOUT), MenuAction::About));
    assert!(matches!(classify_menu_id(ID_EXIT), MenuAction::Exit));
    assert!(matches!(classify_menu_id(ID_AUTOSTART), MenuAction::ToggleAutostart));
    assert!(matches!(classify_menu_id("garbage"), MenuAction::Exit));
}

fn dev(id: &str, name: &str) -> AudioDevice {
    AudioDevice { id: id.into(), name: name.into() }
}

#[test]
fn the_menu_checks_the_current_device_and_ends_with_the_fixed_entries() {
    let devices = [dev("a", "Speakers"), dev("b", "Headphones")];
    let items = build_menu(&devices, Some("b"), true);
    assert_eq!(items.len(), 7);
    assert_eq!(items[0], TrayItem::Check { id: "dev:a".into(), text: "Speakers".into(), checked: false });
    assert_eq!(items[1], TrayItem::Check { id: "dev:b".into(), text: "Headphones".into(), checked: true });
    assert_eq!(items[2], TrayItem::Separator);
    assert_eq!(items[3], TrayItem::Check { id: "autostart".into(), text: "开机自动启动".into(), checked: true });
    assert_eq!(items[6], TrayItem::Plain { id: "exit".into(), text: "退出".into() });
    for item in &items[..2] {
        let TrayItem::Check { id, .. } = item else { panic!("device entries are checkable") };
        assert!(matches!(classify_menu_id(id), MenuAction::Switch(_)));
    }
}

#[test]
fn an_empty_device_list_shows_the_placeholder() {
    let items = build_menu(&[], None, false);
    assert_eq!(items[0], TrayItem::Disabled { text: "(无可用音频设备)".into() });
    assert_eq!(items.len(), 6);
    assert_eq!(items[2], TrayItem::Check { id: "autostart".into(), text: "开机自动启动".into(), checked: false });
}

#[test]
fn a_corrupt_icon_falls_back_to_a_solid_block() {
    let (px, w, h) = make_icon(Theme::Dark, b"not a png");
    assert_eq!((w, h), (32, 32));
    assert_eq!(px.len(), 32 * 32 * 4);
    assert_eq!(&px[..4], &[0xE6, 0xE6, 0xE6, 0xFF]);
    let (px, _, _) = make_icon(Theme::Unknown, &[]);
    assert_eq!(&px[..4], &[0x36, 0x36, 0x36, 0xFF]);
}

#[test]
fn a_valid_png_is_decoded_to_rgba() {
    // A 1x1 opaque red PNG.
    let png: [u8; 69] = [
        0x89, 0x50, 0x4E, 0x47, 0x0D, 0x0A, 0x1A, 0x0A, 0x00, 0x00, 0x00, 0x0D, 0x49, 0x48, 0x44, 0x52,
        0x00, 0x00, 0x00, 0x01, 0x00, 0x00, 0x00, 0x01, 0x08, 0x02, 0x00, 0x00, 0x00, 0x90, 0x77, 0x53,
        0xDE, 0x00, 0x00, 0x00, 0x0C, 0x49, 0x44, 0x41, 0x54, 0x78, 0x9C, 0x63, 0xF8, 0xCF, 0xC0, 0x00,
        0x00, 0x03, 0x01, 0x01, 0x00, 0xC9, 0xFE, 0x92, 0xEF, 0x00, 0x00, 0x00, 0x00, 0x49, 0x45, 0x4E,
        0x44, 0xAE, 0x42, 0x60, 0x82,
    ];
    let (px, w, h) = make_icon(Theme::Dark, &png);
    assert_eq!((w, h), (1, 1));
    assert_eq!(px, vec![0xFF, 0x00, 0x00, 0xFF]);
}
