use audio_switcher::hotkey::{bit, summarize, Hotkey, HotkeyAction, HotkeyError, HotkeyParseError, PendingHotkeys};

#[test]
fn parse_canonical_and_round_trip() {
    for combo in ["Ctrl+Alt+M", "Ctrl+Alt+Up", "Ctrl+Alt+Down", "Ctrl+Alt+Right", "Ctrl+Alt+Left"] {
        let hotkey: Hotkey = combo.parse().expect("example parses");
        assert_eq!(hotkey.to_string(), combo);
        assert_ne!(hotkey.modifiers(), 0);
    }
}

#[test]
fn parse_is_case_and_order_insensitive() {
    let a: Hotkey = "ctrl+alt+m".parse().unwrap();
    let b: Hotkey = "Alt+Control+M".parse().unwrap();
    assert_eq!(a, b);
    assert_eq!(a.to_string(), "Ctrl+Alt+M");
}

#[test]
fn parse_named_keys() {
    assert_eq!("Ctrl+Shift+F5".parse::<Hotkey>().unwrap().to_string(), "Ctrl+Shift+F5");
    assert_eq!("Win+Space".parse::<Hotkey>().unwrap().to_string(), "Win+Space");
    assert_eq!("Ctrl+Alt+Down".parse::<Hotkey>().unwrap().to_string(), "Ctrl+Alt+Down");
    assert_eq!("Ctrl+Alt+9".parse::<Hotkey>().unwrap().to_string(), "Ctrl+Alt+9");
}

#[test]
fn parse_rejects_bad_shapes() {
    for raw in ["", "M", "Ctrl", "Ctrl+M+Alt", "Ctrl+Alt+Nope", "Ctrl+Ctrl+M", "Foo+M", "Ctrl++M"] {
        assert!(raw.parse::<Hotkey>().is_err(), "{raw} must be rejected");
    }
    assert_eq!("".parse::<Hotkey>().unwrap_err(), HotkeyParseError::Malformed);
    assert_eq!("M".parse::<Hotkey>().unwrap_err(), HotkeyParseError::NoModifier);
    assert_eq!("Foo+M".parse::<Hotkey>().unwrap_err(), HotkeyParseError::UnknownModifier);
    assert_eq!("Ctrl+Ctrl+M".parse::<Hotkey>().unwrap_err(), HotkeyParseError::DuplicateModifier);
    assert_eq!("Ctrl+Nope".parse::<Hotkey>().unwrap_err(), HotkeyParseError::UnknownKey);
}

#[test]
fn action_ids_are_stable_and_reversible() {
    for action in HotkeyAction::ALL {
        assert_eq!(HotkeyAction::from_id(action.id()), Some(action));
    }
    assert_eq!(HotkeyAction::from_id(0), None);
    assert_eq!(HotkeyAction::from_id(6), None);
    let mut keys: Vec<&str> = HotkeyAction::ALL.iter().map(|a| a.config_key()).collect();
    keys.sort_unstable();
    let count = keys.len();
    keys.dedup();
    assert_eq!(keys.len(), count);
}

#[test]
fn summarize_lists_every_occupied_combo() {
    let occupied = vec![
        (HotkeyAction::Mute, "Ctrl+Alt+M".parse::<Hotkey>().unwrap()),
        (HotkeyAction::VolumeUp, "Ctrl+Alt+Up".parse::<Hotkey>().unwrap()),
    ];
    let text = summarize(&occupied);
    assert!(text.contains("Ctrl+Alt+M (Toggle Mute)"), "{text}");
    assert!(text.contains("Ctrl+Alt+Up (Volume Up)"), "{text}");
    assert!(HotkeyError(occupied).to_string().contains(&text));
}

#[test]
fn pending_queue_drains_lowest_id_first() {
    let mut pending = PendingHotkeys::from_mask(bit(HotkeyAction::NextDevice) | bit(HotkeyAction::Mute));
    assert_eq!(pending.take_pending(), Some(HotkeyAction::Mute));
    assert_eq!(pending.take_pending(), Some(HotkeyAction::NextDevice));
    assert_eq!(pending.take_pending(), None);
}

#[test]
fn a_burst_of_one_combination_is_one_press() {
    let mut pending = PendingHotkeys::new();
    pending.note_pending(HotkeyAction::VolumeUp.id());
    pending.note_pending(HotkeyAction::VolumeUp.id());
    pending.note_pending(42);
    assert_eq!(pending.take_pending(), Some(HotkeyAction::VolumeUp));
    assert_eq!(pending.take_pending(), None);
}

#[test]
fn modifier_flags_and_function_keys() {
    let h: Hotkey = "Win+Shift+Alt+Ctrl+F24".parse().unwrap();
    assert_eq!(h.modifiers(), 1 | 2 | 4 | 8);
    assert_eq!(h.to_string(), "Ctrl+Alt+Shift+Win+F24");
    assert!("Ctrl+F25".parse::<Hotkey>().is_err());
    assert!("Ctrl+F0".parse::<Hotkey>().is_err());
    assert!("Ctrl+F05".parse::<Hotkey>().is_err());
    assert_eq!("alt + pagedown".parse::<Hotkey>().unwrap().to_string(), "Alt+PageDown");
    assert_eq!(HotkeyAction::NextDevice.label(), "Next Output Device");
}
