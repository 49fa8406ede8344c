use audio_switcher::shell::Url;
use audio_switcher::{display_name_for, single_instance_id, ABOUT_URL, TOOL_DISPLAY_NAME, TOOL_ID};

#[test]
fn tool_id_mapping() {
    assert_eq!(TOOL_ID, "audio-switcher");
    assert_eq!(single_instance_id(), "audio-switcher-single-instance-v1");
    assert_eq!(display_name_for(TOOL_ID), TOOL_DISPLAY_NAME);
    assert_eq!(TOOL_DISPLAY_NAME, "AudioSwitcher");
}

#[test]
fn about_url_single_const() {
    assert!(ABOUT_URL.starts_with("https://github.com/Wildfire2282/"));
    let url: Url = ABOUT_URL.parse().expect("ABOUT_URL valid");
    assert_eq!(url.as_str(), ABOUT_URL);
}

#[test]
fn display_names_capitalize_every_piece() {
    assert_eq!(display_name_for("volume-osd-card"), "VolumeOsdCard");
    assert_eq!(display_name_for("x"), "X");
    assert_eq!(display_name_for("a--b"), "AB");
    assert_eq!(display_name_for(""), "");
    assert_eq!(display_name_for("MIXED-case"), "MixedCase");
}
