//! Audio Switcher: the verified logic behind a Windows tray tool that switches
//! the default audio device, toggles mute and caps the master volume.

use vstd::prelude::*;
use vstd::string::*;

pub mod actions;
pub mod audio;
pub mod autostart;
pub mod config;
pub mod dialog;
pub mod hook;
pub mod hotkey;
pub mod logging;
pub mod menu;
pub mod mouse_hook;
pub mod osd;
pub mod pump;
pub mod shell;
pub mod text;
pub mod theme;
pub mod tray;
pub mod utf16;

verus! {

/// Canonical tool id (kebab-case). Single source for the mutex name, the
/// config/log directory names, and the autostart display-name derivation.
pub const TOOL_ID: &'static str = "audio-switcher";

/// PascalCase display name, derived from [`TOOL_ID`].
pub const TOOL_DISPLAY_NAME: &'static str = "AudioSwitcher";

/// Tool release homepage; the About menu item opens exactly this URL.
pub const ABOUT_URL: &'static str = "https://github.com/Wildfire2282/audio-switcher";

/// Canonical single-instance mutex id: `{kebab}-single-instance-v1`.
pub fn single_instance_id() -> (r: String)
    ensures
        r@ == TOOL_ID@ + "-single-instance-v1"@,
{
    text::concat(TOOL_ID, "-single-instance-v1")
}

/// One kebab-case piece turned PascalCase: its first character upper-cased,
/// the rest lower-cased; an empty piece stays empty.
pub open spec fn capitalize(part: Seq<char>) -> Seq<char> {
    if part.len() == 0 {
        Seq::empty()
    } else {
        text::unicode_upper(part[0]) + text::unicode_lower(part.drop_first())
    }
}

/// The PascalCase display name of a kebab-case id: every `-`-separated piece
/// capitalized, the pieces joined with nothing between them.
pub open spec fn display_name(kebab: Seq<char>) -> Seq<char> {
    text::split_seq(kebab, '-').map_values(|p: Seq<char>| capitalize(p)).flatten()
}

/// Derive the PascalCase display name from a kebab-case tool id
/// (`"audio-switcher"` → `"AudioSwitcher"`).
pub fn display_name_for(kebab: &str) -> (r: String)
    ensures
        r@ == display_name(kebab@),
{
    let parts = text::split(kebab, '-');
    let ghost pieces = text::split_seq(kebab@, '-');
    let mut out = String::new();
    let mut i: usize = 0;
    while i < parts.len()
        invariant
            i <= parts@.len(),
            text::views(parts@) == pieces,
            out@ == pieces.take(i as int).map_values(|p: Seq<char>| capitalize(p)).flatten(),
        decreases parts@.len() - i,
    {
        let part = parts[i].as_str();
        assert(part@ == pieces[i as int]);
        let n = part.unicode_len();
        if n > 0 {
            let first = part.get_char(0);
            let upper = text::char_to_uppercase(first);
            let lower = text::str_to_lowercase(part.substring_char(1, n));
            assert(part@.subrange(1, n as int) =~= part@.drop_first());
            out.append(upper.as_str());
            out.append(lower.as_str());
        }
        proof {
            let f = |p: Seq<char>| capitalize(p);
            assert(pieces.take(i + 1) =~= pieces.take(i as int).push(pieces[i as int]));
            assert(pieces.take(i + 1).map_values(f) =~= pieces.take(i as int).map_values(f).push(
                capitalize(pieces[i as int]),
            ));
            pieces.take(i as int).map_values(f).lemma_flatten_push(capitalize(pieces[i as int]));
            if n == 0 {
                assert(capitalize(part@) =~= Seq::<char>::empty());
            }
        }
        i = i + 1;
    }
    assert(pieces.take(parts@.len() as int) =~= pieces);
    out
}

} // verus!
