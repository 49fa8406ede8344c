//! Global-hotkey combinations: the actions, the `Ctrl+Alt+M` text format,
//! and the queue of presses waiting for the message loop.

use vstd::prelude::*;
use vstd::string::*;
use crate::text;
use crate::text::{lower_seq, is_ascii_lower, split_seq, trim_seq, views};

verus! {

/// The actions a global hotkey can trigger. The `id` of each is the Win32
/// hotkey id it is registered under.
#[derive(Debug, Clone, Copy, PartialEq, Eq, Structural)]
pub enum HotkeyAction {
    Mute,
    VolumeUp,
    VolumeDown,
    NextDevice,
    PrevDevice,
}

impl HotkeyAction {
    /// Every action, in id order.
    pub const ALL: [HotkeyAction; 5] = [
        HotkeyAction::Mute,
        HotkeyAction::VolumeUp,
        HotkeyAction::VolumeDown,
        HotkeyAction::NextDevice,
        HotkeyAction::PrevDevice,
    ];

    pub open spec fn spec_id(self) -> i32 {
        match self {
            HotkeyAction::Mute => 1,
            HotkeyAction::VolumeUp => 2,
            HotkeyAction::VolumeDown => 3,
            HotkeyAction::NextDevice => 4,
            HotkeyAction::PrevDevice => 5,
        }
    }

    /// The Win32 hotkey id (`1..=5`).
    pub fn id(self) -> (r: i32)
        ensures
            r == self.spec_id(),
    {
        match self {
            HotkeyAction::Mute => 1,
            HotkeyAction::VolumeUp => 2,
            HotkeyAction::VolumeDown => 3,
            HotkeyAction::NextDevice => 4,
            HotkeyAction::PrevDevice => 5,
        }
    }

    /// The action registered under `id`, if any.
    pub fn from_id(id: i32) -> (r: Option<HotkeyAction>)
        ensures
            r == HotkeyAction::from_id_spec(id),
    {
        match id {
            1 => Some(HotkeyAction::Mute),
            2 => Some(HotkeyAction::VolumeUp),
            3 => Some(HotkeyAction::VolumeDown),
            4 => Some(HotkeyAction::NextDevice),
            5 => Some(HotkeyAction::PrevDevice),
            _ => None,
        }
    }
}

impl HotkeyAction {
    pub open spec fn spec_config_key(self) -> Seq<char> {
        match self {
            HotkeyAction::Mute => "mute"@,
            HotkeyAction::VolumeUp => "volume_up"@,
            HotkeyAction::VolumeDown => "volume_down"@,
            HotkeyAction::NextDevice => "next_device"@,
            HotkeyAction::PrevDevice => "prev_device"@,
        }
    }

    /// The field name of this action in the config file's `hotkeys` object.
    pub fn config_key(self) -> (r: &'static str)
        ensures
            r@ == self.spec_config_key(),
    {
        match self {
            HotkeyAction::Mute => "mute",
            HotkeyAction::VolumeUp => "volume_up",
            HotkeyAction::VolumeDown => "volume_down",
            HotkeyAction::NextDevice => "next_device",
            HotkeyAction::PrevDevice => "prev_device",
        }
    }

    pub open spec fn spec_label(self) -> Seq<char> {
        match self {
            HotkeyAction::Mute => "Toggle Mute"@,
            HotkeyAction::VolumeUp => "Volume Up"@,
            HotkeyAction::VolumeDown => "Volume Down"@,
            HotkeyAction::NextDevice => "Next Output Device"@,
            HotkeyAction::PrevDevice => "Previous Output Device"@,
        }
    }

    /// What the action does, as reported to the user.
    pub fn label(self) -> (r: &'static str)
        ensures
            r@ == self.spec_label(),
    {
        match self {
            HotkeyAction::Mute => "Toggle Mute",
            HotkeyAction::VolumeUp => "Volume Up",
            HotkeyAction::VolumeDown => "Volume Down",
            HotkeyAction::NextDevice => "Next Output Device",
            HotkeyAction::PrevDevice => "Previous Output Device",
        }
    }
}

/// A modifier key of a combination.
#[derive(Debug, Clone, Copy, PartialEq, Eq, Structural)]
pub enum Modifier {
    Ctrl,
    Alt,
    Shift,
    Win,
}

/// The set of modifiers held in a combination.
#[derive(Debug, Clone, Copy, PartialEq, Eq, Structural)]
pub struct Modifiers {
    pub ctrl: bool,
    pub alt: bool,
    pub shift: bool,
    pub win: bool,
}

pub open spec fn no_modifiers() -> Modifiers {
    Modifiers { ctrl: false, alt: false, shift: false, win: false }
}

/// `m` with `x` added, or `None` when `x` is already held.
pub open spec fn add_modifier(m: Modifiers, x: Modifier) -> Option<Modifiers> {
    match x {
        Modifier::Ctrl => if m.ctrl { None } else { Some(Modifiers { ctrl: true, ..m }) },
        Modifier::Alt => if m.alt { None } else { Some(Modifiers { alt: true, ..m }) },
        Modifier::Shift => if m.shift { None } else { Some(Modifiers { shift: true, ..m }) },
        Modifier::Win => if m.win { None } else { Some(Modifiers { win: true, ..m }) },
    }
}

/// The modifier a piece names, compared without regard to ASCII case.
pub open spec fn modifier_of(p: Seq<char>) -> Option<Modifier> {
    let l = lower_seq(p);
    if l == "ctrl"@ || l == "control"@ {
        Some(Modifier::Ctrl)
    } else if l == "alt"@ {
        Some(Modifier::Alt)
    } else if l == "shift"@ {
        Some(Modifier::Shift)
    } else if l == "win"@ {
        Some(Modifier::Win)
    } else {
        None
    }
}

/// Why a combination string was rejected.
#[derive(Debug, Clone, Copy, PartialEq, Eq, Structural)]
pub enum HotkeyParseError {
    /// Empty, or a `+` with nothing on one side of it.
    Malformed,
    /// A key alone, with no modifier before it.
    NoModifier,
    /// A piece before the key that is not `Ctrl`, `Alt`, `Shift` or `Win`.
    UnknownModifier,
    /// The same modifier twice.
    DuplicateModifier,
    /// The last piece names no supported key.
    UnknownKey,
}

/// The modifiers the pieces name, in order; the first bad piece decides the
/// error.
pub open spec fn modifiers_from(ps: Seq<Seq<char>>) -> Result<Modifiers, HotkeyParseError>
    decreases ps.len(),
{
    if ps.len() == 0 {
        Ok(no_modifiers())
    } else {
        match modifiers_from(ps.drop_last()) {
            Err(e) => Err(e),
            Ok(m) => match modifier_of(ps.last()) {
                None => Err(HotkeyParseError::UnknownModifier),
                Some(x) => match add_modifier(m, x) {
                    None => Err(HotkeyParseError::DuplicateModifier),
                    Some(m2) => Ok(m2),
                },
            },
        }
    }
}

pub open spec fn is_digit(c: char) -> bool {
    '0' <= c <= '9'
}

pub open spec fn digit_value(c: char) -> int {
    c as int - '0' as int
}

/// `n` of a lower-case `f<n>` key name, `1..=24`, written without a leading
/// zero.
pub open spec fn function_key_number(l: Seq<char>) -> Option<u32> {
    if l.len() == 2 && l[0] == 'f' && is_digit(l[1]) && l[1] != '0' {
        Some(digit_value(l[1]) as u32)
    } else if l.len() == 3 && l[0] == 'f' && is_digit(l[1]) && is_digit(l[2]) && l[1] != '0'
        && 10 * digit_value(l[1]) + digit_value(l[2]) <= 24 {
        Some((10 * digit_value(l[1]) + digit_value(l[2])) as u32)
    } else {
        None
    }
}

/// The virtual-key code of a named (non-letter, non-digit, non-F) key.
pub open spec fn named_key_code(l: Seq<char>) -> Option<u32> {
    if l == "up"@ {
        Some(0x26)
    } else if l == "down"@ {
        Some(0x28)
    } else if l == "left"@ {
        Some(0x25)
    } else if l == "right"@ {
        Some(0x27)
    } else if l == "space"@ {
        Some(0x20)
    } else if l == "enter"@ {
        Some(0x0D)
    } else if l == "tab"@ {
        Some(0x09)
    } else if l == "esc"@ {
        Some(0x1B)
    } else if l == "home"@ {
        Some(0x24)
    } else if l == "end"@ {
        Some(0x23)
    } else if l == "pageup"@ {
        Some(0x21)
    } else if l == "pagedown"@ {
        Some(0x22)
    } else if l == "insert"@ {
        Some(0x2D)
    } else if l == "delete"@ {
        Some(0x2E)
    } else {
        None
    }
}

/// The virtual-key code a key piece names, compared without regard to ASCII
/// case: a letter, a digit, `F1`-`F24`, or one of the named keys.
pub open spec fn key_code(p: Seq<char>) -> Option<u32> {
    let l = lower_seq(p);
    if l.len() == 1 && is_ascii_lower(l[0]) {
        Some((l[0] as u32 - 32) as u32)
    } else if l.len() == 1 && is_digit(l[0]) {
        Some(l[0] as u32)
    } else {
        match function_key_number(l) {
            Some(n) => Some((0x6F + n) as u32),
            None => named_key_code(l),
        }
    }
}


/// A parsed combination: modifiers plus one key (a Win32 virtual-key code).
#[derive(Debug, Clone, Copy, PartialEq, Eq, Structural)]
pub struct Hotkey {
    pub mods: Modifiers,
    pub vk: u32,
}

/// The pieces of a combination string: split at `+`, each piece trimmed.
/// Empty pieces are malformed, the last piece is the key and every piece
/// before it a distinct modifier, of which there must be at least one.
pub open spec fn combo_pieces(s: Seq<char>) -> Seq<Seq<char>> {
    split_seq(s, '+').map_values(|p: Seq<char>| trim_seq(p))
}

/// A combination string parsed (see [`combo_pieces`]).
pub open spec fn parse_spec(s: Seq<char>) -> Result<Hotkey, HotkeyParseError> {
    let ps = combo_pieces(s);
    if exists|i: int| 0 <= i < ps.len() && (#[trigger] ps[i]).len() == 0 {
        Err(HotkeyParseError::Malformed)
    } else if ps.len() < 2 {
        Err(HotkeyParseError::NoModifier)
    } else {
        match modifiers_from(ps.drop_last()) {
            Err(e) => Err(e),
            Ok(m) => match key_code(ps.last()) {
                None => Err(HotkeyParseError::UnknownKey),
                Some(vk) => Ok(Hotkey { mods: m, vk }),
            },
        }
    }
}

proof fn lemma_modifiers_error_persists(ps: Seq<Seq<char>>, j: int, k: int)
    requires
        0 <= j <= k <= ps.len(),
        modifiers_from(ps.take(j)) is Err,
    ensures
        modifiers_from(ps.take(k)) == modifiers_from(ps.take(j)),
    decreases k - j,
{
    if k > j {
        lemma_modifiers_error_persists(ps, j, k - 1);
        assert(ps.take(k).drop_last() =~= ps.take(k - 1));
    }
}

/// The modifier a piece names.
fn modifier_exec(p: &str) -> (r: Option<Modifier>)
    ensures
        r == modifier_of(p@),
{
    let l = text::to_ascii_lower(p);
    let l = l.as_str();
    if text::str_eq(l, "ctrl") || text::str_eq(l, "control") {
        Some(Modifier::Ctrl)
    } else if text::str_eq(l, "alt") {
        Some(Modifier::Alt)
    } else if text::str_eq(l, "shift") {
        Some(Modifier::Shift)
    } else if text::str_eq(l, "win") {
        Some(Modifier::Win)
    } else {
        None
    }
}

fn add_modifier_exec(m: Modifiers, x: Modifier) -> (r: Option<Modifiers>)
    ensures
        r == add_modifier(m, x),
{
    match x {
        Modifier::Ctrl => if m.ctrl { None } else { Some(Modifiers { ctrl: true, ..m }) },
        Modifier::Alt => if m.alt { None } else { Some(Modifiers { alt: true, ..m }) },
        Modifier::Shift => if m.shift { None } else { Some(Modifiers { shift: true, ..m }) },
        Modifier::Win => if m.win { None } else { Some(Modifiers { win: true, ..m }) },
    }
}

fn named_key_exec(l: &str) -> (r: Option<u32>)
    ensures
        r == named_key_code(l@),
{
    if text::str_eq(l, "up") {
        Some(0x26)
    } else if text::str_eq(l, "down") {
        Some(0x28)
    } else if text::str_eq(l, "left") {
        Some(0x25)
    } else if text::str_eq(l, "right") {
        Some(0x27)
    } else if text::str_eq(l, "space") {
        Some(0x20)
    } else if text::str_eq(l, "enter") {
        Some(0x0D)
    } else if text::str_eq(l, "tab") {
        Some(0x09)
    } else if text::str_eq(l, "esc") {
        Some(0x1B)
    } else if text::str_eq(l, "home") {
        Some(0x24)
    } else if text::str_eq(l, "end") {
        Some(0x23)
    } else if text::str_eq(l, "pageup") {
        Some(0x21)
    } else if text::str_eq(l, "pagedown") {
        Some(0x22)
    } else if text::str_eq(l, "insert") {
        Some(0x2D)
    } else if text::str_eq(l, "delete") {
        Some(0x2E)
    } else {
        None
    }
}

/// The virtual-key code a key piece names.
fn key_exec(p: &str) -> (r: Option<u32>)
    ensures
        r == key_code(p@),
{
    let lower = text::to_ascii_lower(p);
    let l = lower.as_str();
    let n = l.unicode_len();
    if n == 1 {
        let c = l.get_char(0);
        if 'a' <= c && c <= 'z' {
            return Some((c as u32) - 32);
        }
        if '0' <= c && c <= '9' {
            return Some(c as u32);
        }
    }
    if (n == 2 || n == 3) && l.get_char(0) == 'f' {
        let d1 = l.get_char(1);
        if '1' <= d1 && d1 <= '9' {
            let v1 = (d1 as u32) - ('0' as u32);
            if n == 2 {
                return Some(0x6F + v1);
            }
            let d2 = l.get_char(2);
            if '0' <= d2 && d2 <= '9' {
                let v = 10 * v1 + ((d2 as u32) - ('0' as u32));
                if v <= 24 {
                    return Some(0x6F + v);
                }
            }
        }
    }
    named_key_exec(l)
}

impl Hotkey {
    /// Parse a combination such as `"Ctrl+Alt+M"`: case-insensitive, any
    /// modifier order, spaces around the pieces ignored.
    pub fn parse(s: &str) -> (r: Result<Hotkey, HotkeyParseError>)
        ensures
            r == parse_spec(s@),
    {
        let raw = text::split(s, '+');
        let ghost split = split_seq(s@, '+');
        let ghost ps = combo_pieces(s@);
        let mut parts: Vec<&str> = Vec::new();
        let mut i: usize = 0;
        while i < raw.len()
            invariant
                i <= raw@.len(),
                views(raw@) == split,
                ps == combo_pieces(s@),
                split == split_seq(s@, '+'),
                parts@.len() == i,
                forall|k: int| 0 <= k < i ==> #[trigger] parts@[k]@ == ps[k],
            decreases raw@.len() - i,
        {
            let piece = text::trim(raw[i].as_str());
            assert(raw@[i as int]@ == split[i as int]);
            parts.push(piece);
            i = i + 1;
        }
        let n = parts.len();
        let mut j: usize = 0;
        while j < n
            invariant
                n == parts@.len() == ps.len(),
                ps == combo_pieces(s@),
                j <= n,
                forall|k: int| 0 <= k < n ==> #[trigger] parts@[k]@ == ps[k],
                forall|k: int| 0 <= k < j ==> (#[trigger] ps[k]).len() != 0,
            decreases n - j,
        {
            if parts[j].unicode_len() == 0 {
                assert(ps[j as int].len() == 0);
                return Err(HotkeyParseError::Malformed);
            }
            j = j + 1;
        }
        if n < 2 {
            return Err(HotkeyParseError::NoModifier);
        }
        let ghost mod_parts = ps.drop_last();
        let mut mods = Modifiers { ctrl: false, alt: false, shift: false, win: false };
        let mut k: usize = 0;
        assert(mod_parts.take(0) =~= Seq::<Seq<char>>::empty());
        while k < n - 1
            invariant
                n == parts@.len() == ps.len(),
                2 <= n,
                ps == combo_pieces(s@),
                forall|q: int| 0 <= q < n ==> (#[trigger] ps[q]).len() != 0,
                k <= n - 1,
                mod_parts == ps.drop_last(),
                forall|q: int| 0 <= q < n ==> #[trigger] parts@[q]@ == ps[q],
                modifiers_from(mod_parts.take(k as int)) == Ok::<Modifiers, HotkeyParseError>(mods),
            decreases n - 1 - k,
        {
            let x = modifier_exec(parts[k]);
            assert(mod_parts.take(k + 1).drop_last() =~= mod_parts.take(k as int));
            assert(mod_parts.take(k + 1).last() == ps[k as int]);
            match x {
                None => {
                    proof {
                        assert(modifiers_from(mod_parts.take(k + 1)) is Err);
                        lemma_modifiers_error_persists(mod_parts, k + 1, mod_parts.len() as int);
                        assert(mod_parts.take(mod_parts.len() as int) =~= mod_parts);
                    }
                    return Err(HotkeyParseError::UnknownModifier);
                },
                Some(m) => {
                    match add_modifier_exec(mods, m) {
                        None => {
                            proof {
                                assert(modifiers_from(mod_parts.take(k + 1)) is Err);
                                lemma_modifiers_error_persists(
                                    mod_parts,
                                    k + 1,
                                    mod_parts.len() as int,
                                );
                                assert(mod_parts.take(mod_parts.len() as int) =~= mod_parts);
                            }
                            return Err(HotkeyParseError::DuplicateModifier);
                        },
                        Some(m2) => {
                            mods = m2;
                        },
                    }
                },
            }
            k = k + 1;
        }
        assert(mod_parts.take(mod_parts.len() as int) =~= mod_parts);
        match key_exec(parts[n - 1]) {
            None => Err(HotkeyParseError::UnknownKey),
            Some(vk) => Ok(Hotkey { mods, vk }),
        }
    }
}


/// The decimal digits of `n`, for `1 <= n <= 99`.
pub open spec fn two_digit_decimal(n: u32) -> Seq<char> {
    if n < 10 {
        seq![((n + 48) as u8) as char]
    } else {
        seq![((n / 10 + 48) as u8) as char, ((n % 10 + 48) as u8) as char]
    }
}

/// The canonical spelling of a named key; empty for a code this module never
/// produces.
pub open spec fn named_key_name(vk: u32) -> Seq<char> {
    if vk == 0x26 {
        "Up"@
    } else if vk == 0x28 {
        "Down"@
    } else if vk == 0x25 {
        "Left"@
    } else if vk == 0x27 {
        "Right"@
    } else if vk == 0x20 {
        "Space"@
    } else if vk == 0x0D {
        "Enter"@
    } else if vk == 0x09 {
        "Tab"@
    } else if vk == 0x1B {
        "Esc"@
    } else if vk == 0x24 {
        "Home"@
    } else if vk == 0x23 {
        "End"@
    } else if vk == 0x21 {
        "PageUp"@
    } else if vk == 0x22 {
        "PageDown"@
    } else if vk == 0x2D {
        "Insert"@
    } else if vk == 0x2E {
        "Delete"@
    } else {
        Seq::empty()
    }
}

/// The canonical spelling of a key: the upper-case letter or the digit itself,
/// `F<n>` for a function key, otherwise its name.
pub open spec fn key_name(vk: u32) -> Seq<char> {
    if (0x41 <= vk <= 0x5A) || (0x30 <= vk <= 0x39) {
        seq![(vk as u8) as char]
    } else if 0x70 <= vk <= 0x87 {
        "F"@ + two_digit_decimal((vk - 0x6F) as u32)
    } else {
        named_key_name(vk)
    }
}

/// The modifiers in canonical order, each followed by `+`.
pub open spec fn modifiers_text(m: Modifiers) -> Seq<char> {
    (if m.ctrl { "Ctrl+"@ } else { Seq::empty() }) + (if m.alt { "Alt+"@ } else { Seq::empty() })
        + (if m.shift { "Shift+"@ } else { Seq::empty() }) + (if m.win { "Win+"@ } else {
        Seq::empty()
    })
}

/// The canonical text of a combination, e.g. `Ctrl+Alt+M`.
pub open spec fn hotkey_text(h: Hotkey) -> Seq<char> {
    modifiers_text(h.mods) + key_name(h.vk)
}

/// The `RegisterHotKey` modifier flags: `MOD_ALT` 1, `MOD_CONTROL` 2,
/// `MOD_SHIFT` 4, `MOD_WIN` 8.
pub open spec fn modifier_flags(m: Modifiers) -> u32 {
    ((if m.alt { 1u32 } else { 0u32 }) + (if m.ctrl { 2u32 } else { 0u32 }) + (if m.shift {
        4u32
    } else {
        0u32
    }) + (if m.win { 8u32 } else { 0u32 })) as u32
}

fn key_name_exec(vk: u32) -> (r: String)
    ensures
        r@ == key_name(vk),
{
    let mut r = String::new();
    if (0x41 <= vk && vk <= 0x5A) || (0x30 <= vk && vk <= 0x39) {
        text::push_char(&mut r, (vk as u8) as char);
        assert(r@ =~= key_name(vk));
    } else if 0x70 <= vk && vk <= 0x87 {
        let n = vk - 0x6F;
        text::push_char(&mut r, 'F');
        if n < 10 {
            text::push_char(&mut r, ((n + 48) as u8) as char);
        } else {
            text::push_char(&mut r, ((n / 10 + 48) as u8) as char);
            text::push_char(&mut r, ((n % 10 + 48) as u8) as char);
        }
        proof {
            reveal_strlit("F");
        }
        assert(r@ =~= key_name(vk));
    } else {
        let name = if vk == 0x26 {
            "Up"
        } else if vk == 0x28 {
            "Down"
        } else if vk == 0x25 {
            "Left"
        } else if vk == 0x27 {
            "Right"
        } else if vk == 0x20 {
            "Space"
        } else if vk == 0x0D {
            "Enter"
        } else if vk == 0x09 {
            "Tab"
        } else if vk == 0x1B {
            "Esc"
        } else if vk == 0x24 {
            "Home"
        } else if vk == 0x23 {
            "End"
        } else if vk == 0x21 {
            "PageUp"
        } else if vk == 0x22 {
            "PageDown"
        } else if vk == 0x2D {
            "Insert"
        } else if vk == 0x2E {
            "Delete"
        } else {
            ""
        };
        proof {
            reveal_strlit("");
        }
        r.append(name);
        assert(r@ =~= key_name(vk));
    }
    r
}

impl Hotkey {
    /// The `RegisterHotKey` modifier flags of this combination.
    pub fn modifiers(&self) -> (r: u32)
        ensures
            r == modifier_flags(self.mods),
    {
        (if self.mods.alt { 1u32 } else { 0u32 }) + (if self.mods.ctrl { 2u32 } else { 0u32 }) + (
        if self.mods.shift {
            4u32
        } else {
            0u32
        }) + (if self.mods.win { 8u32 } else { 0u32 })
    }

    /// The canonical text, e.g. `Ctrl+Alt+M`: modifiers in the order Ctrl,
    /// Alt, Shift, Win, then the key.
    pub fn to_string(&self) -> (r: String)
        ensures
            r@ == hotkey_text(*self),
    {
        let mut r = String::new();
        if self.mods.ctrl {
            r.append("Ctrl+");
        }
        let ghost a = r@;
        if self.mods.alt {
            r.append("Alt+");
        }
        let ghost b = r@;
        if self.mods.shift {
            r.append("Shift+");
        }
        let ghost c = r@;
        if self.mods.win {
            r.append("Win+");
        }
        let key = key_name_exec(self.vk);
        r.append(key.as_str());
        assert(r@ =~= hotkey_text(*self));
        r
    }
}

impl core::str::FromStr for Hotkey {
    type Err = HotkeyParseError;

    fn from_str(s: &str) -> (r: Result<Hotkey, HotkeyParseError>)
        ensures
            r == parse_spec(s@),
    {
        Hotkey::parse(s)
    }
}


/// One occupied combination as reported to the user: `Ctrl+Alt+M (Toggle Mute)`.
pub open spec fn occupied_line(entry: (HotkeyAction, Hotkey)) -> Seq<char> {
    hotkey_text(entry.1) + " ("@ + entry.0.spec_label() + ")"@
}

/// Every occupied combination, one line each.
pub open spec fn summary_text(occupied: Seq<(HotkeyAction, Hotkey)>) -> Seq<char> {
    text::join_seq(occupied.map_values(|e: (HotkeyAction, Hotkey)| occupied_line(e)), "\n"@)
}

/// List the combinations another program owns, one per line, each with the
/// action it was meant for.
pub fn summarize(occupied: &[(HotkeyAction, Hotkey)]) -> (r: String)
    ensures
        r@ == summary_text(occupied@),
{
    let ghost lines = occupied@.map_values(|e: (HotkeyAction, Hotkey)| occupied_line(e));
    let mut r = String::new();
    let mut i: usize = 0;
    while i < occupied.len()
        invariant
            i <= occupied@.len(),
            lines == occupied@.map_values(|e: (HotkeyAction, Hotkey)| occupied_line(e)),
            r@ == text::join_seq(lines.take(i as int), "\n"@),
        decreases occupied@.len() - i,
    {
        let (action, hotkey) = occupied[i];
        if i > 0 {
            r.append("\n");
        }
        let combo = hotkey.to_string();
        r.append(combo.as_str());
        r.append(" (");
        r.append(action.label());
        r.append(")");
        proof {
            let t = lines.take(i + 1);
            assert(t.drop_last() =~= lines.take(i as int));
            assert(t.last() == occupied_line(occupied@[i as int]));
            if i == 0 {
                assert(t.len() == 1);
            }
        }
        assert(r@ =~= text::join_seq(lines.take(i + 1), "\n"@));
        i = i + 1;
    }
    assert(lines.take(occupied@.len() as int) =~= lines);
    r
}

/// Registration failed for these combinations: another program owns them.
#[derive(Debug, Clone, PartialEq, Eq)]
pub struct HotkeyError(pub Vec<(HotkeyAction, Hotkey)>);

/// The message of a [`HotkeyError`].
pub open spec fn conflict_text(occupied: Seq<(HotkeyAction, Hotkey)>) -> Seq<char> {
    "hotkeys in use by another program:\n"@ + summary_text(occupied)
}

impl HotkeyError {
    /// The user-visible message: a heading, then the [`summarize`] list.
    pub fn to_string(&self) -> (r: String)
        ensures
            r@ == conflict_text(self.0@),
    {
        let list = summarize(self.0.as_slice());
        text::concat("hotkeys in use by another program:\n", list.as_str())
    }
}

/// The mask bit of an action: `1 << id`.
pub open spec fn action_bit(a: HotkeyAction) -> u32 {
    (1u32 << (a.spec_id() as u32)) as u32
}

/// Whether `a` is waiting in `mask`.
pub open spec fn is_pending(mask: u32, a: HotkeyAction) -> bool {
    mask & action_bit(a) != 0
}

/// The mask bit of an action: `1 << id`.
pub fn bit(a: HotkeyAction) -> (r: u32)
    ensures
        r == action_bit(a),
{
    1u32 << (a.id() as u32)
}

/// Hotkey presses seen by the message pump and not yet handled, one bit per
/// action, so a burst of one combination collapses into one press.
#[derive(Debug)]
pub struct PendingHotkeys {
    pub mask: u32,
}

impl PendingHotkeys {
    /// No press pending.
    pub fn new() -> (r: PendingHotkeys)
        ensures
            r.mask == 0,
    {
        PendingHotkeys { mask: 0 }
    }

    /// A queue holding exactly the presses of `mask`.
    pub fn from_mask(mask: u32) -> (r: PendingHotkeys)
        ensures
            r.mask == mask,
    {
        PendingHotkeys { mask }
    }

    /// Record a `WM_HOTKEY` with this id; ids that name no action are ignored.
    pub fn note_pending(&mut self, id: i32)
        ensures
            match HotkeyAction::from_id_spec(id) {
                Some(a) => final(self).mask == old(self).mask | action_bit(a),
                None => final(self).mask == old(self).mask,
            },
    {
        if let Some(a) = HotkeyAction::from_id(id) {
            self.mask = self.mask | bit(a);
        }
    }

    /// Take the pending action with the lowest id, clearing its bit.
    pub fn take_pending(&mut self) -> (r: Option<HotkeyAction>)
        ensures
            match r {
                Some(a) => {
                    &&& is_pending(old(self).mask, a)
                    &&& forall|b: HotkeyAction|
                        b.spec_id() < a.spec_id() ==> !is_pending(old(self).mask, b)
                    &&& final(self).mask == old(self).mask & !action_bit(a)
                },
                None => {
                    &&& forall|b: HotkeyAction| !is_pending(old(self).mask, b)
                    &&& final(self).mask == old(self).mask
                },
            },
    {
        let m = self.mask;
        let mut k: usize = 0;
        while k < 5
            invariant
                k <= 5,
                self.mask == m,
                m == old(self).mask,
                forall|b: HotkeyAction| b.spec_id() <= k ==> !is_pending(m, b),
            decreases 5 - k,
        {
            let a = HotkeyAction::ALL[k];
            assert(a.spec_id() == k + 1);
            let b = bit(a);
            if m & b != 0 {
                self.mask = m & !b;
                return Some(a);
            }
            k = k + 1;
        }
        None
    }
}

impl HotkeyAction {
    /// The action registered under `id`, if any.
    pub open spec fn from_id_spec(id: i32) -> Option<HotkeyAction> {
        if id == 1 {
            Some(HotkeyAction::Mute)
        } else if id == 2 {
            Some(HotkeyAction::VolumeUp)
        } else if id == 3 {
            Some(HotkeyAction::VolumeDown)
        } else if id == 4 {
            Some(HotkeyAction::NextDevice)
        } else if id == 5 {
            Some(HotkeyAction::PrevDevice)
        } else {
            None
        }
    }
}

} // verus!

verus! {

/// A piece with no `+` in it.
pub open spec fn no_plus(p: Seq<char>) -> bool {
    forall|i: int| 0 <= i < p.len() ==> p[i] != '+'
}

proof fn lemma_split_whole(p: Seq<char>, cur: Seq<char>)
    requires
        no_plus(p),
    ensures
        text::split_from(p, '+', cur) == seq![cur + p],
    decreases p.len(),
{
    if p.len() == 0 {
        assert(cur + p =~= cur);
    } else {
        lemma_split_whole(p.drop_first(), cur.push(p[0]));
        assert(cur.push(p[0]) + p.drop_first() =~= cur + p);
    }
}

proof fn lemma_split_piece(p: Seq<char>, rest: Seq<char>, cur: Seq<char>)
    requires
        no_plus(p),
    ensures
        text::split_from(p + seq!['+'] + rest, '+', cur) == seq![cur + p] + text::split_from(
            rest,
            '+',
            Seq::empty(),
        ),
    decreases p.len(),
{
    let s = p + seq!['+'] + rest;
    if p.len() == 0 {
        assert(s =~= seq!['+'] + rest);
        assert(s.drop_first() =~= rest);
        assert(cur + p =~= cur);
    } else {
        assert(s[0] == p[0]);
        assert(s.drop_first() =~= p.drop_first() + seq!['+'] + rest);
        lemma_split_piece(p.drop_first(), rest, cur.push(p[0]));
        assert(cur.push(p[0]) + p.drop_first() =~= cur + p);
    }
}

/// The modifier names of a set, in canonical order.
pub open spec fn mod_pieces(m: Modifiers) -> Seq<Seq<char>> {
    let p1: Seq<Seq<char>> = if m.ctrl { seq!["Ctrl"@] } else { Seq::empty() };
    let p2 = if m.alt { p1.push("Alt"@) } else { p1 };
    let p3 = if m.shift { p2.push("Shift"@) } else { p2 };
    if m.win { p3.push("Win"@) } else { p3 }
}

proof fn lemma_split_canonical(m: Modifiers, key: Seq<char>)
    requires
        no_plus(key),
    ensures
        split_seq(modifiers_text(m) + key, '+') == mod_pieces(m).push(key),
{
    reveal_strlit("Ctrl+");
    reveal_strlit("Alt+");
    reveal_strlit("Shift+");
    reveal_strlit("Win+");
    reveal_strlit("Ctrl");
    reveal_strlit("Alt");
    reveal_strlit("Shift");
    reveal_strlit("Win");
    let e = Seq::<char>::empty();
    let t4 = (if m.win { "Win+"@ } else { e }) + key;
    let t3 = (if m.shift { "Shift+"@ } else { e }) + t4;
    let t2 = (if m.alt { "Alt+"@ } else { e }) + t3;
    let t1 = (if m.ctrl { "Ctrl+"@ } else { e }) + t2;
    assert(modifiers_text(m) + key =~= t1);
    lemma_split_whole(key, e);
    assert(e + key =~= key);
    let s4: Seq<Seq<char>> = if m.win { seq!["Win"@, key] } else { seq![key] };
    if m.win {
        assert(t4 =~= "Win"@ + seq!['+'] + key);
        lemma_split_piece("Win"@, key, e);
        assert(e + "Win"@ =~= "Win"@);
    } else {
        assert(t4 =~= key);
    }
    assert(split_seq(t4, '+') =~= s4);
    let s3: Seq<Seq<char>> = if m.shift { seq!["Shift"@] + s4 } else { s4 };
    if m.shift {
        assert(t3 =~= "Shift"@ + seq!['+'] + t4);
        lemma_split_piece("Shift"@, t4, e);
        assert(e + "Shift"@ =~= "Shift"@);
    } else {
        assert(t3 =~= t4);
    }
    assert(split_seq(t3, '+') =~= s3);
    let s2: Seq<Seq<char>> = if m.alt { seq!["Alt"@] + s3 } else { s3 };
    if m.alt {
        assert(t2 =~= "Alt"@ + seq!['+'] + t3);
        lemma_split_piece("Alt"@, t3, e);
        assert(e + "Alt"@ =~= "Alt"@);
    } else {
        assert(t2 =~= t3);
    }
    assert(split_seq(t2, '+') =~= s2);
    let s1: Seq<Seq<char>> = if m.ctrl { seq!["Ctrl"@] + s2 } else { s2 };
    if m.ctrl {
        assert(t1 =~= "Ctrl"@ + seq!['+'] + t2);
        lemma_split_piece("Ctrl"@, t2, e);
        assert(e + "Ctrl"@ =~= "Ctrl"@);
    } else {
        assert(t1 =~= t2);
    }
    assert(split_seq(t1, '+') =~= s1);
    assert(s1 =~= mod_pieces(m).push(key));
}

} // verus!

verus! {

/// The virtual-key codes a key piece can name.
pub open spec fn valid_vk(vk: u32) -> bool {
    ||| 0x41 <= vk <= 0x5A
    ||| 0x30 <= vk <= 0x39
    ||| 0x70 <= vk <= 0x87
    ||| named_key_name(vk).len() > 0
}

/// A combination that parsing can produce: at least one modifier, and a
/// supported key.
pub open spec fn valid_hotkey(h: Hotkey) -> bool {
    (h.mods.ctrl || h.mods.alt || h.mods.shift || h.mods.win) && valid_vk(h.vk)
}

/// Whether a piece survives trimming unchanged: not empty, no whitespace at
/// either end.
pub open spec fn trim_fixed(s: Seq<char>) -> bool {
    s.len() > 0 && !text::is_ws(s[0]) && !text::is_ws(s.last())
}

proof fn lemma_trim_fixed(s: Seq<char>)
    requires
        trim_fixed(s),
    ensures
        trim_seq(s) == s,
{
}

proof fn lemma_named_key(vk: u32)
    requires
        named_key_name(vk).len() > 0,
    ensures
        no_plus(named_key_name(vk)),
        trim_fixed(named_key_name(vk)),
        key_code(named_key_name(vk)) == Some(vk),
{
    reveal_strlit("Up");
    reveal_strlit("Down");
    reveal_strlit("Left");
    reveal_strlit("Right");
    reveal_strlit("Space");
    reveal_strlit("Enter");
    reveal_strlit("Tab");
    reveal_strlit("Esc");
    reveal_strlit("Home");
    reveal_strlit("End");
    reveal_strlit("PageUp");
    reveal_strlit("PageDown");
    reveal_strlit("Insert");
    reveal_strlit("Delete");
    reveal_strlit("up");
    reveal_strlit("down");
    reveal_strlit("left");
    reveal_strlit("right");
    reveal_strlit("space");
    reveal_strlit("enter");
    reveal_strlit("tab");
    reveal_strlit("esc");
    reveal_strlit("home");
    reveal_strlit("end");
    reveal_strlit("pageup");
    reveal_strlit("pagedown");
    reveal_strlit("insert");
    reveal_strlit("delete");
    let n = named_key_name(vk);
    let l = lower_seq(n);
    assert(l.len() == n.len());
    assert(l.len() >= 2);
    assert(l[0] != 'f' || l.len() > 3) by {
        if l[0] == 'f' {
            assert(false);
        }
    }
    assert(function_key_number(l) is None);
    if vk == 0x26 {
        assert(l =~= "up"@);
        assert(named_key_code(l) == Some(0x26u32));
    } else if vk == 0x28 {
        assert(l =~= "down"@);
        assert(named_key_code(l) == Some(0x28u32));
    } else if vk == 0x25 {
        assert(l =~= "left"@);
        assert(named_key_code(l) == Some(0x25u32));
    } else if vk == 0x27 {
        assert(l =~= "right"@);
        assert(named_key_code(l) == Some(0x27u32));
    } else if vk == 0x20 {
        assert(l =~= "space"@);
        assert(named_key_code(l) == Some(0x20u32));
    } else if vk == 0x0D {
        assert(l =~= "enter"@);
        assert(named_key_code(l) == Some(0x0Du32));
    } else if vk == 0x09 {
        assert(l =~= "tab"@);
        assert(named_key_code(l) == Some(0x09u32));
    } else if vk == 0x1B {
        assert(l =~= "esc"@);
        assert(named_key_code(l) == Some(0x1Bu32));
    } else if vk == 0x24 {
        assert(l =~= "home"@);
        assert(named_key_code(l) == Some(0x24u32));
    } else if vk == 0x23 {
        assert(l =~= "end"@);
        assert(l != "esc"@) by {
            assert(l[1] != "esc"@[1]);
        }
        assert(l != "tab"@) by {
            assert(l[0] != "tab"@[0]);
        }
        assert(named_key_code(l) == Some(0x23u32));
    } else if vk == 0x21 {
        assert(l =~= "pageup"@);
        assert(named_key_code(l) == Some(0x21u32));
    } else if vk == 0x22 {
        assert(l =~= "pagedown"@);
        assert(named_key_code(l) == Some(0x22u32));
    } else if vk == 0x2D {
        assert(l =~= "insert"@);
        assert(named_key_code(l) == Some(0x2Du32));
    } else {
        assert(vk == 0x2E);
        assert(l =~= "delete"@);
        assert(named_key_code(l) == Some(0x2Eu32));
    }
}

proof fn lemma_key_round_trip(vk: u32)
    requires
        valid_vk(vk),
    ensures
        no_plus(key_name(vk)),
        trim_fixed(key_name(vk)),
        key_code(key_name(vk)) == Some(vk),
{
    let k = key_name(vk);
    if (0x41 <= vk <= 0x5A) || (0x30 <= vk <= 0x39) {
        let c = (vk as u8) as char;
        assert(c as u32 == vk);
        assert(k =~= seq![c]);
        let l = lower_seq(k);
        if 0x41 <= vk <= 0x5A {
            assert(l[0] == ((vk + 32) as u32) as char);
        } else {
            assert(l[0] == c);
        }
    } else if 0x70 <= vk <= 0x87 {
        reveal_strlit("F");
        let n = (vk - 0x6F) as u32;
        assert(1 <= n <= 24);
        let l = lower_seq(k);
        assert(l[0] == 'f');
        if n < 10 {
            assert(k =~= seq!['F', ((n + 48) as u8) as char]);
            assert(l =~= seq!['f', ((n + 48) as u8) as char]);
        } else {
            assert(k =~= seq!['F', ((n / 10 + 48) as u8) as char, ((n % 10 + 48) as u8) as char]);
            assert(l =~= seq!['f', ((n / 10 + 48) as u8) as char, ((n % 10 + 48) as u8) as char]);
            assert(10 * (n / 10) + n % 10 == n);
        }
    } else {
        lemma_named_key(vk);
    }
}

} // verus!

verus! {

proof fn lemma_modifier_names()
    ensures
        modifier_of("Ctrl"@) == Some(Modifier::Ctrl),
        modifier_of("Alt"@) == Some(Modifier::Alt),
        modifier_of("Shift"@) == Some(Modifier::Shift),
        modifier_of("Win"@) == Some(Modifier::Win),
        trim_fixed("Ctrl"@) && no_plus("Ctrl"@),
        trim_fixed("Alt"@) && no_plus("Alt"@),
        trim_fixed("Shift"@) && no_plus("Shift"@),
        trim_fixed("Win"@) && no_plus("Win"@),
{
    reveal_strlit("Ctrl");
    reveal_strlit("Alt");
    reveal_strlit("Shift");
    reveal_strlit("Win");
    reveal_strlit("ctrl");
    reveal_strlit("control");
    reveal_strlit("alt");
    reveal_strlit("shift");
    reveal_strlit("win");
    assert(lower_seq("Ctrl"@) =~= "ctrl"@);
    assert(lower_seq("Alt"@) =~= "alt"@);
    assert(lower_seq("Shift"@) =~= "shift"@);
    assert(lower_seq("Win"@) =~= "win"@);
    assert("alt"@ != "ctrl"@);
    assert("alt"@ != "control"@);
    assert("shift"@ != "ctrl"@);
    assert("shift"@ != "control"@);
    assert("shift"@ != "alt"@);
    assert("win"@ != "ctrl"@);
    assert("win"@ != "control"@);
    assert("win"@ != "alt"@) by {
        assert("win"@[0] != "alt"@[0]);
    }
    assert("win"@ != "shift"@);
}

proof fn lemma_modifiers_canonical(m: Modifiers)
    ensures
        modifiers_from(mod_pieces(m)) == Ok::<Modifiers, HotkeyParseError>(m),
{
    lemma_modifier_names();
    let e = Seq::<Seq<char>>::empty();
    let m1 = Modifiers { ctrl: m.ctrl, alt: false, shift: false, win: false };
    let p1: Seq<Seq<char>> = if m.ctrl { seq!["Ctrl"@] } else { e };
    assert(modifiers_from(e) == Ok::<Modifiers, HotkeyParseError>(no_modifiers()));
    if m.ctrl {
        assert(p1.drop_last() =~= e);
    }
    assert(modifiers_from(p1) == Ok::<Modifiers, HotkeyParseError>(m1));
    let m2 = Modifiers { alt: m.alt, ..m1 };
    let p2 = if m.alt { p1.push("Alt"@) } else { p1 };
    if m.alt {
        assert(p2.drop_last() =~= p1);
    }
    assert(modifiers_from(p2) == Ok::<Modifiers, HotkeyParseError>(m2));
    let m3 = Modifiers { shift: m.shift, ..m2 };
    let p3 = if m.shift { p2.push("Shift"@) } else { p2 };
    if m.shift {
        assert(p3.drop_last() =~= p2);
    }
    assert(modifiers_from(p3) == Ok::<Modifiers, HotkeyParseError>(m3));
    let p4 = if m.win { p3.push("Win"@) } else { p3 };
    if m.win {
        assert(p4.drop_last() =~= p3);
    }
    assert(p4 == mod_pieces(m));
    assert(modifiers_from(p4) == Ok::<Modifiers, HotkeyParseError>(m));
}

/// Canonical text parses back to the combination it was written from, for
/// every combination parsing can produce.
pub proof fn lemma_canonical_round_trip(h: Hotkey)
    requires
        valid_hotkey(h),
    ensures
        parse_spec(hotkey_text(h)) == Ok::<Hotkey, HotkeyParseError>(h),
{
    let key = key_name(h.vk);
    lemma_key_round_trip(h.vk);
    lemma_modifier_names();
    lemma_split_canonical(h.mods, key);
    let pieces = mod_pieces(h.mods).push(key);
    let ps = combo_pieces(hotkey_text(h));
    assert(split_seq(hotkey_text(h), '+') == pieces);
    assert forall|i: int| 0 <= i < pieces.len() implies trim_seq(#[trigger] pieces[i]) == pieces[i]
        && pieces[i].len() > 0 by {
        lemma_trim_fixed(pieces[i]);
    }
    assert(ps =~= pieces);
    assert(!(exists|i: int| 0 <= i < ps.len() && (#[trigger] ps[i]).len() == 0));
    assert(ps.len() >= 2);
    assert(ps.drop_last() =~= mod_pieces(h.mods));
    lemma_modifiers_canonical(h.mods);
}

/// Everything parsing accepts is a valid combination.
pub proof fn lemma_parsed_is_valid(s: Seq<char>)
    requires
        parse_spec(s) is Ok,
    ensures
        valid_hotkey(parse_spec(s)->Ok_0),
{
    let ps = combo_pieces(s);
    let h = parse_spec(s)->Ok_0;
    let mods = ps.drop_last();
    assert(mods.len() >= 1);
    let p = ps.last();
    let l = lower_seq(p);
    reveal_strlit("Up");
    reveal_strlit("Down");
    reveal_strlit("Left");
    reveal_strlit("Right");
    reveal_strlit("Space");
    reveal_strlit("Enter");
    reveal_strlit("Tab");
    reveal_strlit("Esc");
    reveal_strlit("Home");
    reveal_strlit("End");
    reveal_strlit("PageUp");
    reveal_strlit("PageDown");
    reveal_strlit("Insert");
    reveal_strlit("Delete");
    assert(valid_vk(h.vk));
}

/// A parsed combination, written canonically, parses back to itself.
pub proof fn lemma_parse_print_parse(s: Seq<char>)
    requires
        parse_spec(s) is Ok,
    ensures
        parse_spec(hotkey_text(parse_spec(s)->Ok_0)) == parse_spec(s),
{
    lemma_parsed_is_valid(s);
    lemma_canonical_round_trip(parse_spec(s)->Ok_0);
}

} // verus!

verus! {

/// The canonical text of a valid combination has no whitespace at its ends.
pub proof fn lemma_canonical_text_trimmed(h: Hotkey)
    requires
        valid_hotkey(h),
    ensures
        trim_seq(hotkey_text(h)) == hotkey_text(h),
        hotkey_text(h).len() > 0,
{
    reveal_strlit("Ctrl+");
    reveal_strlit("Alt+");
    reveal_strlit("Shift+");
    reveal_strlit("Win+");
    lemma_key_round_trip(h.vk);
    let t = hotkey_text(h);
    let k = key_name(h.vk);
    let mt = modifiers_text(h.mods);
    assert(mt.len() > 0);
    assert(t == mt + k);
    assert(t.last() == k.last());
    assert(!text::is_ws(t[0]));
    lemma_trim_fixed(t);
}

} // verus!

verus! {

/// Hotkey ids are stable and reversible: each action's id names it back, and
/// every id that names an action is that action's id.
pub proof fn lemma_action_id_round_trip(a: HotkeyAction, id: i32)
    ensures
        HotkeyAction::from_id_spec(a.spec_id()) == Some(a),
        HotkeyAction::from_id_spec(id) == Some(a) ==> id == a.spec_id(),
        1 <= a.spec_id() <= 5,
{
}

proof fn lemma_flag_bits(a: u32, c: u32, s: u32, w: u32)
    by (bit_vector)
    requires
        a <= 1,
        c <= 1,
        s <= 1,
        w <= 1,
    ensures
        ((a + 2 * c + 4 * s + 8 * w) as u32 & 1u32 != 0) == (a == 1),
        ((a + 2 * c + 4 * s + 8 * w) as u32 & 2u32 != 0) == (c == 1),
        ((a + 2 * c + 4 * s + 8 * w) as u32 & 4u32 != 0) == (s == 1),
        ((a + 2 * c + 4 * s + 8 * w) as u32 & 8u32 != 0) == (w == 1),
        (a + 2 * c + 4 * s + 8 * w) < 16,
{
}

/// The `RegisterHotKey` flags carry one fixed bit per modifier, as Win32
/// defines them: `MOD_ALT` 1, `MOD_CONTROL` 2, `MOD_SHIFT` 4, `MOD_WIN` 8, and
/// nothing else.
pub proof fn lemma_modifier_flags_are_the_win32_bits(m: Modifiers)
    ensures
        (modifier_flags(m) & 1u32 != 0) == m.alt,
        (modifier_flags(m) & 2u32 != 0) == m.ctrl,
        (modifier_flags(m) & 4u32 != 0) == m.shift,
        (modifier_flags(m) & 8u32 != 0) == m.win,
        modifier_flags(m) < 16,
{
    let a: u32 = if m.alt { 1 } else { 0 };
    let c: u32 = if m.ctrl { 1 } else { 0 };
    let s: u32 = if m.shift { 1 } else { 0 };
    let w: u32 = if m.win { 1 } else { 0 };
    assert(modifier_flags(m) == (a + 2 * c + 4 * s + 8 * w) as u32);
    lemma_flag_bits(a, c, s, w);
}

} // verus!
