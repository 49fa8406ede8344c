//! Shell appearance: the light/dark switches and the accent colour, decoded
//! from the raw registry values the application reads.

use vstd::prelude::*;

verus! {

/// Shell appearance the overlay mirrors.
#[derive(Debug, Clone, Copy, PartialEq, Eq)]
pub struct Appearance {
    /// Whether the shell (taskbar, tray, flyouts) is in its light theme.
    pub light: bool,
    /// Accent colour as `(r, g, b)`; `None` when it cannot be read.
    pub accent: Option<(u8, u8, u8)>,
}

/// The `(r, g, b)` of a registry `0xAABBGGRR` accent: red is the low byte.
pub open spec fn accent_spec(raw: u32) -> (u8, u8, u8) {
    ((raw % 0x100) as u8, ((raw / 0x100) % 0x100) as u8, ((raw / 0x1_0000) % 0x100) as u8)
}

/// Unpack the registry's `0xAABBGGRR` accent into `(r, g, b)`.
pub fn accent_from_abgr(raw: u32) -> (r: (u8, u8, u8))
    ensures
        r == accent_spec(raw),
{
    let r = (raw & 0xFF) as u8;
    let g = ((raw >> 8u32) & 0xFF) as u8;
    let b = ((raw >> 16u32) & 0xFF) as u8;
    assert(raw & 0xFF == raw % 0x100) by (bit_vector);
    assert((raw >> 8u32) & 0xFF == (raw / 0x100) % 0x100) by (bit_vector);
    assert((raw >> 16u32) & 0xFF == (raw / 0x1_0000) % 0x100) by (bit_vector);
    (r, g, b)
}

/// The appearance from the two registry reads (`None`: not readable): light
/// only when `SystemUsesLightTheme` reads nonzero, the accent when
/// `AccentColor` reads at all. Unreadable values fall back to dark, no accent.
pub fn appearance(system_uses_light: Option<u32>, accent_color: Option<u32>) -> (r: Appearance)
    ensures
        r.light == (system_uses_light matches Some(v) && v != 0),
        r.accent == (match accent_color {
            Some(raw) => Some(accent_spec(raw)),
            None => None,
        }),
{
    let light = match system_uses_light {
        Some(v) => v != 0,
        None => false,
    };
    let accent = match accent_color {
        Some(raw) => Some(accent_from_abgr(raw)),
        None => None,
    };
    Appearance { light, accent }
}

/// Light vs dark taskbar for the tray glyph. `Unknown` (the registry could
/// not be read) is drawn as light, the safer fallback.
#[derive(Debug, Clone, Copy, PartialEq, Eq, Structural)]
pub enum Theme {
    Light,
    Dark,
    Unknown,
}

/// The theme an `AppsUseLightTheme` read gives: unreadable or shorter than a
/// DWORD is `Unknown`; a little-endian value of zero is `Dark`, any other
/// `Light`.
pub open spec fn theme_spec(read: Option<Seq<u8>>) -> Theme {
    match read {
        None => Theme::Unknown,
        Some(bytes) => if bytes.len() < 4 {
            Theme::Unknown
        } else if bytes[0] == 0 && bytes[1] == 0 && bytes[2] == 0 && bytes[3] == 0 {
            Theme::Dark
        } else {
            Theme::Light
        },
    }
}

/// The little-endian DWORD of four bytes.
pub open spec fn le_u32(b0: u8, b1: u8, b2: u8, b3: u8) -> int {
    b0 + b1 * 0x100 + b2 * 0x1_0000 + b3 * 0x100_0000
}

/// A readable value is `Dark` exactly when its little-endian DWORD is zero.
pub proof fn lemma_theme_is_the_dword(bytes: Seq<u8>)
    requires
        bytes.len() >= 4,
    ensures
        theme_spec(Some(bytes)) == (if le_u32(bytes[0], bytes[1], bytes[2], bytes[3]) == 0 {
            Theme::Dark
        } else {
            Theme::Light
        }),
{
}

/// The startup theme from the registry read of `AppsUseLightTheme` (`None`
/// when the key or value could not be read; otherwise the bytes read).
pub fn init(read: Option<&[u8]>) -> (r: Theme)
    ensures
        r == theme_spec(match read {
            Some(b) => Some(b@),
            None => None,
        }),
{
    match read {
        None => Theme::Unknown,
        Some(bytes) => {
            if bytes.len() < 4 {
                Theme::Unknown
            } else if bytes[0] == 0 && bytes[1] == 0 && bytes[2] == 0 && bytes[3] == 0 {
                Theme::Dark
            } else {
                Theme::Light
            }
        },
    }
}

/// The tray glyph variant and its fallback colour for a theme: the white
/// glyph on a dark taskbar, the black glyph otherwise.
pub open spec fn icon_fallback_rgba(theme: Theme) -> [u8; 4] {
    match theme {
        Theme::Dark => [0xE6, 0xE6, 0xE6, 0xFF],
        _ => [0x36, 0x36, 0x36, 0xFF],
    }
}

/// Side of the solid fallback icon, pixels.
pub const FALLBACK_ICON_SIDE: u32 = 32;

/// Whether the dark-taskbar (white) glyph is the one to draw.
pub fn uses_dark_glyph(theme: Theme) -> (r: bool)
    ensures
        r == (theme == Theme::Dark),
{
    theme == Theme::Dark
}

/// The solid fallback icon: 32x32 pixels of the theme's fallback colour,
/// RGBA, row by row.
pub fn fallback_icon(theme: Theme) -> (r: Vec<u8>)
    ensures
        r@.len() == 32 * 32 * 4,
        forall|i: int| 0 <= i < 32 * 32 * 4 ==> #[trigger] r@[i] == icon_fallback_rgba(theme)@[i
            % 4],
{
    let color: [u8; 4] = match theme {
        Theme::Dark => [0xE6, 0xE6, 0xE6, 0xFF],
        _ => [0x36, 0x36, 0x36, 0xFF],
    };
    assert(color@ == icon_fallback_rgba(theme)@);
    let mut buf: Vec<u8> = Vec::new();
    let mut i: usize = 0;
    while i < 32 * 32
        invariant
            i <= 32 * 32,
            buf@.len() == i * 4,
            color@ == icon_fallback_rgba(theme)@,
            forall|k: int| 0 <= k < i * 4 ==> #[trigger] buf@[k] == color@[k % 4],
        decreases 32 * 32 - i,
    {
        let mut j: usize = 0;
        while j < 4
            invariant
                j <= 4,
                i < 32 * 32,
                buf@.len() == i * 4 + j,
                forall|k: int| 0 <= k < i * 4 + j ==> #[trigger] buf@[k] == color@[k % 4],
            decreases 4 - j,
        {
            buf.push(color[j]);
            proof {
                let k = (i * 4 + j) as int;
                assert(k % 4 == j as int) by (nonlinear_arith)
                    requires k == i * 4 + j, 0 <= j < 4, i >= 0;
            }
            j = j + 1;
        }
        i = i + 1;
    }
    buf
}

} // verus!
