//! The compact tray menu: one checkable entry per output device, then
//! autostart, refresh, about and exit; and the tray glyph's pixels.

use vstd::prelude::*;
use vstd::string::*;
use crate::audio::AudioDevice;
use crate::text;
use crate::theme::{self, Theme};

verus! {

/// Prefix on the menu id of a device entry: `dev:<device-id>`.
pub const DEV_PREFIX: &'static str = "dev:";
/// Menu id of "refresh the device list".
pub const ID_REFRESH: &'static str = "refresh";
/// Menu id of "exit".
pub const ID_EXIT: &'static str = "exit";
/// Menu id of "about".
pub const ID_ABOUT: &'static str = "about";
/// Menu id of the autostart toggle.
pub const ID_AUTOSTART: &'static str = "autostart";

/// Placeholder shown when no output device is active.
pub const TEXT_NO_DEVICES: &'static str = "(无可用音频设备)";
/// Label of the autostart toggle.
pub const TEXT_AUTOSTART: &'static str = "开机自动启动";
/// Label of the refresh entry.
pub const TEXT_REFRESH: &'static str = "刷新设备列表";
/// Label of the about entry.
pub const TEXT_ABOUT: &'static str = "关于";
/// Label of the exit entry.
pub const TEXT_EXIT: &'static str = "退出";
/// Tooltip of the tray icon.
pub const TOOLTIP: &'static str = "音频输出设备切换";

/// What a menu id asks for.
#[derive(Debug, Clone, Copy, PartialEq, Eq)]
pub enum MenuAction<'a> {
    /// Make the device with this id the default output.
    Switch(&'a str),
    Refresh,
    ToggleAutostart,
    About,
    Exit,
}

/// The action of a menu id, by its text: `dev:` + device id switches,
/// `refresh`, `about` and `autostart` are themselves, anything else exits (the
/// dispatcher is total and never drops an unknown id).
pub open spec fn menu_action_spec(id: Seq<char>) -> Option<Seq<char>> {
    if text::starts_with_seq(id, DEV_PREFIX@) {
        Some(id.skip(DEV_PREFIX@.len() as int))
    } else {
        None
    }
}

/// Classify a menu id string into the actions the event loop understands.
pub fn classify_menu_id(id: &str) -> (r: MenuAction<'_>)
    ensures
        match r {
            MenuAction::Switch(dev) => menu_action_spec(id@) == Some(dev@),
            MenuAction::Refresh => menu_action_spec(id@) is None && id@ == ID_REFRESH@,
            MenuAction::About => menu_action_spec(id@) is None && id@ == ID_ABOUT@,
            MenuAction::ToggleAutostart => menu_action_spec(id@) is None && id@
                == ID_AUTOSTART@,
            MenuAction::Exit => menu_action_spec(id@) is None && id@ != ID_REFRESH@ && id@
                != ID_ABOUT@ && id@ != ID_AUTOSTART@,
        },
{
    if text::starts_with(id, DEV_PREFIX) {
        proof {
            reveal_strlit("dev:");
        }
        let dev = id.substring_char(4, id.unicode_len());
        assert(dev@ =~= id@.skip(4));
        MenuAction::Switch(dev)
    } else if text::str_eq(id, ID_REFRESH) {
        MenuAction::Refresh
    } else if text::str_eq(id, ID_ABOUT) {
        MenuAction::About
    } else if text::str_eq(id, ID_AUTOSTART) {
        MenuAction::ToggleAutostart
    } else {
        MenuAction::Exit
    }
}

/// One entry of the tray menu, as the menu builder receives it.
#[derive(Debug, Clone, PartialEq, Eq)]
pub enum TrayItem {
    /// A grayed, id-less line of text.
    Disabled { text: String },
    /// A checkable entry.
    Check { id: String, text: String, checked: bool },
    /// A plain clickable entry.
    Plain { id: String, text: String },
    Separator,
}

/// The view of a tray item: texts as character sequences.
pub enum TrayItemView {
    Disabled { text: Seq<char> },
    Check { id: Seq<char>, text: Seq<char>, checked: bool },
    Plain { id: Seq<char>, text: Seq<char> },
    Separator,
}

impl View for TrayItem {
    type V = TrayItemView;

    open spec fn view(&self) -> TrayItemView {
        match self {
            TrayItem::Disabled { text } => TrayItemView::Disabled { text: text@ },
            TrayItem::Check { id, text, checked } => TrayItemView::Check {
                id: id@,
                text: text@,
                checked: *checked,
            },
            TrayItem::Plain { id, text } => TrayItemView::Plain { id: id@, text: text@ },
            TrayItem::Separator => TrayItemView::Separator,
        }
    }
}

/// The device entry for `d`: checked when it is the current default.
pub open spec fn device_item(d: (Seq<char>, Seq<char>), current: Option<Seq<char>>) -> TrayItemView {
    TrayItemView::Check {
        id: DEV_PREFIX@ + d.0,
        text: d.1,
        checked: current == Some(d.0),
    }
}

/// The fixed tail of the menu: separator, autostart, refresh, about, exit.
pub open spec fn menu_tail(autostart: bool) -> Seq<TrayItemView> {
    seq![
        TrayItemView::Separator,
        TrayItemView::Check { id: ID_AUTOSTART@, text: TEXT_AUTOSTART@, checked: autostart },
        TrayItemView::Plain { id: ID_REFRESH@, text: TEXT_REFRESH@ },
        TrayItemView::Plain { id: ID_ABOUT@, text: TEXT_ABOUT@ },
        TrayItemView::Plain { id: ID_EXIT@, text: TEXT_EXIT@ },
    ]
}

/// The devices as `(id, name)` views.
pub open spec fn device_views(devices: Seq<AudioDevice>) -> Seq<(Seq<char>, Seq<char>)> {
    devices.map_values(|d: AudioDevice| (d.id@, d.name@))
}

/// The whole menu: the placeholder when there are no devices, otherwise one
/// entry per device in order; then the fixed tail.
pub open spec fn menu_spec(
    devices: Seq<(Seq<char>, Seq<char>)>,
    current: Option<Seq<char>>,
    autostart: bool,
) -> Seq<TrayItemView> {
    let head = if devices.len() == 0 {
        seq![TrayItemView::Disabled { text: TEXT_NO_DEVICES@ }]
    } else {
        devices.map_values(|d: (Seq<char>, Seq<char>)| device_item(d, current))
    };
    head + menu_tail(autostart)
}

/// The views of a list of items.
pub open spec fn items_view(items: Seq<TrayItem>) -> Seq<TrayItemView> {
    items.map_values(|i: TrayItem| i@)
}

/// Build the tray menu's entries from the active devices, the current
/// default's id, and whether autostart is on.
pub fn build_menu(devices: &[AudioDevice], current: Option<&str>, autostart: bool) -> (r: Vec<
    TrayItem,
>)
    ensures
        items_view(r@) == menu_spec(
            device_views(devices@),
            match current {
                Some(c) => Some(c@),
                None => None,
            },
            autostart,
        ),
{
    let ghost cur = match current {
        Some(c) => Some(c@),
        None => None::<Seq<char>>,
    };
    let ghost dv = device_views(devices@);
    let mut items: Vec<TrayItem> = Vec::new();
    if devices.len() == 0 {
        items.push(TrayItem::Disabled { text: text::to_owned(TEXT_NO_DEVICES) });
        assert(items_view(items@) =~= seq![TrayItemView::Disabled { text: TEXT_NO_DEVICES@ }]);
    } else {
        let mut i: usize = 0;
        while i < devices.len()
            invariant
                i <= devices.len(),
                dv == device_views(devices@),
                cur == (match current {
                    Some(c) => Some(c@),
                    None => None::<Seq<char>>,
                }),
                items_view(items@) =~= dv.take(i as int).map_values(
                    |d: (Seq<char>, Seq<char>)| device_item(d, cur),
                ),
            decreases devices.len() - i,
        {
            let d = &devices[i];
            let checked = match current {
                Some(c) => text::str_eq(c, d.id.as_str()),
                None => false,
            };
            let id = text::concat(DEV_PREFIX, d.id.as_str());
            let item = TrayItem::Check { id, text: d.name.clone(), checked };
            let ghost before = items@;
            items.push(item);
            proof {
                let f = |d: (Seq<char>, Seq<char>)| device_item(d, cur);
                assert(dv[i as int] == (d.id@, d.name@));
                assert(dv.take(i + 1) =~= dv.take(i as int).push(dv[i as int]));
                assert(dv.take(i + 1).map_values(f) =~= dv.take(i as int).map_values(f).push(
                    f(dv[i as int]),
                ));
                assert(items@ == before.push(item));
                assert(items_view(items@) =~= items_view(before).push(item@));
                assert(item@ == f(dv[i as int]));
            }
            i = i + 1;
        }
        assert(dv.take(devices.len() as int) =~= dv);
    }
    let ghost head = items_view(items@);
    items.push(TrayItem::Separator);
    items.push(
        TrayItem::Check {
            id: text::to_owned(ID_AUTOSTART),
            text: text::to_owned(TEXT_AUTOSTART),
            checked: autostart,
        },
    );
    items.push(TrayItem::Plain { id: text::to_owned(ID_REFRESH), text: text::to_owned(TEXT_REFRESH) });
    items.push(TrayItem::Plain { id: text::to_owned(ID_ABOUT), text: text::to_owned(TEXT_ABOUT) });
    items.push(TrayItem::Plain { id: text::to_owned(ID_EXIT), text: text::to_owned(TEXT_EXIT) });
    assert(items_view(items@) =~= head + menu_tail(autostart));
    items
}

/// The decoded pixels of a PNG image: RGBA bytes, width and height, or
/// nothing when the bytes are not a decodable PNG.
pub uninterp spec fn png_rgba(png: Seq<u8>) -> Option<(Seq<u8>, u32, u32)>;

/// Decode PNG bytes to 8-bit RGBA with `image::load_from_memory_with_format`
/// (format PNG), `DynamicImage::to_rgba8`, `ImageBuffer::dimensions` and
/// `ImageBuffer::into_raw`. The result is the named decoding of the bytes.
#[verifier::external_body]
fn decode_png(png: &[u8]) -> (r: Option<(Vec<u8>, u32, u32)>)
    ensures
        match r {
            Some((px, w, h)) => png_rgba(png@) == Some((px@, w, h)),
            None => png_rgba(png@) is None,
        },
{
    match image::load_from_memory_with_format(png, image::ImageFormat::Png) {
        Ok(img) => {
            let rgba = img.to_rgba8();
            let (w, h) = rgba.dimensions();
            Some((rgba.into_raw(), w, h))
        },
        Err(_) => None,
    }
}

/// Whether RGBA bytes and dimensions make a valid icon: whole pixels, exactly
/// `width * height` of them.
pub open spec fn icon_fits(len: nat, w: u32, h: u32) -> bool {
    len % 4 == 0 && len / 4 == w * h
}

/// The tray glyph's pixels: the decoded PNG when it decodes to a valid icon,
/// otherwise the theme's solid 32x32 fallback, so a missing or corrupt image
/// never blocks startup.
pub fn make_icon(theme: Theme, png: &[u8]) -> (r: (Vec<u8>, u32, u32))
    ensures
        icon_fits(r.0@.len(), r.1, r.2),
        match png_rgba(png@) {
            Some((px, w, h)) => if icon_fits(px.len(), w, h) {
                r.0@ == px && r.1 == w && r.2 == h
            } else {
                r.1 == 32 && r.2 == 32
            },
            None => r.1 == 32 && r.2 == 32,
        },
        (r.1 == 32 && r.2 == 32 && !(png_rgba(png@) matches Some((px, w, h)) && icon_fits(
            px.len(),
            w,
            h,
        ))) ==> forall|i: int|
            0 <= i < r.0@.len() ==> #[trigger] r.0@[i] == theme::icon_fallback_rgba(theme)@[i
                % 4],
{
    match decode_png(png) {
        Some((px, w, h)) => {
            let len = px.len();
            assert((w as u64) * (h as u64) <= 0xffff_ffff_ffff_ffffu64) by (nonlinear_arith)
                requires w <= 0xffff_ffffu32, h <= 0xffff_ffffu32;
            if len % 4 == 0 && (len / 4) as u64 == (w as u64) * (h as u64) {
                return (px, w, h);
            }
        },
        None => {},
    }
    let buf = theme::fallback_icon(theme);
    (buf, 32, 32)
}

} // verus!

verus! {

/// Every device entry the menu builds dispatches back to a switch to that
/// device, whatever the device id is.
pub proof fn lemma_device_entry_dispatches(d: (Seq<char>, Seq<char>), current: Option<Seq<char>>)
    ensures
        device_item(d, current) matches TrayItemView::Check { id, .. } && menu_action_spec(id)
            == Some(d.0),
{
    reveal_strlit("dev:");
    let id = DEV_PREFIX@ + d.0;
    assert(id.subrange(0, 4) =~= DEV_PREFIX@);
    assert(id.skip(4) =~= d.0);
}

} // verus!
