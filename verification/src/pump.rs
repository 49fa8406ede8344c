//! The message pump's routing: which queued messages the loop consumes itself
//! and which are dispatched to their windows.

use vstd::prelude::*;

verus! {

/// `WM_HOTKEY`.
pub const WM_HOTKEY: u32 = 0x0312;
/// `WM_APP`.
pub const WM_APP: u32 = 0x8000;
/// The message the audio callbacks post to end the loop's wait early.
pub const WAKE_MESSAGE: u32 = 0x8001;

/// What the pump does with one message.
#[derive(Debug, Clone, Copy, PartialEq, Eq, Structural)]
pub enum Route {
    /// A global hotkey fired: queue its id for the loop.
    Hotkey,
    /// A wake post: its only job was to end the wait.
    Wake,
    /// Translate and dispatch to the window procedure.
    Dispatch,
}

/// Route one message: hotkeys are queued (their id is in `wParam`), wake posts
/// are dropped, everything else is dispatched.
pub fn route(message: u32) -> (r: Route)
    ensures
        r == (if message == WM_HOTKEY {
            Route::Hotkey
        } else if message == WAKE_MESSAGE {
            Route::Wake
        } else {
            Route::Dispatch
        }),
{
    if message == WM_HOTKEY {
        Route::Hotkey
    } else if message == WAKE_MESSAGE {
        Route::Wake
    } else {
        Route::Dispatch
    }
}

} // verus!
