//! The floating queue overlay and the tray menu: names, sizes and the
//! decisions on showing and hiding.
use vstd::prelude::*;
use crate::text::str_eq;

verus! {

/// The window label of the overlay.
pub const OVERLAY_LABEL: &'static str = "overlay";

/// The overlay's width, in logical pixels.
pub const OVERLAY_WIDTH: u32 = 340;

/// The overlay's height, in logical pixels.
pub const OVERLAY_HEIGHT: u32 = 400;

/// The distance of the overlay from the right edge of the screen.
pub const OVERLAY_RIGHT_MARGIN: u32 = 16;

/// The distance of the overlay from the top of the screen.
pub const OVERLAY_TOP: u32 = 48;

/// The identifier of the tray icon.
pub const TRAY_ID: &'static str = "main-tray";

/// What toggling the overlay does: hide a visible one, show a hidden one;
/// the result tells whether it is visible afterwards.
pub fn toggle_visibility(visible: bool) -> (shown: bool)
    ensures
        shown == !visible,
{
    !visible
}

/// Whether the overlay is hidden when the queue changes: only a visible
/// overlay over an empty queue is.
pub fn should_hide(has_items: bool, visible: bool) -> (r: bool)
    ensures
        r == (!has_items && visible),
{
    !has_items && visible
}

/// Whether the overlay is shown when an item is added: only when the main
/// window is hidden (or missing).
pub fn should_show_on_add(main_visible: Option<bool>) -> (r: bool)
    ensures
        r == match main_visible {
            Some(v) => !v,
            None => true,
        },
{
    match main_visible {
        Some(v) => !v,
        None => true,
    }
}

/// The entries of the tray menu.
#[derive(Debug, Clone, Copy, PartialEq, Eq, Structural)]
pub enum TrayAction {
    Show,
    ToggleOverlay,
    Quit,
}

/// The action of a tray menu entry, by its identifier.
pub fn menu_action(id: &str) -> (r: Option<TrayAction>)
    ensures
        r == (if id@ == "show"@ {
            Some(TrayAction::Show)
        } else if id@ == "toggle_overlay"@ {
            Some(TrayAction::ToggleOverlay)
        } else if id@ == "quit"@ {
            Some(TrayAction::Quit)
        } else {
            None
        }),
{
    if str_eq(id, "show") {
        Some(TrayAction::Show)
    } else if str_eq(id, "toggle_overlay") {
        Some(TrayAction::ToggleOverlay)
    } else if str_eq(id, "quit") {
        Some(TrayAction::Quit)
    } else {
        None
    }
}

/// Whether a click on the tray icon shows the main window: the left button
/// released.
pub fn shows_main_window(left_button: bool, released: bool) -> (r: bool)
    ensures
        r == (left_button && released),
{
    left_button && released
}

} // verus!
