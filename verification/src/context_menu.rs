//! When the context menu of the canvas opens and closes.
//!
//! A right click on the content toggles the menu at the pointer; while it is
//! shown, the menu's overlay decides which events close it and which reach its
//! entries. Where the menu is placed and how it is drawn stays with the caller.
use vstd::prelude::*;

verus! {

/// An event as the shown menu sees it.
#[derive(Debug, Clone, Copy, PartialEq, Eq, Structural)]
pub enum OverlayEvent {
    /// The escape key went down.
    EscapePressed,
    /// Another key went down.
    KeyPressed,
    /// The left or the right button, or a finger, went down: whether over the
    /// entries.
    Pressed { over_entries: bool },
    /// The left button came up.
    LeftReleased,
    /// The window was resized.
    WindowResized,
    /// Anything else.
    Other,
}

/// What the shown menu does with an event before its entries may see it.
#[derive(Debug, Clone, Copy, PartialEq, Eq, Structural)]
pub struct OverlayResponse {
    /// Whether the menu stays shown.
    pub show: bool,
    /// Whether the entries get the event.
    pub forward: bool,
}

/// What the shown menu does with `event`: the escape key, a resize and a press
/// away from the entries close it without the entries seeing the event; a
/// release of the left button closes it after the entries have seen it (a
/// button sends its message on release); the entries see every other event.
pub open spec fn overlay_response(event: OverlayEvent) -> OverlayResponse {
    match event {
        OverlayEvent::EscapePressed => OverlayResponse { show: false, forward: false },
        OverlayEvent::Pressed { over_entries } => if over_entries {
            OverlayResponse { show: true, forward: true }
        } else {
            OverlayResponse { show: false, forward: false }
        },
        OverlayEvent::LeftReleased => OverlayResponse { show: false, forward: true },
        OverlayEvent::WindowResized => OverlayResponse { show: false, forward: false },
        _ => OverlayResponse { show: true, forward: true },
    }
}

/// What the shown menu does with `event` before its entries may see it.
pub fn overlay_event(event: OverlayEvent) -> (r: OverlayResponse)
    ensures
        r == overlay_response(event),
{
    match event {
        OverlayEvent::EscapePressed => OverlayResponse { show: false, forward: false },
        OverlayEvent::KeyPressed => OverlayResponse { show: true, forward: true },
        OverlayEvent::Pressed { over_entries } => OverlayResponse {
            show: over_entries,
            forward: over_entries,
        },
        OverlayEvent::LeftReleased => OverlayResponse { show: false, forward: true },
        OverlayEvent::WindowResized => OverlayResponse { show: false, forward: false },
        OverlayEvent::Other => OverlayResponse { show: true, forward: true },
    }
}

/// Whether the menu stays shown once its entries had the event: an entry that
/// takes the event closes it.
pub fn after_entries(show: bool, captured: bool) -> (r: bool)
    ensures
        r == (show && !captured),
{
    show && !captured
}

/// What a right click does to the menu.
#[derive(Debug, Clone, Copy, PartialEq, Eq, Structural)]
pub struct ToggleResponse {
    /// Whether the menu is shown afterwards.
    pub show: bool,
    /// Whether the click is taken, with the pointer kept as the place of the
    /// menu.
    pub capture: bool,
}

/// What an event that the content did not take does to the menu: a right
/// click over the content shows a hidden menu at the pointer and hides a shown
/// one.
pub open spec fn toggle_response(show: bool, right_pressed: bool, over_content: bool) -> ToggleResponse {
    if right_pressed && over_content {
        ToggleResponse { show: !show, capture: true }
    } else {
        ToggleResponse { show, capture: false }
    }
}

/// What an event that reached the content does to the menu, `captured`
/// telling whether the content took it.
pub fn toggle(show: bool, captured: bool, right_pressed: bool, over_content: bool) -> (r:
    ToggleResponse)
    ensures
        captured ==> r == (ToggleResponse { show, capture: false }),
        !captured ==> r == toggle_response(show, right_pressed, over_content),
{
    if !captured && right_pressed && over_content {
        ToggleResponse { show: !show, capture: true }
    } else {
        ToggleResponse { show, capture: false }
    }
}

/// The menu closes on the escape key, on a resize, on a press away from its
/// entries and on a release of the left button, whatever its entries do; it
/// stays open otherwise unless an entry takes the event.
pub proof fn lemma_menu_closing(event: OverlayEvent, captured: bool)
    ensures
        ({
            let r = overlay_response(event);
            let closing = match event {
                OverlayEvent::EscapePressed => true,
                OverlayEvent::WindowResized => true,
                OverlayEvent::LeftReleased => true,
                OverlayEvent::Pressed { over_entries } => !over_entries,
                _ => false,
            };
            &&& closing ==> !r.show
            &&& !closing ==> r.show && r.forward
            &&& (r.show && !captured) == (!closing && !captured)
        }),
{
}

/// Two right clicks over the content bring the menu back to where it was.
pub proof fn lemma_right_click_toggles(show: bool)
    ensures
        toggle_response(toggle_response(show, true, true).show, true, true).show == show,
        toggle_response(show, true, true).show != show,
{
}

} // verus!
