use perspective::context_menu::{after_entries, overlay_event, toggle, OverlayEvent, OverlayResponse, ToggleResponse};

#[test]
fn overlay_closes_on_escape_resize_and_outside_press() {
    let closed = OverlayResponse { show: false, forward: false };
    assert_eq!(overlay_event(OverlayEvent::EscapePressed), closed);
    assert_eq!(overlay_event(OverlayEvent::WindowResized), closed);
    assert_eq!(overlay_event(OverlayEvent::Pressed { over_entries: false }), closed);
}

#[test]
fn overlay_forwards_other_events() {
    let open = OverlayResponse { show: true, forward: true };
    assert_eq!(overlay_event(OverlayEvent::Pressed { over_entries: true }), open);
    assert_eq!(overlay_event(OverlayEvent::KeyPressed), open);
    assert_eq!(overlay_event(OverlayEvent::Other), open);
    assert_eq!(overlay_event(OverlayEvent::LeftReleased), OverlayResponse { show: false, forward: true });
}

#[test]
fn entry_taking_event_closes_menu() {
    assert!(!after_entries(true, true));
    assert!(after_entries(true, false));
    assert!(!after_entries(false, false));
}

#[test]
fn right_click_toggles_menu() {
    let opened = toggle(false, false, true, true);
    assert_eq!(opened, ToggleResponse { show: true, capture: true });
    assert_eq!(toggle(opened.show, false, true, true), ToggleResponse { show: false, capture: true });
    assert_eq!(toggle(false, false, true, false), ToggleResponse { show: false, capture: false });
    assert_eq!(toggle(true, true, true, true), ToggleResponse { show: true, capture: false });
    assert_eq!(toggle(true, false, false, true), ToggleResponse { show: true, capture: false });
}
