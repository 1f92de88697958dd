//! How the twist canvas lets the user drag the image points of the three
//! reference points.
use crate::keys::Status;
use vstd::prelude::*;

verus! {

/// A mouse event on the twist canvas.
#[derive(Debug, Clone, Copy, PartialEq, Eq, Structural)]
pub enum TwistEvent {
    /// The left button went down, with the last reference point near the pointer.
    LeftPressed { last_point_hit: Option<usize> },
    /// The left button came up.
    LeftReleased,
    /// The pointer moved.
    CursorMoved,
    /// Anything else.
    Other,
}

/// The twist canvas's answer to an event.
#[derive(Debug, Clone, Copy, PartialEq, Eq, Structural)]
pub struct TwistResponse {
    /// The reference point being dragged afterwards.
    pub selected: Option<usize>,
    /// Whether the canvas keeps the event.
    pub status: Status,
    /// Whether the position clicked is captured.
    pub capture_click: bool,
    /// The reference point moved under the pointer.
    pub move_point: Option<usize>,
    /// Whether the reference points are drawn anew.
    pub redraw: bool,
}

/// The answer of the twist canvas, dragging `selected`, to `event`: pressing
/// the button on a reference point starts dragging it (the last one near the
/// pointer), releasing it stops, and moving the pointer moves the point being
/// dragged.
pub open spec fn twist_event_response(selected: Option<usize>, event: TwistEvent) -> TwistResponse {
    let quiet = TwistResponse {
        selected,
        status: Status::Ignored,
        capture_click: false,
        move_point: None,
        redraw: false,
    };
    match event {
        TwistEvent::LeftPressed { last_point_hit } => TwistResponse {
            selected: if last_point_hit is Some {
                last_point_hit
            } else {
                selected
            },
            status: Status::Captured,
            capture_click: true,
            ..quiet
        },
        TwistEvent::LeftReleased => TwistResponse {
            selected: None,
            status: Status::Captured,
            redraw: true,
            ..quiet
        },
        TwistEvent::CursorMoved => if selected is Some {
            TwistResponse { status: Status::Captured, move_point: selected, redraw: true, ..quiet }
        } else {
            quiet
        },
        TwistEvent::Other => quiet,
    }
}

/// The twist canvas's answer to a mouse event, as [`twist_event_response`] says.
pub fn twist_event(selected: Option<usize>, event: TwistEvent) -> (r: TwistResponse)
    ensures
        r == twist_event_response(selected, event),
{
    let quiet = TwistResponse {
        selected,
        status: Status::Ignored,
        capture_click: false,
        move_point: None,
        redraw: false,
    };
    match event {
        TwistEvent::LeftPressed { last_point_hit } => TwistResponse {
            selected: if last_point_hit.is_some() {
                last_point_hit
            } else {
                selected
            },
            status: Status::Captured,
            capture_click: true,
            ..quiet
        },
        TwistEvent::LeftReleased => TwistResponse {
            selected: None,
            status: Status::Captured,
            redraw: true,
            ..quiet
        },
        TwistEvent::CursorMoved => if selected.is_some() {
            TwistResponse { status: Status::Captured, move_point: selected, redraw: true, ..quiet }
        } else {
            quiet
        },
        TwistEvent::Other => quiet,
    }
}

/// A drag moves only the point it started on, and ends with the button.
pub proof fn lemma_drag_moves_selected_point(selected: Option<usize>, hit: usize)
    ensures
        twist_event_response(
            twist_event_response(selected, TwistEvent::LeftPressed { last_point_hit: Some(hit) }).selected,
            TwistEvent::CursorMoved,
        ).move_point == Some(hit),
        twist_event_response(selected, TwistEvent::LeftReleased).selected is None,
{
}

} // verus!
