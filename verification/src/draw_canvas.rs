//! How the drawing canvas answers the mouse: choosing the origin, the scale
//! segment and the point an error is measured from, and placing new points.
use crate::model::{Edit, EditAxis};
use vstd::prelude::*;

verus! {

/// The part of the drawing canvas's state that its decisions depend on.
#[derive(Debug, Clone, Copy, PartialEq, Eq, Structural)]
pub struct DrawCanvasState {
    /// The editing mode.
    pub edit_state: Edit,
    /// The drawn point chosen as the origin.
    pub selected: usize,
    /// The drawn point an error is measured from, if any.
    pub selected_error: Option<usize>,
}

/// A mouse event on the drawing canvas, with what the pointer is on.
#[derive(Debug, Clone, Copy, PartialEq, Eq, Structural)]
pub enum DrawEvent {
    /// The right button came up.
    RightReleased,
    /// The left button went down: the first drawn point near the pointer and
    /// the last drawn segment the pointer is on.
    LeftPressed { point_hit: Option<usize>, last_segment_hit: Option<usize> },
    /// The left button came up, with whether a 3D point lies under the pointer
    /// (one is looked for only while extruding, scaling or marking an error).
    LeftReleased { new_point: bool },
    /// The pointer moved.
    CursorMoved,
    /// Anything else.
    Other,
}

/// The drawing canvas's answer to an event.
#[derive(Debug, Clone, Copy, PartialEq, Eq, Structural)]
pub struct DrawResponse {
    /// The state afterwards.
    pub state: DrawCanvasState,
    /// The drawn point chosen as the new origin.
    pub select_origin: Option<usize>,
    /// The drawn segment chosen for scaling.
    pub scale_segment: Option<usize>,
    /// The drawn point chosen to measure an error from.
    pub select_error: Option<usize>,
    /// Whether the point under the pointer is appended to the drawing.
    pub append_point: bool,
    /// Whether the point under the pointer becomes the scale reference, along this axis.
    pub set_scale: Option<EditAxis>,
    /// Whether the point under the pointer becomes the error mark, along this axis.
    pub set_error: Option<EditAxis>,
    /// Whether the canvas is drawn anew.
    pub redraw: bool,
}

/// A response that changes nothing but the state.
pub open spec fn quiet_response(state: DrawCanvasState) -> DrawResponse {
    DrawResponse {
        state,
        select_origin: None,
        scale_segment: None,
        select_error: None,
        append_point: false,
        set_scale: None,
        set_error: None,
        redraw: false,
    }
}

/// The answer of the drawing canvas in state `s` to `event`. The canvas never
/// keeps events for itself.
///
/// Releasing the right button goes back to drawing. While drawing, the left
/// button picks the origin among the drawn points or, off them, the scale
/// segment; while marking an error it picks the point to measure from.
/// Releasing it while extruding, scaling or marking an error uses the point
/// under the pointer and goes back to drawing. Moving the pointer redraws the
/// preview in those three modes.
pub open spec fn draw_event_response(s: DrawCanvasState, event: DrawEvent) -> DrawResponse {
    match event {
        DrawEvent::RightReleased => quiet_response(DrawCanvasState { edit_state: Edit::Draw, ..s }),
        DrawEvent::LeftPressed { point_hit, last_segment_hit } => match (s.edit_state, point_hit) {
            (Edit::Draw, Some(i)) => DrawResponse {
                select_origin: Some(i),
                redraw: true,
                ..quiet_response(DrawCanvasState { selected: i, ..s })
            },
            (Edit::Draw, None) => DrawResponse {
                scale_segment: last_segment_hit,
                redraw: last_segment_hit is Some,
                ..quiet_response(s)
            },
            (Edit::MarkError(_), Some(i)) => DrawResponse {
                select_error: Some(i),
                redraw: true,
                ..quiet_response(DrawCanvasState { selected_error: Some(i), ..s })
            },
            _ => quiet_response(s),
        },
        DrawEvent::LeftReleased { new_point } => {
            let drawing = DrawCanvasState { edit_state: Edit::Draw, ..s };
            match s.edit_state {
                Edit::Extrude(_) if new_point => DrawResponse {
                    append_point: true,
                    redraw: true,
                    ..quiet_response(drawing)
                },
                Edit::Scale(axis) if new_point => DrawResponse {
                    set_scale: Some(axis),
                    redraw: true,
                    ..quiet_response(drawing)
                },
                Edit::MarkError(axis) if new_point => DrawResponse {
                    set_error: Some(axis),
                    redraw: true,
                    ..quiet_response(drawing)
                },
                _ => quiet_response(s),
            }
        },
        DrawEvent::CursorMoved => DrawResponse {
            redraw: s.edit_state is Extrude || s.edit_state is Scale || s.edit_state is MarkError,
            ..quiet_response(s)
        },
        DrawEvent::Other => quiet_response(s),
    }
}

/// The drawing canvas's answer to a mouse event, as [`draw_event_response`] says.
pub fn draw_event(s: DrawCanvasState, event: DrawEvent) -> (r: DrawResponse)
    ensures
        r == draw_event_response(s, event),
{
    let quiet = DrawResponse {
        state: s,
        select_origin: None,
        scale_segment: None,
        select_error: None,
        append_point: false,
        set_scale: None,
        set_error: None,
        redraw: false,
    };
    match event {
        DrawEvent::RightReleased => DrawResponse {
            state: DrawCanvasState { edit_state: Edit::Draw, ..s },
            ..quiet
        },
        DrawEvent::LeftPressed { point_hit, last_segment_hit } => match (s.edit_state, point_hit) {
            (Edit::Draw, Some(i)) => DrawResponse {
                state: DrawCanvasState { selected: i, ..s },
                select_origin: Some(i),
                redraw: true,
                ..quiet
            },
            (Edit::Draw, None) => DrawResponse {
                scale_segment: last_segment_hit,
                redraw: last_segment_hit.is_some(),
                ..quiet
            },
            (Edit::MarkError(_), Some(i)) => DrawResponse {
                state: DrawCanvasState { selected_error: Some(i), ..s },
                select_error: Some(i),
                redraw: true,
                ..quiet
            },
            _ => quiet,
        },
        DrawEvent::LeftReleased { new_point } => {
            let drawing = DrawCanvasState { edit_state: Edit::Draw, ..s };
            match s.edit_state {
                Edit::Extrude(_) if new_point => DrawResponse {
                    state: drawing,
                    append_point: true,
                    redraw: true,
                    ..quiet
                },
                Edit::Scale(axis) if new_point => DrawResponse {
                    state: drawing,
                    set_scale: Some(axis),
                    redraw: true,
                    ..quiet
                },
                Edit::MarkError(axis) if new_point => DrawResponse {
                    state: drawing,
                    set_error: Some(axis),
                    redraw: true,
                    ..quiet
                },
                _ => quiet,
            }
        },
        DrawEvent::CursorMoved => {
            let redraw = match s.edit_state {
                Edit::Extrude(_) | Edit::Scale(_) | Edit::MarkError(_) => true,
                _ => false,
            };
            DrawResponse { redraw, ..quiet }
        },
        DrawEvent::Other => quiet,
    }
}

/// Every use of a point under the pointer ends the gesture: the drawing canvas
/// is back to drawing after appending a point, setting the scale or marking an
/// error.
pub proof fn lemma_release_returns_to_drawing(s: DrawCanvasState, new_point: bool)
    ensures
        ({
            let r = draw_event_response(s, DrawEvent::LeftReleased { new_point });
            (r.append_point || r.set_scale is Some || r.set_error is Some) ==> r.state.edit_state
                == Edit::Draw
        }),
{
}

/// Releasing the left button with a 3D point under the pointer uses that point
/// the way the mode says: while extruding it is appended to the drawing, while
/// scaling it becomes the scale reference and while marking an error the error
/// mark, along the mode's axis; the canvas then goes back to drawing and is
/// drawn anew. In every other case a release changes nothing.
pub proof fn lemma_release_uses_point(s: DrawCanvasState, new_point: bool)
    ensures
        ({
            let r = draw_event_response(s, DrawEvent::LeftReleased { new_point });
            let used = new_point && (s.edit_state is Extrude || s.edit_state is Scale
                || s.edit_state is MarkError);
            &&& r.append_point <==> (new_point && s.edit_state is Extrude)
            &&& r.set_scale == (match s.edit_state {
                Edit::Scale(axis) => if new_point {
                    Some(axis)
                } else {
                    None
                },
                _ => None,
            })
            &&& r.set_error == (match s.edit_state {
                Edit::MarkError(axis) => if new_point {
                    Some(axis)
                } else {
                    None
                },
                _ => None,
            })
            &&& used ==> r.state == DrawCanvasState { edit_state: Edit::Draw, ..s } && r.redraw
            &&& !used ==> r.state == s && !r.redraw
            &&& r.select_origin is None && r.scale_segment is None && r.select_error is None
        }),
{
}

} // verus!
