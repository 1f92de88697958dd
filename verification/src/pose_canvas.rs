//! How the pose canvas answers the mouse: picking the vanishing lines and
//! their end points, moving the control point, drawing and scaling.
//!
//! Geometry stays with the caller, which tells here what the pointer is on
//! and applies the answer to the positions it keeps.
use crate::keys::{pose_key_response, Status};
use crate::model::{Component, Edit, EditAxis};
use vstd::prelude::*;

verus! {

/// The part of the pose canvas's state that its decisions depend on.
#[derive(Debug, Clone, Copy, PartialEq, Eq, Structural)]
pub struct PoseCanvasState {
    /// The editing mode.
    pub edit_state: Edit,
    /// The vanishing line picked with the right button, if any.
    pub highlight_axis_line: Option<usize>,
    /// The end point of the picked line being moved, if any.
    pub edit: Option<Component>,
    /// The drawn point chosen as the origin.
    pub selected: usize,
    /// Whether a position is captured (a click, an end point or the control
    /// point), to which a move can be undone.
    pub captured: bool,
}

/// A mouse event on the pose canvas, with what the pointer is on.
#[derive(Debug, Clone, Copy, PartialEq, Eq, Structural)]
pub enum PoseEvent {
    /// The escape key.
    Escape,
    /// The wheel turned.
    WheelScrolled,
    /// The left button went down: the first drawn point near the pointer, whether
    /// the pointer is on a drawn segment, and whether it is near the first and
    /// the second end point of the picked line.
    LeftPressed {
        point_hit: Option<usize>,
        segment_hit: bool,
        near_line_start: bool,
        near_line_end: bool,
    },
    /// The left button came up, with whether a 3D point lies under the pointer
    /// (one is looked for only while extruding or scaling).
    LeftReleased { new_point: bool },
    /// The right button went down: whether the pointer is on the control point,
    /// and the first vanishing line it is on.
    RightPressed { control_point_hit: bool, line_hit: Option<usize> },
    /// The pointer moved.
    CursorMoved,
    /// Anything else.
    Other,
}

/// What the captured position becomes.
#[derive(Debug, Clone, Copy, PartialEq, Eq, Structural)]
pub enum Capture {
    Keep,
    Click,
    LineStart,
    LineEnd,
    ControlPoint,
    Clear,
}

/// Where a moved point is put.
#[derive(Debug, Clone, Copy, PartialEq, Eq, Structural)]
pub enum Target {
    /// Back at the captured position.
    Captured,
    /// Under the pointer.
    Cursor,
    /// Under the pointer, shifted by the scroll offset along the line from the
    /// captured position to the pointer's x (`AlongX`) or y (`AlongY`), or along
    /// the pointer's own position (`Free`).
    ScrolledAlongX,
    ScrolledAlongY,
    ScrolledFree,
}

/// A change the pose canvas asks of itself.
#[derive(Debug, Clone, Copy, PartialEq, Eq, Structural)]
pub enum PoseMessage {
    /// Move the end point being edited.
    EditEndpoint(Target),
    /// Pick another vanishing line, or none.
    HighlightAxisLine(Option<usize>),
    /// Start or stop moving an end point of the picked line.
    Editline(Option<Component>),
    /// Move the control point.
    MoveControlPoint(Target),
}

/// The pose canvas's answer to an event.
#[derive(Debug, Clone, Copy, PartialEq, Eq, Structural)]
pub struct PoseResponse {
    /// The state afterwards.
    pub state: PoseCanvasState,
    /// Whether the canvas keeps the event.
    pub status: Status,
    /// The change to apply afterwards, if any.
    pub message: Option<PoseMessage>,
    /// What the captured position becomes.
    pub capture: Capture,
    /// Whether the scroll offset goes back to zero.
    pub reset_scroll: bool,
    /// A point of a vanishing line placed under the pointer, for this axis.
    pub add_vanishing_point: Option<EditAxis>,
    /// The drawn point chosen as the new origin.
    pub select_origin: Option<usize>,
    /// The drawn segment chosen for scaling.
    pub scale_segment: Option<usize>,
    /// Whether the point under the pointer is appended to the drawing.
    pub append_point: bool,
    /// Whether the point under the pointer becomes the scale reference, along this axis.
    pub set_scale: Option<EditAxis>,
}

/// Whether `c` leaves a position captured.
pub open spec fn captures(c: Capture, before: bool) -> bool {
    match c {
        Capture::Keep => before,
        Capture::Clear => false,
        _ => true,
    }
}

/// A response that changes nothing but the state and the status.
pub open spec fn plain_response(state: PoseCanvasState, status: Status) -> PoseResponse {
    PoseResponse {
        state,
        status,
        message: None,
        capture: Capture::Keep,
        reset_scroll: false,
        add_vanishing_point: None,
        select_origin: None,
        scale_segment: None,
        append_point: false,
        set_scale: None,
    }
}

/// The answer of the pose canvas in state `s` to the left button going down.
pub open spec fn left_pressed_response(
    s: PoseCanvasState,
    point_hit: Option<usize>,
    segment_hit: bool,
    near_line_start: bool,
    near_line_end: bool,
) -> PoseResponse {
    let clicked = PoseCanvasState { captured: true, ..s };
    let base = PoseResponse { capture: Capture::Click, ..plain_response(clicked, Status::Ignored) };
    match s.edit_state {
        Edit::VanishingLines(axis) => PoseResponse {
            status: Status::Captured,
            add_vanishing_point: Some(axis),
            ..base
        },
        Edit::ControlPoint(_) => PoseResponse {
            state: PoseCanvasState { edit_state: Edit::Idle, ..clicked },
            ..base
        },
        Edit::VanishingPoint(_) => PoseResponse {
            state: PoseCanvasState {
                edit_state: Edit::Idle,
                edit: None,
                captured: false,
                highlight_axis_line: None,
                ..s
            },
            capture: Capture::Clear,
            ..base
        },
        Edit::Draw => match point_hit {
            Some(index) => PoseResponse {
                state: PoseCanvasState { selected: index, ..clicked },
                status: Status::Captured,
                select_origin: Some(index),
                ..base
            },
            None => if segment_hit {
                PoseResponse { status: Status::Captured, scale_segment: Some(0), ..base }
            } else {
                base
            },
        },
        Edit::Idle => if s.edit is Some {
            PoseResponse {
                state: PoseCanvasState { captured: false, ..s },
                capture: Capture::Clear,
                message: Some(PoseMessage::Editline(None)),
                ..base
            }
        } else if s.highlight_axis_line is Some {
            if near_line_start || near_line_end {
                PoseResponse {
                    state: PoseCanvasState {
                        edit_state: Edit::VanishingPoint(EditAxis::Free),
                        ..clicked
                    },
                    capture: if near_line_start {
                        Capture::LineStart
                    } else {
                        Capture::LineEnd
                    },
                    reset_scroll: true,
                    message: Some(
                        PoseMessage::Editline(
                            Some(
                                if near_line_start {
                                    Component::A
                                } else {
                                    Component::B
                                },
                            ),
                        ),
                    ),
                    ..base
                }
            } else {
                PoseResponse {
                    state: PoseCanvasState { edit_state: Edit::Idle, captured: false, ..s },
                    status: Status::Captured,
                    capture: Capture::Clear,
                    reset_scroll: true,
                    message: Some(PoseMessage::HighlightAxisLine(None)),
                    ..base
                }
            }
        } else {
            base
        },
        _ => base,
    }
}

/// The answer of the pose canvas in state `s` to `event`.
///
/// Escape puts the end point or control point being moved back where it was
/// captured; the wheel shifts it; the left button places vanishing line
/// points, drops what is being moved, picks drawn points and segments, and
/// starts moving an end point of the picked line; releasing it appends an
/// extruded point or sets the scale reference; the right button grabs the
/// control point or picks a vanishing line; moving the pointer moves what is
/// being moved.
pub open spec fn pose_event_response(s: PoseCanvasState, event: PoseEvent) -> PoseResponse {
    match event {
        PoseEvent::Escape => match s.edit_state {
            Edit::ControlPoint(_) => PoseResponse {
                message: Some(PoseMessage::MoveControlPoint(Target::Captured)),
                ..plain_response(s, Status::Captured)
            },
            Edit::VanishingPoint(_) => PoseResponse {
                message: Some(PoseMessage::EditEndpoint(Target::Captured)),
                ..plain_response(s, Status::Captured)
            },
            _ => plain_response(s, Status::Ignored),
        },
        PoseEvent::WheelScrolled => {
            let target = match s.edit_state {
                Edit::ControlPoint(EditAxis::EditX) | Edit::VanishingPoint(
                    EditAxis::EditX,
                ) => Target::ScrolledAlongX,
                Edit::ControlPoint(EditAxis::EditY) | Edit::VanishingPoint(
                    EditAxis::EditY,
                ) => Target::ScrolledAlongY,
                _ => Target::ScrolledFree,
            };
            match s.edit_state {
                Edit::ControlPoint(_) => PoseResponse {
                    message: Some(PoseMessage::MoveControlPoint(target)),
                    ..plain_response(s, Status::Captured)
                },
                Edit::VanishingPoint(_) => PoseResponse {
                    message: Some(PoseMessage::EditEndpoint(target)),
                    ..plain_response(s, Status::Captured)
                },
                Edit::Extrude(_) | Edit::Scale(_) => plain_response(s, Status::Captured),
                _ => plain_response(s, Status::Ignored),
            }
        },
        PoseEvent::LeftPressed { point_hit, segment_hit, near_line_start, near_line_end } =>
            left_pressed_response(s, point_hit, segment_hit, near_line_start, near_line_end),
        PoseEvent::LeftReleased { new_point } => match s.edit_state {
            Edit::Extrude(_) if new_point => PoseResponse {
                append_point: true,
                ..plain_response(PoseCanvasState { edit_state: Edit::Draw, ..s }, Status::Captured)
            },
            Edit::Scale(axis) if new_point => PoseResponse {
                set_scale: Some(axis),
                ..plain_response(PoseCanvasState { edit_state: Edit::Draw, ..s }, Status::Captured)
            },
            _ => plain_response(s, Status::Ignored),
        },
        PoseEvent::RightPressed { control_point_hit, line_hit } => match s.edit_state {
            Edit::Idle | Edit::VanishingPoint(_) => if control_point_hit {
                PoseResponse {
                    capture: Capture::ControlPoint,
                    ..plain_response(
                        PoseCanvasState {
                            edit_state: Edit::ControlPoint(EditAxis::Free),
                            captured: true,
                            ..s
                        },
                        Status::Captured,
                    )
                }
            } else if line_hit is Some {
                PoseResponse {
                    message: Some(PoseMessage::HighlightAxisLine(line_hit)),
                    ..plain_response(s, Status::Captured)
                }
            } else {
                PoseResponse {
                    message: Some(PoseMessage::HighlightAxisLine(None)),
                    ..plain_response(
                        s,
                        if s.highlight_axis_line is Some {
                            Status::Captured
                        } else {
                            Status::Ignored
                        },
                    )
                }
            },
            _ => plain_response(s, Status::Ignored),
        },
        PoseEvent::CursorMoved => {
            let moved = PoseResponse { reset_scroll: true, ..plain_response(s, Status::Captured) };
            match s.edit_state {
                Edit::ControlPoint(_) => PoseResponse {
                    message: Some(PoseMessage::MoveControlPoint(Target::Cursor)),
                    ..moved
                },
                Edit::VanishingPoint(_) | Edit::Idle => PoseResponse {
                    message: Some(PoseMessage::EditEndpoint(Target::Cursor)),
                    ..moved
                },
                Edit::VanishingLines(_) | Edit::Extrude(_) | Edit::Scale(_) => moved,
                _ => PoseResponse { status: Status::Ignored, ..moved },
            }
        },
        PoseEvent::Other => plain_response(s, Status::Ignored),
    }
}

/// An edit of the vanishing lines or the control point that a message asks for.
#[derive(Debug, Clone, Copy, PartialEq, Eq, Structural)]
pub enum PoseEdit {
    /// Move end point `component` of vanishing line `line`.
    Endpoint { line: usize, component: Component, target: Target },
    /// Move the control point.
    ControlPoint(Target),
}

/// The state after message `m` and the edit it asks for: picking a line or an
/// end point changes the state; moving an end point edits the picked line when
/// an end point is being moved; moving the control point always edits it.
pub open spec fn pose_message_effect(s: PoseCanvasState, m: PoseMessage) -> (
    PoseCanvasState,
    Option<PoseEdit>,
) {
    match m {
        PoseMessage::HighlightAxisLine(h) => (PoseCanvasState { highlight_axis_line: h, ..s }, None),
        PoseMessage::Editline(c) => (PoseCanvasState { edit: c, ..s }, None),
        PoseMessage::EditEndpoint(target) => match s.edit {
            Some(component) => (
                s,
                Some(
                    PoseEdit::Endpoint {
                        line: s.highlight_axis_line->0,
                        component,
                        target,
                    },
                ),
            ),
            None => (s, None),
        },
        PoseMessage::MoveControlPoint(target) => (s, Some(PoseEdit::ControlPoint(target))),
    }
}

/// Whether message `m` can be applied in state `s`: moving an end point needs a
/// picked line.
pub open spec fn pose_message_applicable(s: PoseCanvasState, m: PoseMessage) -> bool {
    m is EditEndpoint && s.edit is Some ==> s.highlight_axis_line is Some
}

/// Applies message `m` to state `s`, as [`pose_message_effect`] says.
pub fn apply_pose_message(s: PoseCanvasState, m: PoseMessage) -> (r: (
    PoseCanvasState,
    Option<PoseEdit>,
))
    requires
        pose_message_applicable(s, m),
    ensures
        r == pose_message_effect(s, m),
{
    match m {
        PoseMessage::HighlightAxisLine(h) => (PoseCanvasState { highlight_axis_line: h, ..s }, None),
        PoseMessage::Editline(c) => (PoseCanvasState { edit: c, ..s }, None),
        PoseMessage::EditEndpoint(target) => match s.edit {
            Some(component) => {
                let line = match s.highlight_axis_line {
                    Some(line) => line,
                    None => 0,
                };
                (s, Some(PoseEdit::Endpoint { line, component, target }))
            },
            None => (s, None),
        },
        PoseMessage::MoveControlPoint(target) => (s, Some(PoseEdit::ControlPoint(target))),
    }
}

/// The pose canvas's answer to a mouse event, as [`pose_event_response`] says.
pub fn pose_event(s: PoseCanvasState, event: PoseEvent) -> (r: PoseResponse)
    ensures
        r == pose_event_response(s, event),
{
    let plain = PoseResponse {
        state: s,
        status: Status::Ignored,
        message: None,
        capture: Capture::Keep,
        reset_scroll: false,
        add_vanishing_point: None,
        select_origin: None,
        scale_segment: None,
        append_point: false,
        set_scale: None,
    };
    let captured = PoseResponse { status: Status::Captured, ..plain };
    match event {
        PoseEvent::Escape => match s.edit_state {
            Edit::ControlPoint(_) => PoseResponse {
                message: Some(PoseMessage::MoveControlPoint(Target::Captured)),
                ..captured
            },
            Edit::VanishingPoint(_) => PoseResponse {
                message: Some(PoseMessage::EditEndpoint(Target::Captured)),
                ..captured
            },
            _ => plain,
        },
        PoseEvent::WheelScrolled => {
            let target = match s.edit_state {
                Edit::ControlPoint(EditAxis::EditX) | Edit::VanishingPoint(
                    EditAxis::EditX,
                ) => Target::ScrolledAlongX,
                Edit::ControlPoint(EditAxis::EditY) | Edit::VanishingPoint(
                    EditAxis::EditY,
                ) => Target::ScrolledAlongY,
                _ => Target::ScrolledFree,
            };
            match s.edit_state {
                Edit::ControlPoint(_) => PoseResponse {
                    message: Some(PoseMessage::MoveControlPoint(target)),
                    ..captured
                },
                Edit::VanishingPoint(_) => PoseResponse {
                    message: Some(PoseMessage::EditEndpoint(target)),
                    ..captured
                },
                Edit::Extrude(_) | Edit::Scale(_) => captured,
                _ => plain,
            }
        },
        PoseEvent::LeftPressed { point_hit, segment_hit, near_line_start, near_line_end } =>
            left_pressed(s, point_hit, segment_hit, near_line_start, near_line_end),
        PoseEvent::LeftReleased { new_point } => match s.edit_state {
            Edit::Extrude(_) if new_point => PoseResponse {
                state: PoseCanvasState { edit_state: Edit::Draw, ..s },
                append_point: true,
                ..captured
            },
            Edit::Scale(axis) if new_point => PoseResponse {
                state: PoseCanvasState { edit_state: Edit::Draw, ..s },
                set_scale: Some(axis),
                ..captured
            },
            _ => plain,
        },
        PoseEvent::RightPressed { control_point_hit, line_hit } => match s.edit_state {
            Edit::Idle | Edit::VanishingPoint(_) => if control_point_hit {
                PoseResponse {
                    state: PoseCanvasState {
                        edit_state: Edit::ControlPoint(EditAxis::Free),
                        captured: true,
                        ..s
                    },
                    capture: Capture::ControlPoint,
                    ..captured
                }
            } else if line_hit.is_some() {
                PoseResponse { message: Some(PoseMessage::HighlightAxisLine(line_hit)), ..captured }
            } else {
                let status = if s.highlight_axis_line.is_some() {
                    Status::Captured
                } else {
                    Status::Ignored
                };
                PoseResponse { status, message: Some(PoseMessage::HighlightAxisLine(None)), ..plain }
            },
            _ => plain,
        },
        PoseEvent::CursorMoved => {
            let moved = PoseResponse { reset_scroll: true, ..captured };
            match s.edit_state {
                Edit::ControlPoint(_) => PoseResponse {
                    message: Some(PoseMessage::MoveControlPoint(Target::Cursor)),
                    ..moved
                },
                Edit::VanishingPoint(_) | Edit::Idle => PoseResponse {
                    message: Some(PoseMessage::EditEndpoint(Target::Cursor)),
                    ..moved
                },
                Edit::VanishingLines(_) | Edit::Extrude(_) | Edit::Scale(_) => moved,
                _ => PoseResponse { status: Status::Ignored, ..moved },
            }
        },
        PoseEvent::Other => plain,
    }
}

/// The pose canvas's answer to the left button going down, as
/// [`left_pressed_response`] says.
fn left_pressed(
    s: PoseCanvasState,
    point_hit: Option<usize>,
    segment_hit: bool,
    near_line_start: bool,
    near_line_end: bool,
) -> (r: PoseResponse)
    ensures
        r == left_pressed_response(s, point_hit, segment_hit, near_line_start, near_line_end),
{
    let clicked = PoseCanvasState { captured: true, ..s };
    let base = PoseResponse {
        state: clicked,
        status: Status::Ignored,
        message: None,
        capture: Capture::Click,
        reset_scroll: false,
        add_vanishing_point: None,
        select_origin: None,
        scale_segment: None,
        append_point: false,
        set_scale: None,
    };
    match s.edit_state {
        Edit::VanishingLines(axis) => PoseResponse {
            status: Status::Captured,
            add_vanishing_point: Some(axis),
            ..base
        },
        Edit::ControlPoint(_) => PoseResponse {
            state: PoseCanvasState { edit_state: Edit::Idle, ..clicked },
            ..base
        },
        Edit::VanishingPoint(_) => PoseResponse {
            state: PoseCanvasState {
                edit_state: Edit::Idle,
                edit: None,
                captured: false,
                highlight_axis_line: None,
                ..s
            },
            capture: Capture::Clear,
            ..base
        },
        Edit::Draw => match point_hit {
            Some(index) => PoseResponse {
                state: PoseCanvasState { selected: index, ..clicked },
                status: Status::Captured,
                select_origin: Some(index),
                ..base
            },
            None => if segment_hit {
                PoseResponse { status: Status::Captured, scale_segment: Some(0), ..base }
            } else {
                base
            },
        },
        Edit::Idle => if s.edit.is_some() {
            PoseResponse {
                state: PoseCanvasState { captured: false, ..s },
                capture: Capture::Clear,
                message: Some(PoseMessage::Editline(None)),
                ..base
            }
        } else if s.highlight_axis_line.is_some() {
            if near_line_start || near_line_end {
                let (capture, component) = if near_line_start {
                    (Capture::LineStart, Component::A)
                } else {
                    (Capture::LineEnd, Component::B)
                };
                PoseResponse {
                    state: PoseCanvasState {
                        edit_state: Edit::VanishingPoint(EditAxis::Free),
                        ..clicked
                    },
                    capture,
                    reset_scroll: true,
                    message: Some(PoseMessage::Editline(Some(component))),
                    ..base
                }
            } else {
                PoseResponse {
                    state: PoseCanvasState { edit_state: Edit::Idle, captured: false, ..s },
                    status: Status::Captured,
                    capture: Capture::Clear,
                    reset_scroll: true,
                    message: Some(PoseMessage::HighlightAxisLine(None)),
                    ..base
                }
            }
        } else {
            base
        },
        _ => base,
    }
}

/// While the control point or an end point is being moved, a position is
/// captured to which Escape moves it back.
pub open spec fn captured_when_moving(s: PoseCanvasState) -> bool {
    (s.edit_state is ControlPoint || s.edit_state is VanishingPoint) ==> s.captured
}

/// Every mouse event keeps a position captured while something is being
/// moved, and the captured flag agrees with what the response says to capture.
pub proof fn lemma_mouse_keeps_capture(s: PoseCanvasState, event: PoseEvent)
    requires
        captured_when_moving(s),
    ensures
        captured_when_moving(pose_event_response(s, event).state),
        pose_event_response(s, event).state.captured == captures(
            pose_event_response(s, event).capture,
            s.captured,
        ),
{
}

/// Every key keeps a position captured while something is being moved.
pub proof fn lemma_keys_keep_capture(s: PoseCanvasState, key: Seq<char>, drawn_points: usize)
    requires
        captured_when_moving(s),
    ensures
        captured_when_moving(
            PoseCanvasState { edit_state: pose_key_response(s.edit_state, key, drawn_points).edit, ..s },
        ),
{
}

/// Moving the pointer, scrolling and Escape never change the mode, the picked
/// line or the point being moved.
pub proof fn lemma_moves_keep_state(s: PoseCanvasState)
    ensures
        pose_event_response(s, PoseEvent::CursorMoved).state == s,
        pose_event_response(s, PoseEvent::WheelScrolled).state == s,
        pose_event_response(s, PoseEvent::Escape).state == s,
{
}

/// A left press on an end point of the picked line, with nothing else going
/// on, starts moving that end point: near its first end point the first one
/// (`Component::A`, captured as `LineStart`), else near its second end point the
/// second one (`Component::B`, captured as `LineEnd`); the canvas then moves an
/// end point. Whenever a press starts moving an end point, the end point asked
/// for is the one captured.
pub proof fn lemma_press_picks_line_end(
    s: PoseCanvasState,
    point_hit: Option<usize>,
    segment_hit: bool,
    near_line_start: bool,
    near_line_end: bool,
)
    ensures
        ({
            let r = pose_event_response(
                s,
                PoseEvent::LeftPressed { point_hit, segment_hit, near_line_start, near_line_end },
            );
            &&& (s.edit_state == Edit::Idle && s.edit is None && s.highlight_axis_line is Some
                && near_line_start) ==> r.message == Some(PoseMessage::Editline(Some(Component::A)))
                && r.capture == Capture::LineStart && r.state.edit_state is VanishingPoint
            &&& (s.edit_state == Edit::Idle && s.edit is None && s.highlight_axis_line is Some
                && !near_line_start && near_line_end) ==> r.message == Some(
                PoseMessage::Editline(Some(Component::B)),
            ) && r.capture == Capture::LineEnd && r.state.edit_state is VanishingPoint
            &&& r.message == Some(PoseMessage::Editline(Some(Component::A))) <==> r.capture
                == Capture::LineStart
            &&& r.message == Some(PoseMessage::Editline(Some(Component::B))) <==> r.capture
                == Capture::LineEnd
        }),
{
}

/// Releasing the left button with a 3D point under the pointer uses that point
/// the way the mode says: while extruding it is appended to the drawing, while
/// scaling it becomes the scale reference along the mode's axis; either way the
/// canvas goes back to drawing. In every other case a release changes nothing.
pub proof fn lemma_release_uses_point(s: PoseCanvasState, new_point: bool)
    ensures
        ({
            let r = pose_event_response(s, PoseEvent::LeftReleased { new_point });
            &&& r.append_point <==> (new_point && s.edit_state is Extrude)
            &&& r.set_scale == (match s.edit_state {
                Edit::Scale(axis) => if new_point {
                    Some(axis)
                } else {
                    None
                },
                _ => None,
            })
            &&& (new_point && (s.edit_state is Extrude || s.edit_state is Scale)) ==> r.state
                == PoseCanvasState { edit_state: Edit::Draw, ..s } && r.status == Status::Captured
            &&& !(new_point && (s.edit_state is Extrude || s.edit_state is Scale)) ==> r.state == s
                && r.status == Status::Ignored
        }),
{
}

/// A right press, idle or while moving an end point, grabs the control point
/// when it is under the pointer (capturing it), else picks the vanishing line
/// under the pointer, else drops the picked line; in the other modes it does
/// nothing.
pub proof fn lemma_right_press_picks(s: PoseCanvasState, control_point_hit: bool, line_hit: Option<usize>)
    ensures
        ({
            let r = pose_event_response(s, PoseEvent::RightPressed { control_point_hit, line_hit });
            let active = s.edit_state == Edit::Idle || s.edit_state is VanishingPoint;
            &&& (active && control_point_hit) ==> r.state.edit_state == Edit::ControlPoint(
                EditAxis::Free,
            ) && r.capture == Capture::ControlPoint && r.state.captured && r.message is None
            &&& (active && !control_point_hit) ==> r.message == Some(
                PoseMessage::HighlightAxisLine(line_hit),
            ) && r.state == s
            &&& !active ==> r == plain_response(s, Status::Ignored)
        }),
{
}

} // verus!
