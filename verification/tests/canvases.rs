use perspective::draw_canvas::{draw_event, DrawCanvasState, DrawEvent};
use perspective::hits::{first_hit_index, last_hit_index};
use perspective::keys::Status;
use perspective::model::{Component, Edit, EditAxis};
use perspective::pose_canvas::{
    apply_pose_message, pose_event, Capture, PoseCanvasState, PoseEdit, PoseEvent, PoseMessage, Target,
};
use perspective::twist_canvas::{twist_event, TwistEvent};

fn pose(edit_state: Edit) -> PoseCanvasState {
    PoseCanvasState { edit_state, highlight_axis_line: None, edit: None, selected: 0, captured: false }
}

#[test]
fn pose_right_click_grabs_control_point() {
    let r = pose_event(pose(Edit::Idle), PoseEvent::RightPressed { control_point_hit: true, line_hit: Some(2) });
    assert_eq!(r.state.edit_state, Edit::ControlPoint(EditAxis::Free));
    assert!(r.state.captured);
    assert_eq!(r.capture, Capture::ControlPoint);
    assert_eq!(r.status, Status::Captured);
    assert_eq!(r.message, None);
}

#[test]
fn pose_right_click_picks_line() {
    let r = pose_event(pose(Edit::Idle), PoseEvent::RightPressed { control_point_hit: false, line_hit: Some(2) });
    assert_eq!(r.message, Some(PoseMessage::HighlightAxisLine(Some(2))));
    let (state, edit) = apply_pose_message(r.state, r.message.unwrap());
    assert_eq!(state.highlight_axis_line, Some(2));
    assert_eq!(edit, None);
    let r = pose_event(state, PoseEvent::RightPressed { control_point_hit: false, line_hit: None });
    assert_eq!(r.status, Status::Captured);
    assert_eq!(r.message, Some(PoseMessage::HighlightAxisLine(None)));
    let r = pose_event(pose(Edit::Idle), PoseEvent::RightPressed { control_point_hit: false, line_hit: None });
    assert_eq!(r.status, Status::Ignored);
    let r = pose_event(pose(Edit::Draw), PoseEvent::RightPressed { control_point_hit: true, line_hit: None });
    assert_eq!(r.status, Status::Ignored);
    assert_eq!(r.state, pose(Edit::Draw));
}

#[test]
fn pose_left_click_starts_and_ends_endpoint_move() {
    let picked = PoseCanvasState { highlight_axis_line: Some(3), ..pose(Edit::Idle) };
    let r = pose_event(
        picked,
        PoseEvent::LeftPressed { point_hit: None, segment_hit: false, near_line_start: false, near_line_end: true },
    );
    assert_eq!(r.state.edit_state, Edit::VanishingPoint(EditAxis::Free));
    assert_eq!(r.capture, Capture::LineEnd);
    assert_eq!(r.status, Status::Ignored);
    assert!(r.reset_scroll);
    assert_eq!(r.message, Some(PoseMessage::Editline(Some(Component::B))));
    let (state, _) = apply_pose_message(r.state, r.message.unwrap());
    assert_eq!(state.edit, Some(Component::B));
    let r = pose_event(state, PoseEvent::CursorMoved);
    assert_eq!(r.message, Some(PoseMessage::EditEndpoint(Target::Cursor)));
    let (_, edit) = apply_pose_message(r.state, r.message.unwrap());
    assert_eq!(edit, Some(PoseEdit::Endpoint { line: 3, component: Component::B, target: Target::Cursor }));
    let r = pose_event(state, PoseEvent::Escape);
    assert_eq!(r.message, Some(PoseMessage::EditEndpoint(Target::Captured)));
    let r = pose_event(
        state,
        PoseEvent::LeftPressed { point_hit: None, segment_hit: false, near_line_start: false, near_line_end: false },
    );
    assert_eq!(r.state.edit_state, Edit::Idle);
    assert_eq!(r.state.edit, None);
    assert_eq!(r.state.highlight_axis_line, None);
    assert!(!r.state.captured);
}

#[test]
fn pose_left_click_misses_line() {
    let picked = PoseCanvasState { highlight_axis_line: Some(1), ..pose(Edit::Idle) };
    let r = pose_event(
        picked,
        PoseEvent::LeftPressed { point_hit: None, segment_hit: false, near_line_start: false, near_line_end: false },
    );
    assert_eq!(r.status, Status::Captured);
    assert_eq!(r.message, Some(PoseMessage::HighlightAxisLine(None)));
    assert_eq!(r.capture, Capture::Clear);
}

#[test]
fn pose_wheel_moves_along_axis() {
    let s = PoseCanvasState { captured: true, ..pose(Edit::ControlPoint(EditAxis::EditY)) };
    let r = pose_event(s, PoseEvent::WheelScrolled);
    assert_eq!(r.message, Some(PoseMessage::MoveControlPoint(Target::ScrolledAlongY)));
    let (_, edit) = apply_pose_message(r.state, r.message.unwrap());
    assert_eq!(edit, Some(PoseEdit::ControlPoint(Target::ScrolledAlongY)));
    let r = pose_event(pose(Edit::Extrude(EditAxis::EditX)), PoseEvent::WheelScrolled);
    assert_eq!(r.status, Status::Captured);
    assert_eq!(r.message, None);
    assert_eq!(pose_event(pose(Edit::Draw), PoseEvent::WheelScrolled).status, Status::Ignored);
}

#[test]
fn pose_drawing_gestures() {
    let r = pose_event(
        pose(Edit::Draw),
        PoseEvent::LeftPressed { point_hit: Some(4), segment_hit: true, near_line_start: false, near_line_end: false },
    );
    assert_eq!(r.state.selected, 4);
    assert_eq!(r.select_origin, Some(4));
    assert_eq!(r.scale_segment, None);
    let r = pose_event(
        pose(Edit::Draw),
        PoseEvent::LeftPressed { point_hit: None, segment_hit: true, near_line_start: false, near_line_end: false },
    );
    assert_eq!(r.scale_segment, Some(0));
    let r = pose_event(
        pose(Edit::VanishingLines(EditAxis::EditZ)),
        PoseEvent::LeftPressed { point_hit: None, segment_hit: false, near_line_start: false, near_line_end: false },
    );
    assert_eq!(r.add_vanishing_point, Some(EditAxis::EditZ));
    let r = pose_event(pose(Edit::Extrude(EditAxis::Free)), PoseEvent::LeftReleased { new_point: true });
    assert!(r.append_point);
    assert_eq!(r.state.edit_state, Edit::Draw);
    let r = pose_event(pose(Edit::Scale(EditAxis::EditX)), PoseEvent::LeftReleased { new_point: true });
    assert_eq!(r.set_scale, Some(EditAxis::EditX));
    let r = pose_event(pose(Edit::Scale(EditAxis::EditX)), PoseEvent::LeftReleased { new_point: false });
    assert_eq!(r.status, Status::Ignored);
    assert_eq!(r.state.edit_state, Edit::Scale(EditAxis::EditX));
}

#[test]
fn pose_cursor_moves() {
    assert_eq!(
        pose_event(pose(Edit::Idle), PoseEvent::CursorMoved).message,
        Some(PoseMessage::EditEndpoint(Target::Cursor))
    );
    let (_, edit) = apply_pose_message(pose(Edit::Idle), PoseMessage::EditEndpoint(Target::Cursor));
    assert_eq!(edit, None);
    assert_eq!(pose_event(pose(Edit::Twist), PoseEvent::CursorMoved).status, Status::Ignored);
    assert!(pose_event(pose(Edit::Twist), PoseEvent::CursorMoved).reset_scroll);
}

#[test]
fn draw_canvas_gestures() {
    let s = DrawCanvasState { edit_state: Edit::Draw, selected: 0, selected_error: None };
    let r = draw_event(s, DrawEvent::LeftPressed { point_hit: Some(2), last_segment_hit: Some(1) });
    assert_eq!(r.state.selected, 2);
    assert_eq!(r.select_origin, Some(2));
    let r = draw_event(s, DrawEvent::LeftPressed { point_hit: None, last_segment_hit: Some(1) });
    assert_eq!(r.scale_segment, Some(1));
    let m = DrawCanvasState { edit_state: Edit::MarkError(EditAxis::EditX), ..s };
    let r = draw_event(m, DrawEvent::LeftPressed { point_hit: Some(3), last_segment_hit: None });
    assert_eq!(r.state.selected_error, Some(3));
    let r = draw_event(m, DrawEvent::LeftReleased { new_point: true });
    assert_eq!(r.set_error, Some(EditAxis::EditX));
    assert_eq!(r.state.edit_state, Edit::Draw);
    let r = draw_event(m, DrawEvent::RightReleased);
    assert_eq!(r.state.edit_state, Edit::Draw);
    assert!(draw_event(m, DrawEvent::CursorMoved).redraw);
    assert!(!draw_event(s, DrawEvent::CursorMoved).redraw);
}

#[test]
fn twist_drag() {
    let r = twist_event(None, TwistEvent::LeftPressed { last_point_hit: Some(1) });
    assert_eq!(r.selected, Some(1));
    assert!(r.capture_click);
    let r = twist_event(r.selected, TwistEvent::CursorMoved);
    assert_eq!(r.move_point, Some(1));
    assert_eq!(r.status, Status::Captured);
    let r = twist_event(r.selected, TwistEvent::LeftReleased);
    assert_eq!(r.selected, None);
    assert_eq!(twist_event(None, TwistEvent::CursorMoved).status, Status::Ignored);
    assert_eq!(twist_event(Some(2), TwistEvent::LeftPressed { last_point_hit: None }).selected, Some(2));
}

#[test]
fn hit_lists() {
    assert_eq!(first_hit_index(&[false, true, true]), Some(1));
    assert_eq!(last_hit_index(&[false, true, true]), Some(2));
    assert_eq!(first_hit_index(&[false, false]), None);
    assert_eq!(last_hit_index(&[]), None);
}
