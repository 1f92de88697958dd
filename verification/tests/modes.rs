use perspective::editor::{EditorComponent, Message};
use perspective::keys::{draw_key_pressed, pose_key_pressed, ui_mode_for_key, Status, UiMod};
use perspective::model::{CalibrationSettingsBase, Edit, EditAxis, PerspectiveState};

#[test]
fn defaults() {
    assert_eq!(Edit::default(), Edit::Twist);
    assert_eq!(EditAxis::default(), EditAxis::Free);
    assert_eq!(PerspectiveState::default().edit, Edit::Twist);
    let unit = CalibrationSettingsBase { reference_distance_unit: "Meters".to_string() };
    assert_eq!(unit.clone().reference_distance_unit, "Meters");
}

#[test]
fn pose_w_toggles_vanishing_lines() {
    let r = pose_key_pressed(Edit::Idle, "w", 3);
    assert_eq!(r.edit, Edit::VanishingLines(EditAxis::Free));
    assert_eq!(r.status, Status::Captured);
    assert!(r.redraw_vanishing_lines);
    let r = pose_key_pressed(r.edit, "w", 3);
    assert_eq!(r.edit, Edit::Idle);
}

#[test]
fn pose_f_toggles_drawing() {
    assert_eq!(pose_key_pressed(Edit::Draw, "f", 1).edit, Edit::Idle);
    assert_eq!(pose_key_pressed(Edit::Scale(EditAxis::EditX), "f", 1).edit, Edit::Draw);
}

#[test]
fn pose_axis_keys() {
    let r = pose_key_pressed(Edit::ControlPoint(EditAxis::Free), "r", 1);
    assert_eq!(r.edit, Edit::ControlPoint(EditAxis::EditX));
    assert!(r.reset_scroll);
    let r = pose_key_pressed(Edit::VanishingPoint(EditAxis::EditX), "s", 1);
    assert_eq!(r.edit, Edit::VanishingPoint(EditAxis::EditY));
    let r = pose_key_pressed(Edit::VanishingPoint(EditAxis::EditX), "t", 1);
    assert_eq!(r.edit, Edit::VanishingPoint(EditAxis::EditX));
    assert!(!r.reset_scroll);
    let r = pose_key_pressed(Edit::VanishingLines(EditAxis::Free), "t", 1);
    assert_eq!(r.edit, Edit::VanishingLines(EditAxis::EditZ));
    assert!(r.redraw && r.redraw_vanishing_lines && r.reset_scroll);
    assert_eq!(pose_key_pressed(Edit::Extrude(EditAxis::Free), "t", 1).edit, Edit::Extrude(EditAxis::EditZ));
    assert_eq!(pose_key_pressed(Edit::Idle, "r", 1).edit, Edit::Idle);
    assert_eq!(pose_key_pressed(Edit::Idle, "r", 1).status, Status::Captured);
}

#[test]
fn pose_other_keys() {
    assert_eq!(pose_key_pressed(Edit::Draw, "x", 1).edit, Edit::Scale(EditAxis::Free));
    assert_eq!(pose_key_pressed(Edit::Draw, "c", 1).edit, Edit::Extrude(EditAxis::Free));
    let r = pose_key_pressed(Edit::Idle, "d", 2);
    assert_eq!(r.edit, Edit::Draw);
    assert!(r.remove_last_point);
    assert!(!pose_key_pressed(Edit::Idle, "d", 1).remove_last_point);
    let r = pose_key_pressed(Edit::Scale(EditAxis::EditY), "q", 2);
    assert_eq!(r.edit, Edit::Scale(EditAxis::EditY));
    assert_eq!(r.status, Status::Ignored);
    assert_eq!(pose_key_pressed(Edit::Idle, "ww", 2).status, Status::Ignored);
}

#[test]
fn draw_keys() {
    let r = draw_key_pressed(Edit::Draw, "q", 2);
    assert_eq!(r.edit, Edit::MarkError(EditAxis::Free));
    assert_eq!(r.status, Status::Ignored);
    assert!(r.redraw);
    assert_eq!(draw_key_pressed(r.edit, "s", 2).edit, Edit::MarkError(EditAxis::EditY));
    assert_eq!(draw_key_pressed(Edit::Draw, "t", 2).edit, Edit::Draw);
    assert_eq!(draw_key_pressed(Edit::Extrude(EditAxis::Free), "z", 2).edit, Edit::Draw);
    assert!(draw_key_pressed(Edit::Draw, "d", 3).remove_last_point);
    assert!(!draw_key_pressed(Edit::Draw, "d", 1).remove_last_point);
    assert_eq!(draw_key_pressed(Edit::Draw, "x", 1).edit, Edit::Scale(EditAxis::Free));
    assert_eq!(draw_key_pressed(Edit::Draw, "c", 1).edit, Edit::Extrude(EditAxis::Free));
}

#[test]
fn window_mode_keys() {
    assert_eq!(ui_mode_for_key("'"), Some(UiMod::Twist));
    assert_eq!(ui_mode_for_key("y"), Some(UiMod::Pose));
    assert_eq!(ui_mode_for_key("x"), None);
}

#[test]
fn editor_stores_edited_field() {
    let mut e = EditorComponent::with_values("Point #1", "1.00".to_string(), "2.00".to_string(), "0.0".to_string());
    assert!(e.handle_update(2, "5.5".to_string()));
    assert_eq!(e.value_x(), "1.00");
    assert_eq!(e.value_y(), "5.5");
    assert_eq!(e.value_z(), "0.0");
    assert!(e.update(Message::InternalEdit(3, "abc".to_string())));
    assert_eq!(e.value_z(), "abc");
    assert!(!e.handle_update(4, "9".to_string()));
    assert_eq!(e.value_x(), "1.00");
    assert_eq!(e.label(), "Point #1");
}
