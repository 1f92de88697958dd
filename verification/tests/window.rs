use perspective::editor::Message as FieldEdit;
use perspective::keys::UiMod;
use perspective::window::{
    context_menu, open_window, respond, ImageFacts, LineAxes, Message, WindowFacts, Work,
};

fn image(axis_data: bool) -> ImageFacts {
    ImageFacts {
        axis_data,
        solution: false,
        picked_translation: false,
        picked_scale: false,
        picked_scale_segment: None,
        drawn_points: 1,
        dimension: false,
    }
}

fn window(mode: UiMod, image: Option<ImageFacts>) -> WindowFacts {
    WindowFacts { mode, images: 2, image }
}

#[test]
fn window_opens_on_first_image_in_twist_mode() {
    let (facts, work) = open_window(3, true);
    assert_eq!(facts.mode, UiMod::Twist);
    assert_eq!(facts.images, 3);
    let shown = facts.image.unwrap();
    assert!(!shown.axis_data && !shown.solution && shown.dimension);
    assert_eq!(shown.drawn_points, 1);
    assert_eq!(work, vec![Work::ReadImage { with_drawing: true }]);
    assert_eq!(UiMod::default(), UiMod::Twist);
}

#[test]
fn window_opens_empty_without_images() {
    let (facts, work) = open_window(0, false);
    assert_eq!(facts.image, None);
    assert!(work.is_empty());
    assert!(respond(facts, Message::NoImage).is_empty());
    assert_eq!(respond(facts, Message::LoadImage), vec![Work::PickImage]);
}

#[test]
fn loading_computes_pose_of_mode() {
    let twist = window(UiMod::Twist, Some(image(false)));
    assert_eq!(
        respond(twist, Message::LoadApplicationState { points_found: true }),
        vec![Work::TakeLoadedState { points_found: true }, Work::ComputeTwistPose]
    );
    let pose = window(UiMod::Pose, Some(image(false)));
    assert_eq!(
        respond(pose, Message::LoadApplicationState { points_found: false }),
        vec![Work::TakeLoadedState { points_found: false }, Work::ComputeVanishingPointPose]
    );
}

#[test]
fn mode_change_recomputes_pose() {
    let with_lines = window(UiMod::Twist, Some(image(true)));
    assert_eq!(
        respond(with_lines, Message::ChangeMode(UiMod::Pose)),
        vec![Work::SetMode(UiMod::Pose), Work::ComputeVanishingPointPose]
    );
    let without_lines = window(UiMod::Twist, Some(image(false)));
    assert_eq!(
        respond(without_lines, Message::ChangeMode(UiMod::Pose)),
        vec![Work::SetMode(UiMod::Pose)]
    );
    assert_eq!(
        respond(without_lines, Message::ChangeMode(UiMod::Twist)),
        vec![Work::SetMode(UiMod::Twist), Work::ComputeTwistPose]
    );
}

#[test]
fn switching_images_saves_lines_first() {
    let with_lines = window(UiMod::Pose, Some(image(true)));
    assert_eq!(
        respond(with_lines, Message::SelectImage(1)),
        vec![Work::WritePoints, Work::ShowImage(1), Work::ReadImage { with_drawing: false }]
    );
    let without_lines = window(UiMod::Pose, Some(image(false)));
    assert_eq!(
        respond(without_lines, Message::SelectImage(0)),
        vec![Work::ShowImage(0), Work::ReadImage { with_drawing: false }]
    );
}

#[test]
fn line_messages_need_lines() {
    let without_lines = window(UiMod::Pose, Some(image(false)));
    for message in [
        Message::Save,
        Message::Flip(true, false, false),
        Message::ResetScale,
        Message::ResetTranslation,
        Message::Optimize,
        Message::OptimizeX,
        Message::OptimizeY,
        Message::LinesOptimized(true),
        Message::CalculatePoseUsingVanishingPoint,
    ] {
        assert!(respond(without_lines, message).is_empty());
    }
    let with_lines = window(UiMod::Pose, Some(image(true)));
    assert_eq!(
        respond(with_lines, Message::Flip(true, false, true)),
        vec![Work::SetFlip(true, false, true), Work::ComputeVanishingPointPose]
    );
    assert_eq!(respond(with_lines, Message::Save), vec![Work::WritePoints]);
    assert_eq!(
        respond(with_lines, Message::OptimizeY),
        vec![Work::OptimizeLines(LineAxes::Y)]
    );
    assert_eq!(
        respond(with_lines, Message::LinesOptimized(true)),
        vec![Work::TakeOptimizedLines, Work::ComputeVanishingPointPose]
    );
    assert!(respond(with_lines, Message::LinesOptimized(false)).is_empty());
    assert_eq!(
        respond(with_lines, Message::ResetTranslation),
        vec![Work::ResetTranslation, Work::ComputeVanishingPointPose]
    );
}

#[test]
fn picked_origin_and_scale_are_applied() {
    let mut shown = image(true);
    assert!(respond(window(UiMod::Pose, Some(shown)), Message::ApplyTranslation).is_empty());
    assert!(respond(window(UiMod::Pose, Some(shown)), Message::ApplyScale).is_empty());
    shown.picked_translation = true;
    shown.picked_scale = true;
    shown.picked_scale_segment = Some(0);
    shown.drawn_points = 2;
    let facts = window(UiMod::Pose, Some(shown));
    assert_eq!(
        respond(facts, Message::ApplyTranslation),
        vec![Work::ApplyTranslation, Work::ComputeVanishingPointPose]
    );
    assert_eq!(
        respond(facts, Message::ApplyScale),
        vec![Work::ApplyScale, Work::ComputeVanishingPointPose]
    );
}

#[test]
fn scaling_to_dimension_needs_pose_reference_and_length() {
    let mut shown = image(true);
    shown.solution = true;
    shown.picked_scale = true;
    assert!(respond(window(UiMod::Pose, Some(shown)), Message::ScaleToDimension).is_empty());
    shown.dimension = true;
    assert_eq!(
        respond(window(UiMod::Pose, Some(shown)), Message::ScaleToDimension),
        vec![Work::ScaleToDimension]
    );
    shown.solution = false;
    assert!(respond(window(UiMod::Pose, Some(shown)), Message::ScaleToDimension).is_empty());
}

#[test]
fn export_needs_pose() {
    let mut shown = image(true);
    assert!(respond(window(UiMod::Twist, Some(shown)), Message::ExportToFSpy).is_empty());
    shown.solution = true;
    assert_eq!(
        respond(window(UiMod::Twist, Some(shown)), Message::ExportToFSpy),
        vec![Work::ExportToFSpy]
    );
}

#[test]
fn sliders_and_point_editors() {
    let facts = window(UiMod::Twist, Some(image(true)));
    let zoom = 0.75f32.to_bits();
    assert_eq!(respond(facts, Message::ZoomChanged(zoom)), vec![Work::SetZoom(zoom)]);
    let field_of_view = 95.5f32.to_bits();
    assert_eq!(
        respond(facts, Message::FieldOfViewChanged(field_of_view)),
        vec![Work::SetFieldOfView(field_of_view), Work::ComputeTwistPose]
    );
    let edit = FieldEdit::InternalEdit(2, "1.5".to_string());
    assert_eq!(
        respond(facts, Message::EditPoint(2, edit.clone())),
        vec![Work::EditPoint(2, edit.clone())]
    );
    assert!(respond(facts, Message::EditPoint(3, edit)).is_empty());
    assert_eq!(respond(facts, Message::PoseLambdaTwist), vec![Work::ComputeTwistPose]);
    assert!(respond(facts, Message::CalculatePose).is_empty());
}

#[test]
fn picked_image_is_added_and_shown() {
    let empty = WindowFacts { mode: UiMod::Twist, images: 0, image: None };
    assert_eq!(
        respond(empty, Message::ImagePicked(Some("a.png".to_string()))),
        vec![
            Work::CreateImageState,
            Work::AddImage("a.png".to_string()),
            Work::ShowImage(0),
            Work::ReadImage { with_drawing: false },
        ]
    );
    let shown = window(UiMod::Pose, Some(image(true)));
    assert_eq!(
        respond(shown, Message::ImagePicked(Some("b.png".to_string()))),
        vec![
            Work::AddImage("b.png".to_string()),
            Work::WritePoints,
            Work::ShowImage(2),
            Work::ReadImage { with_drawing: false },
        ]
    );
    assert!(respond(shown, Message::ImagePicked(None)).is_empty());
    let many = WindowFacts { mode: UiMod::Pose, images: 256, image: Some(image(false)) };
    assert_eq!(
        respond(many, Message::ImagePicked(Some("c.png".to_string())))[1],
        Work::ShowImage(0)
    );
}

#[test]
fn context_menu_entries() {
    let pose = context_menu(UiMod::Pose, (true, false, false));
    assert_eq!(pose.len(), 14);
    assert_eq!(pose[0].label, "Perform calculations");
    assert_eq!(pose[0].message, Message::CalculatePoseUsingVanishingPoint);
    assert_eq!(pose[6].label, "Flip X");
    assert_eq!(pose[6].message, Message::Flip(false, false, false));
    assert_eq!(pose[7].message, Message::Flip(true, true, false));
    assert_eq!(pose[8].message, Message::Flip(true, false, true));
    assert_eq!(pose[13].label, "Optimize Y axis");
    let twist = context_menu(UiMod::Twist, (false, false, false));
    let labels: Vec<&str> = twist.iter().map(|e| e.label).collect();
    assert_eq!(labels, vec!["Export Pose To FSpy", "Save lines", "Pose Lambda Twist"]);
    assert_eq!(twist[2].message, Message::PoseLambdaTwist);
}
