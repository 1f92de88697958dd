use perspective::model::{Edit, EditAxis};
use perspective::points::{reference_point_index, restrict_to_axis};

#[test]
fn reference_points_by_mode() {
    assert_eq!(reference_point_index(Edit::Extrude(EditAxis::Free), 4, 1, None), Some(3));
    assert_eq!(reference_point_index(Edit::Extrude(EditAxis::Free), 0, 0, None), None);
    assert_eq!(reference_point_index(Edit::Scale(EditAxis::EditX), 4, 1, None), Some(1));
    assert_eq!(reference_point_index(Edit::Scale(EditAxis::EditX), 4, 4, None), None);
    assert_eq!(reference_point_index(Edit::MarkError(EditAxis::EditX), 4, 1, Some(2)), Some(2));
    assert_eq!(reference_point_index(Edit::MarkError(EditAxis::EditX), 4, 1, None), None);
    assert_eq!(reference_point_index(Edit::Draw, 4, 1, Some(2)), None);
}

#[test]
fn axis_restriction() {
    let new_point = (1.5f32, 2.5f32, 3.5f32);
    let last = (10.0f32, 20.0f32, 30.0f32);
    assert_eq!(restrict_to_axis(EditAxis::EditX, new_point, last), (1.5, 20.0, 30.0));
    assert_eq!(restrict_to_axis(EditAxis::EditY, new_point, last), (10.0, 2.5, 30.0));
    assert_eq!(restrict_to_axis(EditAxis::EditZ, new_point, last), (10.0, 20.0, 3.5));
    assert_eq!(restrict_to_axis(EditAxis::Free, new_point, last), new_point);
}
