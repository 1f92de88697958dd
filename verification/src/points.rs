//! Which drawn point a new point is measured from, and how an axis
//! restriction combines the two.
use crate::model::{Edit, EditAxis};
use vstd::prelude::*;

verus! {

/// The drawn point that the point under the pointer is measured from in mode
/// `edit`, among `drawn_points` points: the last one while extruding, the
/// origin `selected` while scaling, the point `selected_error` while marking an
/// error; none when that point does not exist or in other modes.
pub open spec fn reference_point(
    edit: Edit,
    drawn_points: usize,
    selected: usize,
    selected_error: Option<usize>,
) -> Option<usize> {
    match edit {
        Edit::Extrude(_) => if drawn_points > 0 {
            Some((drawn_points - 1) as usize)
        } else {
            None
        },
        Edit::Scale(_) => if selected < drawn_points {
            Some(selected)
        } else {
            None
        },
        Edit::MarkError(_) => match selected_error {
            Some(i) => if i < drawn_points {
                Some(i)
            } else {
                None
            },
            None => None,
        },
        _ => None,
    }
}

/// The drawn point the point under the pointer is measured from, as
/// [`reference_point`] says. The pose canvas passes no `selected_error`, since
/// it does not mark errors.
pub fn reference_point_index(
    edit: Edit,
    drawn_points: usize,
    selected: usize,
    selected_error: Option<usize>,
) -> (r: Option<usize>)
    ensures
        r == reference_point(edit, drawn_points, selected, selected_error),
{
    match edit {
        Edit::Extrude(_) => if drawn_points > 0 {
            Some(drawn_points - 1)
        } else {
            None
        },
        Edit::Scale(_) => if selected < drawn_points {
            Some(selected)
        } else {
            None
        },
        Edit::MarkError(_) => match selected_error {
            Some(i) => if i < drawn_points {
                Some(i)
            } else {
                None
            },
            None => None,
        },
        _ => None,
    }
}

/// The point under the pointer restricted to `axis`: along the x axis it takes
/// only its x coordinate and keeps the other two of `last`, and so on; with no
/// restriction it is the point itself.
pub open spec fn restricted<T>(axis: EditAxis, new_point: (T, T, T), last: (T, T, T)) -> (T, T, T) {
    match axis {
        EditAxis::EditX => (new_point.0, last.1, last.2),
        EditAxis::EditY => (last.0, new_point.1, last.2),
        EditAxis::EditZ => (last.0, last.1, new_point.2),
        EditAxis::Free => new_point,
    }
}

/// The point under the pointer restricted to `axis`, as [`restricted`] says.
pub fn restrict_to_axis<T: Copy>(axis: EditAxis, new_point: (T, T, T), last: (T, T, T)) -> (r: (
    T,
    T,
    T,
))
    ensures
        r == restricted(axis, new_point, last),
{
    match axis {
        EditAxis::EditX => (new_point.0, last.1, last.2),
        EditAxis::EditY => (last.0, new_point.1, last.2),
        EditAxis::EditZ => (last.0, last.1, new_point.2),
        EditAxis::Free => new_point,
    }
}

/// Restricting twice to the same axis changes nothing more, and a point
/// restricted to an axis moves away from the reference point along that axis
/// only.
pub proof fn lemma_restriction<T>(axis: EditAxis, new_point: (T, T, T), last: (T, T, T))
    ensures
        restricted(axis, restricted(axis, new_point, last), last) == restricted(
            axis,
            new_point,
            last,
        ),
        axis != EditAxis::EditX && axis != EditAxis::Free ==> restricted(axis, new_point, last).0
            == last.0,
        axis != EditAxis::EditY && axis != EditAxis::Free ==> restricted(axis, new_point, last).1
            == last.1,
        axis != EditAxis::EditZ && axis != EditAxis::Free ==> restricted(axis, new_point, last).2
            == last.2,
{
}

} // verus!
