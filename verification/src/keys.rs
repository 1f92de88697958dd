//! How the canvases change their editing mode when a key is pressed.
use crate::model::{Edit, EditAxis};
use vstd::prelude::*;
use vstd::string::StrSliceExecFns;

verus! {

/// Whether a canvas keeps an event to itself.
#[derive(Debug, Clone, Copy, PartialEq, Eq, Structural)]
pub enum Status {
    Ignored,
    Captured,
}

/// What a canvas does in answer to a key press.
#[derive(Debug, Clone, Copy, PartialEq, Eq, Structural)]
pub struct KeyResponse {
    /// The editing mode afterwards.
    pub edit: Edit,
    /// Whether the canvas keeps the event.
    pub status: Status,
    /// Whether the accumulated scroll offset goes back to zero.
    pub reset_scroll: bool,
    /// Whether the last drawn point is removed.
    pub remove_last_point: bool,
    /// Whether the vanishing line helpers are drawn anew.
    pub redraw_vanishing_lines: bool,
    /// Whether the whole canvas is drawn anew.
    pub redraw: bool,
}

/// The two modes of the application window.
#[derive(Debug, Clone, Copy, PartialEq, Eq, Structural)]
pub enum UiMod {
    Pose,
    Twist,
}

impl Default for UiMod {
    /// The window opens in the twist mode.
    fn default() -> (mode: Self)
        ensures
            mode == UiMod::Twist,
    {
        UiMod::Twist
    }
}

/// `key` is the one-character key `c`.
pub open spec fn is_key(key: Seq<char>, c: char) -> bool {
    key.len() == 1 && key[0] == c
}

/// Whether `key` is the one-character key `c`.
pub fn key_is(key: &str, c: char) -> (r: bool)
    ensures
        r == is_key(key@, c),
{
    if key.unicode_len() == 1 {
        key.get_char(0) == c
    } else {
        false
    }
}

/// A response that only sets the mode.
pub open spec fn respond(edit: Edit, status: Status) -> KeyResponse {
    KeyResponse {
        edit,
        status,
        reset_scroll: false,
        remove_last_point: false,
        redraw_vanishing_lines: false,
        redraw: false,
    }
}

/// `a` and `b` are the same kind of mode, whatever axis they are restricted to.
pub open spec fn same_kind(a: Edit, b: Edit) -> bool {
    match (a, b) {
        (Edit::MarkError(_), Edit::MarkError(_)) => true,
        (Edit::ControlPoint(_), Edit::ControlPoint(_)) => true,
        (Edit::Extrude(_), Edit::Extrude(_)) => true,
        (Edit::Scale(_), Edit::Scale(_)) => true,
        (Edit::VanishingPoint(_), Edit::VanishingPoint(_)) => true,
        (Edit::VanishingLines(_), Edit::VanishingLines(_)) => true,
        _ => a == b,
    }
}

/// The axis that the keys `r`, `s` and `t` select.
pub open spec fn axis_of_key(key: Seq<char>) -> EditAxis {
    if is_key(key, 'r') {
        EditAxis::EditX
    } else if is_key(key, 's') {
        EditAxis::EditY
    } else {
        EditAxis::EditZ
    }
}

/// The answer of the pose canvas to the key `key`, in mode `edit`, with
/// `drawn_points` points drawn.
///
/// `w` turns the vanishing line mode on and off, `f` the drawing mode; `r`,
/// `s` and `t` restrict the current mode to the x, y and z axis (`t` only in the
/// modes that move along z); `x` starts scaling, `c` extruding, and `d` removes
/// the last drawn point, if more than one is drawn, and goes back to drawing.
/// Other keys are left to others.
pub open spec fn pose_key_response(edit: Edit, key: Seq<char>, drawn_points: usize) -> KeyResponse {
    let captured = Status::Captured;
    if is_key(key, 'w') {
        // w
        let next = match edit {
            Edit::VanishingLines(_) => Edit::Idle,
            _ => Edit::VanishingLines(EditAxis::Free),
        };
        KeyResponse { redraw_vanishing_lines: true, ..respond(next, captured) }
    } else if is_key(key, 'f') {
        // f
        let next = match edit {
            Edit::Draw => Edit::Idle,
            _ => Edit::Draw,
        };
        KeyResponse { redraw_vanishing_lines: true, ..respond(next, captured) }
    } else if is_key(key, 'r') || is_key(key, 's') {
        // r, s
        let axis = axis_of_key(key);
        match edit {
            Edit::ControlPoint(_) => KeyResponse {
                reset_scroll: true,
                ..respond(Edit::ControlPoint(axis), captured)
            },
            Edit::VanishingPoint(_) => KeyResponse {
                reset_scroll: true,
                ..respond(Edit::VanishingPoint(axis), captured)
            },
            Edit::VanishingLines(_) => KeyResponse {
                reset_scroll: true,
                redraw_vanishing_lines: true,
                ..respond(Edit::VanishingLines(axis), captured)
            },
            Edit::Extrude(_) => respond(Edit::Extrude(axis), captured),
            Edit::Scale(_) => respond(Edit::Scale(axis), captured),
            _ => respond(edit, captured),
        }
    } else if is_key(key, 't') {
        // t
        match edit {
            Edit::VanishingLines(_) => KeyResponse {
                reset_scroll: true,
                redraw_vanishing_lines: true,
                redraw: true,
                ..respond(Edit::VanishingLines(EditAxis::EditZ), captured)
            },
            Edit::Extrude(_) => respond(Edit::Extrude(EditAxis::EditZ), captured),
            Edit::Scale(_) => respond(Edit::Scale(EditAxis::EditZ), captured),
            _ => respond(edit, captured),
        }
    } else if is_key(key, 'x') {
        // x
        respond(Edit::Scale(EditAxis::Free), captured)
    } else if is_key(key, 'c') {
        // c
        respond(Edit::Extrude(EditAxis::Free), captured)
    } else if is_key(key, 'd') {
        // d
        KeyResponse { remove_last_point: drawn_points > 1, ..respond(Edit::Draw, captured) }
    } else {
        respond(edit, Status::Ignored)
    }
}

/// The answer of the pose canvas to a pressed character key.
pub fn pose_key_pressed(edit: Edit, key: &str, drawn_points: usize) -> (r: KeyResponse)
    ensures
        r == pose_key_response(edit, key@, drawn_points),
{
    let captured = Status::Captured;
    let plain = KeyResponse {
        edit,
        status: captured,
        reset_scroll: false,
        remove_last_point: false,
        redraw_vanishing_lines: false,
        redraw: false,
    };
    if key_is(key, 'w') {
        let next = match edit {
            Edit::VanishingLines(_) => Edit::Idle,
            _ => Edit::VanishingLines(EditAxis::Free),
        };
        KeyResponse { edit: next, redraw_vanishing_lines: true, ..plain }
    } else if key_is(key, 'f') {
        let next = match edit {
            Edit::Draw => Edit::Idle,
            _ => Edit::Draw,
        };
        KeyResponse { edit: next, redraw_vanishing_lines: true, ..plain }
    } else if key_is(key, 'r') || key_is(key, 's') {
        let axis = if key_is(key, 'r') {
            EditAxis::EditX
        } else {
            EditAxis::EditY
        };
        match edit {
            Edit::ControlPoint(_) => KeyResponse {
                edit: Edit::ControlPoint(axis),
                reset_scroll: true,
                ..plain
            },
            Edit::VanishingPoint(_) => KeyResponse {
                edit: Edit::VanishingPoint(axis),
                reset_scroll: true,
                ..plain
            },
            Edit::VanishingLines(_) => KeyResponse {
                edit: Edit::VanishingLines(axis),
                reset_scroll: true,
                redraw_vanishing_lines: true,
                ..plain
            },
            Edit::Extrude(_) => KeyResponse { edit: Edit::Extrude(axis), ..plain },
            Edit::Scale(_) => KeyResponse { edit: Edit::Scale(axis), ..plain },
            _ => plain,
        }
    } else if key_is(key, 't') {
        match edit {
            Edit::VanishingLines(_) => KeyResponse {
                edit: Edit::VanishingLines(EditAxis::EditZ),
                reset_scroll: true,
                redraw_vanishing_lines: true,
                redraw: true,
                ..plain
            },
            Edit::Extrude(_) => KeyResponse { edit: Edit::Extrude(EditAxis::EditZ), ..plain },
            Edit::Scale(_) => KeyResponse { edit: Edit::Scale(EditAxis::EditZ), ..plain },
            _ => plain,
        }
    } else if key_is(key, 'x') {
        KeyResponse { edit: Edit::Scale(EditAxis::Free), ..plain }
    } else if key_is(key, 'c') {
        KeyResponse { edit: Edit::Extrude(EditAxis::Free), ..plain }
    } else if key_is(key, 'd') {
        KeyResponse { edit: Edit::Draw, remove_last_point: drawn_points > 1, ..plain }
    } else {
        KeyResponse { status: Status::Ignored, ..plain }
    }
}

/// The answer of the drawing canvas to the key `key`, in mode `edit`, with
/// `drawn_points` points drawn. The canvas never keeps key events and always
/// redraws.
///
/// `x` starts scaling, `c` extruding and `q` marking an error; `r`, `s` and `t`
/// restrict those three modes to the x, y and z axis; `d` removes the last
/// drawn point, if more than one is drawn; every other key goes back to drawing.
pub open spec fn draw_key_response(edit: Edit, key: Seq<char>, drawn_points: usize) -> KeyResponse {
    let ignored = Status::Ignored;
    let next = if is_key(key, 'x') {
        // x
        Edit::Scale(EditAxis::Free)
    } else if is_key(key, 'r') || is_key(key, 's') || is_key(key, 't') {
        // r, s, t
        let axis = axis_of_key(key);
        match edit {
            Edit::Extrude(_) => Edit::Extrude(axis),
            Edit::Scale(_) => Edit::Scale(axis),
            Edit::MarkError(_) => Edit::MarkError(axis),
            _ => edit,
        }
    } else if is_key(key, 'c') {
        // c
        Edit::Extrude(EditAxis::Free)
    } else if is_key(key, 'q') {
        // q
        Edit::MarkError(EditAxis::Free)
    } else {
        Edit::Draw
    };
    KeyResponse {
        remove_last_point: is_key(key, 'd') && drawn_points > 1,
        redraw: true,
        ..respond(next, ignored)
    }
}

/// The answer of the drawing canvas to a pressed character key.
pub fn draw_key_pressed(edit: Edit, key: &str, drawn_points: usize) -> (r: KeyResponse)
    ensures
        r == draw_key_response(edit, key@, drawn_points),
{
    let is_r = key_is(key, 'r');
    let is_s = key_is(key, 's');
    let is_t = key_is(key, 't');
    let next = if key_is(key, 'x') {
        Edit::Scale(EditAxis::Free)
    } else if is_r || is_s || is_t {
        let axis = if is_r {
            EditAxis::EditX
        } else if is_s {
            EditAxis::EditY
        } else {
            EditAxis::EditZ
        };
        match edit {
            Edit::Extrude(_) => Edit::Extrude(axis),
            Edit::Scale(_) => Edit::Scale(axis),
            Edit::MarkError(_) => Edit::MarkError(axis),
            _ => edit,
        }
    } else if key_is(key, 'c') {
        Edit::Extrude(EditAxis::Free)
    } else if key_is(key, 'q') {
        Edit::MarkError(EditAxis::Free)
    } else {
        Edit::Draw
    };
    KeyResponse {
        edit: next,
        status: Status::Ignored,
        reset_scroll: false,
        remove_last_point: key_is(key, 'd') && drawn_points > 1,
        redraw_vanishing_lines: false,
        redraw: true,
    }
}

/// The window mode that the key `key` selects: `'` the twist mode, `y` the pose mode.
pub open spec fn ui_mode_of_key(key: Seq<char>) -> Option<UiMod> {
    if is_key(key, '\'') {
        Some(UiMod::Twist)
    } else if is_key(key, 'y') {
        Some(UiMod::Pose)
    } else {
        None
    }
}

/// The window mode that a released character key selects, if any.
pub fn ui_mode_for_key(key: &str) -> (m: Option<UiMod>)
    ensures
        m == ui_mode_of_key(key@),
{
    if key_is(key, '\'') {
        Some(UiMod::Twist)
    } else if key_is(key, 'y') {
        Some(UiMod::Pose)
    } else {
        None
    }
}

/// The axis keys `r`, `s` and `t` never change the kind of mode a canvas is
/// in; they only change the axis it is restricted to.
pub proof fn lemma_axis_keys_keep_mode_kind(edit: Edit, key: Seq<char>, drawn_points: usize)
    requires
        is_key(key, 'r') || is_key(key, 's') || is_key(key, 't'),
    ensures
        same_kind(pose_key_response(edit, key, drawn_points).edit, edit),
        same_kind(draw_key_response(edit, key, drawn_points).edit, edit),
{
}

/// On the pose canvas, `w` switches the vanishing line mode on and off and `f`
/// the drawing mode: pressed twice, `w` leaves the canvas idle unless it was
/// placing vanishing lines, and `f` leaves it idle unless it was drawing.
pub proof fn lemma_pose_toggle_keys(edit: Edit, drawn_points: usize)
    ensures
        pose_key_response(
            pose_key_response(edit, seq!['w'], drawn_points).edit,
            seq!['w'],
            drawn_points,
        ).edit == (match edit {
            Edit::VanishingLines(_) => Edit::VanishingLines(EditAxis::Free),
            _ => Edit::Idle,
        }),
        pose_key_response(
            pose_key_response(edit, seq!['f'], drawn_points).edit,
            seq!['f'],
            drawn_points,
        ).edit == (match edit {
            Edit::Draw => Edit::Draw,
            _ => Edit::Idle,
        }),
{
}

/// The pose canvas leaves every key other than `w f r s t x c d` to others,
/// and its mode unchanged.
pub proof fn lemma_pose_ignores_other_keys(edit: Edit, key: Seq<char>, drawn_points: usize)
    requires
        !is_key(key, 'w'),
        !is_key(key, 'f'),
        !is_key(key, 'r'),
        !is_key(key, 's'),
        !is_key(key, 't'),
        !is_key(key, 'x'),
        !is_key(key, 'c'),
        !is_key(key, 'd'),
    ensures
        pose_key_response(edit, key, drawn_points) == respond(edit, Status::Ignored),
{
}

/// On the drawing canvas, every key but `r`, `s` and `t` leads to the same
/// mode whatever mode the canvas was in.
pub proof fn lemma_draw_keys_reset_mode(a: Edit, b: Edit, key: Seq<char>, drawn_points: usize)
    requires
        !is_key(key, 'r'),
        !is_key(key, 's'),
        !is_key(key, 't'),
    ensures
        draw_key_response(a, key, drawn_points).edit == draw_key_response(b, key, drawn_points).edit,
{
}

/// Neither canvas removes the last point left.
pub proof fn lemma_last_point_kept(edit: Edit, key: Seq<char>)
    ensures
        !pose_key_response(edit, key, 1).remove_last_point,
        !draw_key_response(edit, key, 1).remove_last_point,
        !pose_key_response(edit, key, 0).remove_last_point,
        !draw_key_response(edit, key, 0).remove_last_point,
{
}

/// The axis that a mode is restricted to, for the modes that take one.
pub open spec fn restriction_of(edit: Edit) -> Option<EditAxis> {
    match edit {
        Edit::MarkError(axis) => Some(axis),
        Edit::ControlPoint(axis) => Some(axis),
        Edit::Extrude(axis) => Some(axis),
        Edit::Scale(axis) => Some(axis),
        Edit::VanishingPoint(axis) => Some(axis),
        Edit::VanishingLines(axis) => Some(axis),
        _ => None,
    }
}

/// On the pose canvas, `r` restricts every mode that takes an axis to the x
/// axis and `s` to the y axis, keeping its kind; `t` restricts the vanishing
/// lines, extruding and scaling to the z axis and leaves the control point and
/// end point modes as they are. Each of them keeps the event.
pub proof fn lemma_pose_axis_keys_select_axis(edit: Edit, drawn_points: usize)
    requires
        restriction_of(edit) is Some,
        !(edit is MarkError),
    ensures
        same_kind(pose_key_response(edit, seq!['r'], drawn_points).edit, edit),
        restriction_of(pose_key_response(edit, seq!['r'], drawn_points).edit) == Some(EditAxis::EditX),
        same_kind(pose_key_response(edit, seq!['s'], drawn_points).edit, edit),
        restriction_of(pose_key_response(edit, seq!['s'], drawn_points).edit) == Some(EditAxis::EditY),
        (edit is VanishingLines || edit is Extrude || edit is Scale) ==> same_kind(
            pose_key_response(edit, seq!['t'], drawn_points).edit,
            edit,
        ) && restriction_of(pose_key_response(edit, seq!['t'], drawn_points).edit) == Some(
            EditAxis::EditZ,
        ),
        (edit is ControlPoint || edit is VanishingPoint) ==> pose_key_response(
            edit,
            seq!['t'],
            drawn_points,
        ).edit == edit,
        pose_key_response(edit, seq!['r'], drawn_points).status == Status::Captured,
        pose_key_response(edit, seq!['s'], drawn_points).status == Status::Captured,
        pose_key_response(edit, seq!['t'], drawn_points).status == Status::Captured,
{
}

/// On the drawing canvas, `r`, `s` and `t` restrict extruding, scaling and
/// marking an error to the x, y and z axis, keeping the kind of mode.
pub proof fn lemma_draw_axis_keys_select_axis(edit: Edit, drawn_points: usize)
    requires
        edit is Extrude || edit is Scale || edit is MarkError,
    ensures
        same_kind(draw_key_response(edit, seq!['r'], drawn_points).edit, edit),
        restriction_of(draw_key_response(edit, seq!['r'], drawn_points).edit) == Some(EditAxis::EditX),
        same_kind(draw_key_response(edit, seq!['s'], drawn_points).edit, edit),
        restriction_of(draw_key_response(edit, seq!['s'], drawn_points).edit) == Some(EditAxis::EditY),
        same_kind(draw_key_response(edit, seq!['t'], drawn_points).edit, edit),
        restriction_of(draw_key_response(edit, seq!['t'], drawn_points).edit) == Some(EditAxis::EditZ),
{
}

/// The keys that start a mode start it with no axis restriction, whatever the
/// mode before: `x` scaling and `c` extruding on both canvases, `q` marking an
/// error on the drawing canvas; `d` goes back to drawing on the pose canvas,
/// and on both canvases removes the last drawn point exactly when more than one
/// is drawn. The drawing canvas never keeps a key and always redraws.
pub proof fn lemma_mode_keys_start_modes(edit: Edit, drawn_points: usize, key: Seq<char>)
    ensures
        pose_key_response(edit, seq!['x'], drawn_points).edit == Edit::Scale(EditAxis::Free),
        pose_key_response(edit, seq!['c'], drawn_points).edit == Edit::Extrude(EditAxis::Free),
        pose_key_response(edit, seq!['d'], drawn_points).edit == Edit::Draw,
        pose_key_response(edit, seq!['d'], drawn_points).remove_last_point <==> drawn_points > 1,
        draw_key_response(edit, seq!['x'], drawn_points).edit == Edit::Scale(EditAxis::Free),
        draw_key_response(edit, seq!['c'], drawn_points).edit == Edit::Extrude(EditAxis::Free),
        draw_key_response(edit, seq!['q'], drawn_points).edit == Edit::MarkError(EditAxis::Free),
        draw_key_response(edit, seq!['d'], drawn_points).remove_last_point <==> drawn_points > 1,
        !is_key(key, 'd') ==> !draw_key_response(edit, key, drawn_points).remove_last_point,
        !is_key(key, 'd') ==> !pose_key_response(edit, key, drawn_points).remove_last_point,
        draw_key_response(edit, key, drawn_points).status == Status::Ignored,
        draw_key_response(edit, key, drawn_points).redraw,
{
}

} // verus!
