use vstd::prelude::*;

verus! {

/// Which part of an fSpy file the decoder expects next.
#[derive(Debug, Clone, Copy, PartialEq, Eq, Structural)]
pub enum Reading {
    Header,
    Data,
    Image,
}

/// One of the two end points of a vanishing line.
#[derive(Debug, Clone, Copy, PartialEq, Eq, Structural)]
pub enum Component {
    A,
    B,
}

/// The axis that an edit is restricted to.
#[derive(Debug, Clone, Copy, PartialEq, Eq, Structural)]
pub enum EditAxis {
    EditX,
    EditY,
    EditZ,
    /// No restriction on the axis.
    Free,
}

/// The editing mode of a canvas.
#[derive(Debug, Clone, Copy, PartialEq, Eq, Structural)]
pub enum Edit {
    MarkError(EditAxis),
    ControlPoint(EditAxis),
    Draw,
    Extrude(EditAxis),
    Scale(EditAxis),
    VanishingPoint(EditAxis),
    VanishingLines(EditAxis),
    Twist,
    /// No edit in progress.
    Idle,
}

impl Default for EditAxis {
    fn default() -> (axis: Self)
        ensures
            axis == EditAxis::Free,
    {
        EditAxis::Free
    }
}

impl Default for Edit {
    fn default() -> (edit: Self)
        ensures
            edit == Edit::Twist,
    {
        Edit::Twist
    }
}

/// The editing state shared by the canvases of the application.
pub struct PerspectiveState {
    pub edit: Edit,
}

impl Default for PerspectiveState {
    fn default() -> (state: Self)
        ensures
            state.edit == Edit::Twist,
    {
        PerspectiveState { edit: Edit::default() }
    }
}

/// The unit settings written into an fSpy project.
#[derive(Debug, Clone)]
pub struct CalibrationSettingsBase {
    pub reference_distance_unit: String,
}

} // verus!
