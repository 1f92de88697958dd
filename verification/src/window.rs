//! How the application window answers its messages: which work each one sets
//! off, and in which order.
//!
//! The window keeps its images, lines and poses itself. What its decisions
//! read of them is summed up in [`WindowFacts`]; the work they set off is
//! carried out by the caller, which hands back the outcome of outside work (an
//! image read, an optimization, a file dialog) as a message.
use crate::editor::Message as FieldEdit;
use crate::keys::UiMod;
use vstd::prelude::*;

verus! {

/// What the window's decisions read of the state of the shown image.
#[derive(Debug, Clone, Copy, PartialEq, Eq, Structural)]
pub struct ImageFacts {
    /// Whether the vanishing lines and settings of the image are loaded.
    pub axis_data: bool,
    /// Whether a camera pose is computed.
    pub solution: bool,
    /// Whether an origin was picked on the canvas.
    pub picked_translation: bool,
    /// Whether a scale reference was picked on the canvas.
    pub picked_scale: bool,
    /// The drawn segment picked for scaling, if any.
    pub picked_scale_segment: Option<usize>,
    /// How many points are drawn.
    pub drawn_points: usize,
    /// Whether the real length of the scale reference was given.
    pub dimension: bool,
}

/// What the window's decisions read of its state.
#[derive(Debug, Clone, Copy, PartialEq, Eq, Structural)]
pub struct WindowFacts {
    /// The mode of the window.
    pub mode: UiMod,
    /// How many images the window lists.
    pub images: usize,
    /// The shown image, once there is one.
    pub image: Option<ImageFacts>,
}

/// Which vanishing lines an optimization moves.
#[derive(Debug, Clone, Copy, PartialEq, Eq, Structural)]
pub enum LineAxes {
    All,
    X,
    Y,
}

/// A message to the window.
#[derive(Debug, Clone, PartialEq, Eq)]
pub enum Message {
    /// Save the lines of the shown image.
    Save,
    /// Does nothing.
    CalculatePose,
    /// The shown image and its points file were read: whether the points file
    /// was there.
    LoadApplicationState { points_found: bool },
    /// Show the listed image with this index.
    SelectImage(u8),
    /// Whether the x, y and z axes are flipped.
    Flip(bool, bool, bool),
    ApplyScale,
    ResetScale,
    ApplyTranslation,
    ResetTranslation,
    ChangeMode(UiMod),
    ExportToFSpy,
    Optimize,
    /// The zoom slider moved, to the `f32` with these bits.
    ZoomChanged(u32),
    /// The field of view slider moved, to the `f32` (degrees) with these bits.
    FieldOfViewChanged(u32),
    ScaleToDimension,
    OptimizeX,
    PoseLambdaTwist,
    OptimizeY,
    CalculatePoseUsingVanishingPoint,
    /// An edit in the editor of the twist point with this index.
    EditPoint(usize, FieldEdit),
    /// Add an image.
    LoadImage,
    /// The window opened without an image.
    NoImage,
    /// The optimization of the vanishing lines finished: whether it succeeded.
    LinesOptimized(bool),
    /// The file dialog closed, with the chosen image if any.
    ImagePicked(Option<String>),
}

/// Work the window asks of its caller, carried out in order.
#[derive(Debug, Clone, PartialEq, Eq)]
pub enum Work {
    /// Write the lines, points and settings of the shown image to its points
    /// file.
    WritePoints,
    /// Compute the camera pose from the vanishing lines.
    ComputeVanishingPointPose,
    /// Scale the pose so that the picked scale reference has the given real
    /// length, keep that scale for the image and forget the picked reference.
    ScaleToDimension,
    /// Take what was read as the state of the image: its size; its lines and
    /// settings from the points file if it was there (and the drawn points, if
    /// they were read), the defaults otherwise; its twist points, field of
    /// view, reference cube and point editors.
    TakeLoadedState { points_found: bool },
    /// Switch the mode of the window.
    SetMode(UiMod),
    /// Show the listed image with this index, and name its points and fSpy
    /// files after it.
    ShowImage(u8),
    /// Read the shown image and its points file (with the drawn points or not),
    /// and answer with [`Message::LoadApplicationState`].
    ReadImage { with_drawing: bool },
    /// Set which axes are flipped.
    SetFlip(bool, bool, bool),
    /// Make the picked origin the origin of the image.
    ApplyTranslation,
    /// Drop the origin of the image.
    ResetTranslation,
    /// Scale the image by the length of the picked reference over that of the
    /// picked segment (or over one, without a segment), on top of its scale,
    /// and forget the picked reference and segment.
    ApplyScale,
    /// Drop the scale of the image.
    ResetScale,
    /// Write the pose and the image as an fSpy project.
    ExportToFSpy,
    /// Optimize the vanishing lines, keep the result aside and answer with
    /// [`Message::LinesOptimized`].
    OptimizeLines(LineAxes),
    /// Take the optimized lines as those of the image.
    TakeOptimizedLines,
    /// Set the zoom to the `f32` with these bits.
    SetZoom(u32),
    /// Set the field of view to the `f32` with these bits.
    SetFieldOfView(u32),
    /// Compute the pose from the twist points, keep the most upright one if
    /// any is found, and refresh the reference cube.
    ComputeTwistPose,
    /// Apply the edit to the editor of the twist point with this index, and
    /// take the point if its three fields hold numbers.
    EditPoint(usize, FieldEdit),
    /// Ask the user for an image, and answer with [`Message::ImagePicked`].
    PickImage,
    /// Start showing images: one drawn point, half zoom, nothing else.
    CreateImageState,
    /// Add the image to the list.
    AddImage(String),
}

/// The facts of an image the window has just started to show.
pub open spec fn fresh_image(dimension: bool) -> ImageFacts {
    ImageFacts {
        axis_data: false,
        solution: false,
        picked_translation: false,
        picked_scale: false,
        picked_scale_segment: None,
        drawn_points: 1,
        dimension,
    }
}

/// The facts of an image the window has just started to show.
fn fresh_image_facts(dimension: bool) -> (i: ImageFacts)
    ensures
        i == fresh_image(dimension),
{
    ImageFacts {
        axis_data: false,
        solution: false,
        picked_translation: false,
        picked_scale: false,
        picked_scale_segment: None,
        drawn_points: 1,
        dimension,
    }
}

/// The shown image has its vanishing lines.
pub open spec fn has_axis_data(f: WindowFacts) -> bool {
    f.image matches Some(i) && i.axis_data
}

/// The shown image has a pose.
pub open spec fn has_solution(f: WindowFacts) -> bool {
    f.image matches Some(i) && i.solution
}

/// An origin is picked on the shown image.
pub open spec fn has_picked_translation(f: WindowFacts) -> bool {
    f.image matches Some(i) && i.picked_translation
}

/// A scale reference is picked on the shown image.
pub open spec fn has_picked_scale(f: WindowFacts) -> bool {
    f.image matches Some(i) && i.picked_scale
}

/// The real length of the scale reference of the shown image is given.
pub open spec fn has_dimension(f: WindowFacts) -> bool {
    f.image matches Some(i) && i.dimension
}

/// Computing the pose from the vanishing lines, when there are lines.
pub open spec fn vanishing_point_pose(f: WindowFacts) -> Seq<Work> {
    if has_axis_data(f) {
        seq![Work::ComputeVanishingPointPose]
    } else {
        Seq::empty()
    }
}

/// Computing the pose the way the mode of the window does.
pub open spec fn mode_pose(f: WindowFacts) -> Seq<Work> {
    match f.mode {
        UiMod::Pose => vanishing_point_pose(f),
        UiMod::Twist => seq![Work::ComputeTwistPose],
    }
}

/// Saving the lines, when there are lines.
pub open spec fn save(f: WindowFacts) -> Seq<Work> {
    if has_axis_data(f) {
        seq![Work::WritePoints]
    } else {
        Seq::empty()
    }
}

/// Switching to the listed image `index`: the lines of the shown image are
/// saved first, and the drawing is kept.
pub open spec fn select_image(f: WindowFacts, index: u8) -> Seq<Work> {
    save(f) + seq![Work::ShowImage(index), Work::ReadImage { with_drawing: false }]
}

/// `w`, and a new pose after it, when there are vanishing lines.
pub open spec fn on_lines(f: WindowFacts, w: Work) -> Seq<Work> {
    if has_axis_data(f) {
        seq![w, Work::ComputeVanishingPointPose]
    } else {
        Seq::empty()
    }
}

/// Optimizing the lines, when there are lines.
pub open spec fn optimize(f: WindowFacts, axes: LineAxes) -> Seq<Work> {
    if has_axis_data(f) {
        seq![Work::OptimizeLines(axes)]
    } else {
        Seq::empty()
    }
}

/// The facts once a picked image is added to the list and shown.
pub open spec fn with_added_image(f: WindowFacts) -> WindowFacts {
    WindowFacts {
        images: (f.images + 1) as usize,
        image: Some(
            match f.image {
                Some(i) => i,
                None => fresh_image(false),
            },
        ),
        ..f
    }
}

/// The work that the message `m` sets off, in order, in the state `f`.
pub open spec fn window_work(f: WindowFacts, m: Message) -> Seq<Work> {
    match m {
        Message::Save => save(f),
        Message::CalculatePose => Seq::empty(),
        Message::LoadApplicationState { points_found } => {
            let loaded = WindowFacts {
                image: Some(ImageFacts { axis_data: true, ..f.image.unwrap() }),
                ..f
            };
            seq![Work::TakeLoadedState { points_found }] + mode_pose(loaded)
        },
        Message::SelectImage(index) => select_image(f, index),
        Message::Flip(x, y, z) => on_lines(f, Work::SetFlip(x, y, z)),
        Message::ApplyScale => if has_picked_scale(f) {
            seq![Work::ApplyScale] + vanishing_point_pose(f)
        } else {
            Seq::empty()
        },
        Message::ResetScale => on_lines(f, Work::ResetScale),
        Message::ApplyTranslation => if has_picked_translation(f) {
            seq![Work::ApplyTranslation] + vanishing_point_pose(f)
        } else {
            Seq::empty()
        },
        Message::ResetTranslation => on_lines(f, Work::ResetTranslation),
        Message::ChangeMode(mode) => seq![Work::SetMode(mode)] + mode_pose(
            WindowFacts { mode, ..f },
        ),
        Message::ExportToFSpy => if has_solution(f) {
            seq![Work::ExportToFSpy]
        } else {
            Seq::empty()
        },
        Message::Optimize => optimize(f, LineAxes::All),
        Message::ZoomChanged(zoom) => seq![Work::SetZoom(zoom)],
        Message::FieldOfViewChanged(field_of_view) => seq![
            Work::SetFieldOfView(field_of_view),
            Work::ComputeTwistPose,
        ],
        Message::ScaleToDimension => if has_solution(f) && has_picked_scale(f) && has_dimension(
            f,
        ) {
            seq![Work::ScaleToDimension]
        } else {
            Seq::empty()
        },
        Message::OptimizeX => optimize(f, LineAxes::X),
        Message::PoseLambdaTwist => seq![Work::ComputeTwistPose],
        Message::OptimizeY => optimize(f, LineAxes::Y),
        Message::CalculatePoseUsingVanishingPoint => vanishing_point_pose(f),
        Message::EditPoint(index, edit) => if index < 3 {
            seq![Work::EditPoint(index, edit)]
        } else {
            Seq::empty()
        },
        Message::LoadImage => seq![Work::PickImage],
        Message::NoImage => Seq::empty(),
        Message::LinesOptimized(ok) => if ok {
            on_lines(f, Work::TakeOptimizedLines)
        } else {
            Seq::empty()
        },
        Message::ImagePicked(picked) => match picked {
            Some(path) => {
                let created = if f.image is None {
                    seq![Work::CreateImageState]
                } else {
                    Seq::empty()
                };
                created + seq![Work::AddImage(path)] + select_image(
                    with_added_image(f),
                    f.images as u8,
                )
            },
            None => Seq::empty(),
        },
    }
}

/// Whether the window can handle the message `m` in the state `f`; it aborts
/// on the others. Every message but the last four needs a shown image.
pub open spec fn handles(f: WindowFacts, m: Message) -> bool {
    match m {
        Message::CalculatePose => true,
        Message::LoadImage => true,
        Message::NoImage => true,
        Message::LinesOptimized(_) => true,
        Message::ImagePicked(picked) => picked is None || f.images < usize::MAX,
        Message::SelectImage(index) => f.image is Some && index < f.images,
        Message::ApplyTranslation => f.image is Some && (has_picked_translation(f)
            ==> has_axis_data(f)),
        Message::ApplyScale => f.image is Some && (has_picked_scale(f) ==> has_axis_data(f) && (
        f.image.unwrap().picked_scale_segment matches Some(s) ==> s + 1 < f.image.unwrap().drawn_points)),
        Message::ScaleToDimension => f.image is Some && (has_solution(f) && has_picked_scale(f)
            && has_dimension(f) ==> has_axis_data(f)),
        _ => f.image is Some,
    }
}

/// Computing the pose from the vanishing lines, when there are lines.
fn vanishing_point_pose_work(f: WindowFacts) -> (w: Vec<Work>)
    ensures
        w@ == vanishing_point_pose(f),
{
    let mut w = Vec::new();
    if let Some(i) = f.image {
        if i.axis_data {
            w.push(Work::ComputeVanishingPointPose);
        }
    }
    w
}

/// Computing the pose the way the mode of the window does.
fn mode_pose_work(f: WindowFacts) -> (w: Vec<Work>)
    ensures
        w@ == mode_pose(f),
{
    match f.mode {
        UiMod::Pose => vanishing_point_pose_work(f),
        UiMod::Twist => vec![Work::ComputeTwistPose],
    }
}

/// Switching to the listed image `index`.
fn select_image_work(f: WindowFacts, index: u8) -> (w: Vec<Work>)
    ensures
        w@ == select_image(f, index),
{
    let mut w = Vec::new();
    if let Some(i) = f.image {
        if i.axis_data {
            w.push(Work::WritePoints);
        }
    }
    w.push(Work::ShowImage(index));
    w.push(Work::ReadImage { with_drawing: false });
    w
}

/// `w`, and a new pose after it, when there are vanishing lines.
fn on_lines_work(f: WindowFacts, w: Work) -> (r: Vec<Work>)
    ensures
        r@ == on_lines(f, w),
{
    if let Some(i) = f.image {
        if i.axis_data {
            return vec![w, Work::ComputeVanishingPointPose];
        }
    }
    Vec::new()
}

/// `w` alone, when there are vanishing lines.
fn on_lines_only(f: WindowFacts, w: Work) -> (r: Vec<Work>)
    ensures
        r@ == (if has_axis_data(f) {
            seq![w]
        } else {
            Seq::<Work>::empty()
        }),
{
    if let Some(i) = f.image {
        if i.axis_data {
            return vec![w];
        }
    }
    Vec::new()
}

/// `first`, then computing the pose from the vanishing lines, when there are lines.
fn then_vanishing_point_pose(f: WindowFacts, first: Work) -> (r: Vec<Work>)
    ensures
        r@ == seq![first] + vanishing_point_pose(f),
{
    let mut r = vec![first];
    let mut pose = vanishing_point_pose_work(f);
    r.append(&mut pose);
    r
}

/// Whether the window can handle `message` in the state `facts`.
pub fn can_handle(facts: WindowFacts, message: &Message) -> (b: bool)
    ensures
        b == handles(facts, *message),
{
    let (axis_data, picked_translation, picked_scale, solution, dimension) = match facts.image {
        Some(i) => (i.axis_data, i.picked_translation, i.picked_scale, i.solution, i.dimension),
        None => (false, false, false, false, false),
    };
    match message {
        Message::CalculatePose => true,
        Message::LoadImage => true,
        Message::NoImage => true,
        Message::LinesOptimized(_) => true,
        Message::ImagePicked(picked) => picked.is_none() || facts.images < usize::MAX,
        Message::SelectImage(index) => facts.image.is_some() && (*index as usize) < facts.images,
        Message::ApplyTranslation => facts.image.is_some() && (!picked_translation || axis_data),
        Message::ApplyScale => match facts.image {
            Some(i) => !picked_scale || (axis_data && match i.picked_scale_segment {
                Some(s) => s < i.drawn_points && s + 1 < i.drawn_points,
                None => true,
            }),
            None => false,
        },
        Message::ScaleToDimension => facts.image.is_some() && (!(solution && picked_scale
            && dimension) || axis_data),
        _ => facts.image.is_some(),
    }
}

/// The work that `message` sets off, in order, in the state `facts`.
pub fn respond(facts: WindowFacts, message: Message) -> (work: Vec<Work>)
    requires
        handles(facts, message),
    ensures
        work@ == window_work(facts, message),
{
    let picked_translation = match facts.image {
        Some(i) => i.picked_translation,
        None => false,
    };
    let picked_scale = match facts.image {
        Some(i) => i.picked_scale,
        None => false,
    };
    let solution = match facts.image {
        Some(i) => i.solution,
        None => false,
    };
    let dimension = match facts.image {
        Some(i) => i.dimension,
        None => false,
    };
    match message {
        Message::Save => on_lines_only(facts, Work::WritePoints),
        Message::CalculatePose => Vec::new(),
        Message::LoadApplicationState { points_found } => {
            let image = match facts.image {
                Some(i) => i,
                None => fresh_image_facts(false),
            };
            let loaded = WindowFacts {
                image: Some(ImageFacts { axis_data: true, ..image }),
                ..facts
            };
            let mut work = vec![Work::TakeLoadedState { points_found }];
            let mut pose = mode_pose_work(loaded);
            work.append(&mut pose);
            work
        },
        Message::SelectImage(index) => select_image_work(facts, index),
        Message::Flip(x, y, z) => on_lines_work(facts, Work::SetFlip(x, y, z)),
        Message::ApplyScale => if picked_scale {
            then_vanishing_point_pose(facts, Work::ApplyScale)
        } else {
            Vec::new()
        },
        Message::ResetScale => on_lines_work(facts, Work::ResetScale),
        Message::ApplyTranslation => if picked_translation {
            then_vanishing_point_pose(facts, Work::ApplyTranslation)
        } else {
            Vec::new()
        },
        Message::ResetTranslation => on_lines_work(facts, Work::ResetTranslation),
        Message::ChangeMode(mode) => {
            let mut work = vec![Work::SetMode(mode)];
            let mut pose = mode_pose_work(WindowFacts { mode, ..facts });
            work.append(&mut pose);
            work
        },
        Message::ExportToFSpy => if solution {
            vec![Work::ExportToFSpy]
        } else {
            Vec::new()
        },
        Message::Optimize => on_lines_only(facts, Work::OptimizeLines(LineAxes::All)),
        Message::ZoomChanged(zoom) => vec![Work::SetZoom(zoom)],
        Message::FieldOfViewChanged(field_of_view) => vec![
            Work::SetFieldOfView(field_of_view),
            Work::ComputeTwistPose,
        ],
        Message::ScaleToDimension => if solution && picked_scale && dimension {
            vec![Work::ScaleToDimension]
        } else {
            Vec::new()
        },
        Message::OptimizeX => on_lines_only(facts, Work::OptimizeLines(LineAxes::X)),
        Message::PoseLambdaTwist => vec![Work::ComputeTwistPose],
        Message::OptimizeY => on_lines_only(facts, Work::OptimizeLines(LineAxes::Y)),
        Message::CalculatePoseUsingVanishingPoint => vanishing_point_pose_work(facts),
        Message::EditPoint(index, edit) => if index < 3 {
            vec![Work::EditPoint(index, edit)]
        } else {
            Vec::new()
        },
        Message::LoadImage => vec![Work::PickImage],
        Message::NoImage => Vec::new(),
        Message::LinesOptimized(ok) => if ok {
            on_lines_work(facts, Work::TakeOptimizedLines)
        } else {
            Vec::new()
        },
        Message::ImagePicked(picked) => match picked {
            Some(path) => {
                let mut work = Vec::new();
                let image = match facts.image {
                    Some(i) => i,
                    None => {
                        work.push(Work::CreateImageState);
                        fresh_image_facts(false)
                    },
                };
                work.push(Work::AddImage(path));
                let shown = WindowFacts { images: facts.images + 1, image: Some(image), ..facts };
                let mut select = select_image_work(shown, facts.images as u8);
                work.append(&mut select);
                work
            },
            None => Vec::new(),
        },
    }
}

/// The facts of a window opened on `images` images, given with or without the
/// real length of a scale reference: in the twist mode, showing the first image
/// if there is one.
pub open spec fn opened(images: usize, dimension: bool) -> WindowFacts {
    WindowFacts {
        mode: UiMod::Twist,
        images,
        image: if images > 0 {
            Some(fresh_image(dimension))
        } else {
            None
        },
    }
}

/// The work a window opened on `images` images starts with: reading the first
/// image with its drawing, if there is one.
pub open spec fn opening_work(images: usize) -> Seq<Work> {
    if images > 0 {
        seq![Work::ReadImage { with_drawing: true }]
    } else {
        Seq::empty()
    }
}

/// Opens the window on `images` images, given with or without the real length
/// of a scale reference: its facts and its first work.
pub fn open_window(images: usize, dimension: bool) -> (r: (WindowFacts, Vec<Work>))
    ensures
        r.0 == opened(images, dimension),
        r.1@ == opening_work(images),
{
    if images > 0 {
        let facts = WindowFacts {
            mode: UiMod::default(),
            images,
            image: Some(fresh_image_facts(dimension)),
        };
        (facts, vec![Work::ReadImage { with_drawing: true }])
    } else {
        (WindowFacts { mode: UiMod::default(), images, image: None }, Vec::new())
    }
}

/// An entry of the context menu of the canvas: its text and the message it
/// sends.
#[derive(Debug, Clone, PartialEq, Eq)]
pub struct MenuEntry {
    pub label: &'static str,
    pub message: Message,
}

/// The entries of the context menu in the mode `mode`, with the axes flipped as
/// `flip` says: the flip entries each turn one axis over.
pub open spec fn menu(mode: UiMod, flip: (bool, bool, bool)) -> Seq<(Seq<char>, Message)> {
    match mode {
        UiMod::Pose => seq![
            ("Perform calculations"@, Message::CalculatePoseUsingVanishingPoint),
            ("Apply Translation"@, Message::ApplyTranslation),
            ("Reset Translation"@, Message::ResetTranslation),
            ("Apply Scale"@, Message::ApplyScale),
            ("Apply Scale to Dimension"@, Message::ScaleToDimension),
            ("Reset Scale"@, Message::ResetScale),
            ("Flip X"@, Message::Flip(!flip.0, flip.1, flip.2)),
            ("Flip Y"@, Message::Flip(flip.0, !flip.1, flip.2)),
            ("Flip Z"@, Message::Flip(flip.0, flip.1, !flip.2)),
            ("Export Pose To FSpy"@, Message::ExportToFSpy),
            ("Save lines"@, Message::Save),
            ("Optimize"@, Message::Optimize),
            ("Optimize X axis"@, Message::OptimizeX),
            ("Optimize Y axis"@, Message::OptimizeY),
        ],
        UiMod::Twist => seq![
            ("Export Pose To FSpy"@, Message::ExportToFSpy),
            ("Save lines"@, Message::Save),
            ("Pose Lambda Twist"@, Message::PoseLambdaTwist),
        ],
    }
}

/// The text and message of a menu entry.
pub open spec fn entry_view(e: MenuEntry) -> (Seq<char>, Message) {
    (e.label@, e.message)
}

/// The entries of the context menu of the canvas in the mode `mode`, with the
/// axes flipped as `flip` says.
pub fn context_menu(mode: UiMod, flip: (bool, bool, bool)) -> (entries: Vec<MenuEntry>)
    ensures
        entries@.map_values(|e: MenuEntry| entry_view(e)) == menu(mode, flip),
{
    let (x, y, z) = flip;
    let entries = match mode {
        UiMod::Pose => vec![
            MenuEntry {
                label: "Perform calculations",
                message: Message::CalculatePoseUsingVanishingPoint,
            },
            MenuEntry { label: "Apply Translation", message: Message::ApplyTranslation },
            MenuEntry { label: "Reset Translation", message: Message::ResetTranslation },
            MenuEntry { label: "Apply Scale", message: Message::ApplyScale },
            MenuEntry { label: "Apply Scale to Dimension", message: Message::ScaleToDimension },
            MenuEntry { label: "Reset Scale", message: Message::ResetScale },
            MenuEntry { label: "Flip X", message: Message::Flip(!x, y, z) },
            MenuEntry { label: "Flip Y", message: Message::Flip(x, !y, z) },
            MenuEntry { label: "Flip Z", message: Message::Flip(x, y, !z) },
            MenuEntry { label: "Export Pose To FSpy", message: Message::ExportToFSpy },
            MenuEntry { label: "Save lines", message: Message::Save },
            MenuEntry { label: "Optimize", message: Message::Optimize },
            MenuEntry { label: "Optimize X axis", message: Message::OptimizeX },
            MenuEntry { label: "Optimize Y axis", message: Message::OptimizeY },
        ],
        UiMod::Twist => vec![
            MenuEntry { label: "Export Pose To FSpy", message: Message::ExportToFSpy },
            MenuEntry { label: "Save lines", message: Message::Save },
            MenuEntry { label: "Pose Lambda Twist", message: Message::PoseLambdaTwist },
        ],
    };
    entries
}

/// Messages whose work is on the vanishing lines of the shown image.
pub open spec fn works_on_lines(m: Message) -> bool {
    match m {
        Message::Save => true,
        Message::Flip(_, _, _) => true,
        Message::ApplyScale => true,
        Message::ResetScale => true,
        Message::ApplyTranslation => true,
        Message::ResetTranslation => true,
        Message::Optimize => true,
        Message::OptimizeX => true,
        Message::OptimizeY => true,
        Message::LinesOptimized(_) => true,
        Message::CalculatePoseUsingVanishingPoint => true,
        _ => false,
    }
}

/// Messages that change what the pose is computed from.
pub open spec fn changes_pose_inputs(m: Message) -> bool {
    works_on_lines(m) && !(m is Save) && !(m is Optimize) && !(m is OptimizeX) && !(
    m is OptimizeY)
}

/// The lines of an image are written to its points file only when it has them.
pub proof fn lemma_points_written_only_with_lines(f: WindowFacts, m: Message)
    requires
        handles(f, m),
    ensures
        window_work(f, m).contains(Work::WritePoints) ==> has_axis_data(f),
{
    broadcast use vstd::seq_lib::group_seq_properties;

    let w = window_work(f, m);
    if w.contains(Work::WritePoints) {
        let k = choose|k: int| 0 <= k < w.len() && w[k] == Work::WritePoints;
        assert(w[k] == Work::WritePoints);
        match m {
            Message::ImagePicked(Some(path)) => {
                let created: Seq<Work> = if f.image is None {
                    seq![Work::CreateImageState]
                } else {
                    Seq::empty()
                };
                let shown = with_added_image(f);
                assert(w == created + seq![Work::AddImage(path)] + select_image(
                    shown,
                    f.images as u8,
                ));
                assert(has_axis_data(shown) == has_axis_data(f));
            },
            _ => {},
        }
    }
}

/// A project is exported only when the shown image has a pose.
pub proof fn lemma_export_only_with_pose(f: WindowFacts, m: Message)
    requires
        handles(f, m),
    ensures
        window_work(f, m).contains(Work::ExportToFSpy) ==> has_solution(f),
{
    broadcast use vstd::seq_lib::group_seq_properties;

    let w = window_work(f, m);
    if w.contains(Work::ExportToFSpy) {
        let k = choose|k: int| 0 <= k < w.len() && w[k] == Work::ExportToFSpy;
        assert(w[k] == Work::ExportToFSpy);
        match m {
            Message::ImagePicked(Some(path)) => {
                let created: Seq<Work> = if f.image is None {
                    seq![Work::CreateImageState]
                } else {
                    Seq::empty()
                };
                assert(w == created + seq![Work::AddImage(path)] + select_image(
                    with_added_image(f),
                    f.images as u8,
                ));
            },
            _ => {},
        }
    }
}

/// Without vanishing lines, the messages on the lines do nothing.
pub proof fn lemma_nothing_without_lines(f: WindowFacts, m: Message)
    requires
        handles(f, m),
        works_on_lines(m),
        !has_axis_data(f),
    ensures
        window_work(f, m) == Seq::<Work>::empty(),
{
}

/// Every change of what the pose is computed from ends with computing the
/// pose anew, or does nothing.
pub proof fn lemma_pose_inputs_end_with_pose(f: WindowFacts, m: Message)
    requires
        handles(f, m),
        changes_pose_inputs(m),
    ensures
        window_work(f, m) == Seq::<Work>::empty() || window_work(f, m).last()
            == Work::ComputeVanishingPointPose,
{
}

/// Once an image is read, its pose is computed the way the mode of the window
/// does: from the vanishing lines in the pose mode, from the twist points in
/// the twist mode.
pub proof fn lemma_loading_computes_pose(f: WindowFacts, points_found: bool)
    requires
        handles(f, Message::LoadApplicationState { points_found }),
    ensures
        window_work(f, Message::LoadApplicationState { points_found })[0] == (Work::TakeLoadedState {
            points_found,
        }),
        window_work(f, Message::LoadApplicationState { points_found }).last() == (match f.mode {
            UiMod::Pose => Work::ComputeVanishingPointPose,
            UiMod::Twist => Work::ComputeTwistPose,
        }),
{
}

/// A change of mode computes the pose the way the new mode does: from the
/// twist points in the twist mode, from the vanishing lines, when there are
/// some, in the pose mode.
pub proof fn lemma_mode_change_computes_pose(f: WindowFacts, mode: UiMod)
    requires
        handles(f, Message::ChangeMode(mode)),
    ensures
        window_work(f, Message::ChangeMode(mode))[0] == Work::SetMode(mode),
        window_work(f, Message::ChangeMode(mode)).last() == (match mode {
            UiMod::Twist => Work::ComputeTwistPose,
            UiMod::Pose => if has_axis_data(f) {
                Work::ComputeVanishingPointPose
            } else {
                Work::SetMode(mode)
            },
        }),
{
}

/// Switching images saves the lines of the shown image first, when it has
/// some, then shows and reads the new one, keeping the drawing.
pub proof fn lemma_switching_saves_first(f: WindowFacts, index: u8)
    requires
        handles(f, Message::SelectImage(index)),
    ensures
        has_axis_data(f) ==> window_work(f, Message::SelectImage(index))[0] == Work::WritePoints,
        window_work(f, Message::SelectImage(index)).len() == if has_axis_data(f) {
            3int
        } else {
            2int
        },
        window_work(f, Message::SelectImage(index)).last() == (Work::ReadImage {
            with_drawing: false,
        }),
        window_work(f, Message::SelectImage(index))[window_work(f, Message::SelectImage(index)).len()
            - 2] == Work::ShowImage(index),
{
}

/// A picked image is added to the list and shown, as its last entry (its
/// index taken modulo 256); when no image was shown before, the window starts
/// showing images first and writes no lines.
pub proof fn lemma_picked_image_is_shown(f: WindowFacts, path: String)
    requires
        handles(f, Message::ImagePicked(Some(path))),
    ensures
        ({
            let w = window_work(f, Message::ImagePicked(Some(path)));
            &&& w.contains(Work::AddImage(path))
            &&& w[w.len() - 2] == Work::ShowImage(f.images as u8)
            &&& w.last() == (Work::ReadImage { with_drawing: false })
            &&& f.image is None ==> w[0] == Work::CreateImageState && !w.contains(
                Work::WritePoints,
            )
        }),
{
    broadcast use vstd::seq_lib::group_seq_properties;

    let w = window_work(f, Message::ImagePicked(Some(path)));
    let created: Seq<Work> = if f.image is None {
        seq![Work::CreateImageState]
    } else {
        Seq::empty()
    };
    let shown = with_added_image(f);
    assert(w == created + seq![Work::AddImage(path)] + select_image(shown, f.images as u8));
    assert(w[created.len() as int] == Work::AddImage(path));
    if f.image is None {
        assert(w =~= seq![
            Work::CreateImageState,
            Work::AddImage(path),
            Work::ShowImage(f.images as u8),
            Work::ReadImage { with_drawing: false },
        ]);
        if w.contains(Work::WritePoints) {
            let k = choose|k: int| 0 <= k < w.len() && w[k] == Work::WritePoints;
            assert(w[k] == Work::WritePoints);
        }
    }
}

/// The work of a picked image is only starting to show images, adding it, and
/// switching to it.
proof fn lemma_picked_image_work(f: WindowFacts, path: String, k: int)
    requires
        0 <= k < window_work(f, Message::ImagePicked(Some(path))).len(),
    ensures
        ({
            let w = window_work(f, Message::ImagePicked(Some(path)))[k];
            w is CreateImageState || w is AddImage || w is WritePoints || w is ShowImage
                || w is ReadImage
        }),
{
    let created: Seq<Work> = if f.image is None {
        seq![Work::CreateImageState]
    } else {
        Seq::empty()
    };
    let w = window_work(f, Message::ImagePicked(Some(path)));
    let tail = select_image(with_added_image(f), f.images as u8);
    assert(w == created + seq![Work::AddImage(path)] + tail);
    if k >= created.len() + 1 {
        assert(w[k] == tail[k - created.len() - 1]);
    }
}

/// Each setting of the shown image is changed only by its own message, and
/// with vanishing lines its message changes it: resetting the scale drops the
/// scale and nothing else, resetting the origin drops the origin, applying a
/// picked scale or origin applies that one, flipping sets the flips asked for,
/// optimizing optimizes the lines along the axes asked for, a mode change sets
/// that mode; the pose is exported only when asked to.
#[verifier::spinoff_prover]
#[verifier::rlimit(100)]
pub proof fn lemma_settings_change_on_their_own_message(f: WindowFacts, m: Message)
    requires
        handles(f, m),
    ensures
        window_work(f, m).contains(Work::ResetScale) <==> (m is ResetScale && has_axis_data(f)),
        window_work(f, m).contains(Work::ResetTranslation) <==> (m is ResetTranslation
            && has_axis_data(f)),
        window_work(f, m).contains(Work::ApplyScale) <==> (m is ApplyScale && has_picked_scale(f)),
        window_work(f, m).contains(Work::ApplyTranslation) <==> (m is ApplyTranslation
            && has_picked_translation(f)),
        window_work(f, m).contains(Work::ScaleToDimension) <==> (m is ScaleToDimension
            && has_solution(f) && has_picked_scale(f) && has_dimension(f)),
        window_work(f, m).contains(Work::ExportToFSpy) <==> (m is ExportToFSpy && has_solution(f)),
        forall|x: bool, y: bool, z: bool|
            #[trigger] window_work(f, m).contains(Work::SetFlip(x, y, z)) <==> (m == Message::Flip(
                x,
                y,
                z,
            ) && has_axis_data(f)),
        window_work(f, m).contains(Work::OptimizeLines(LineAxes::All)) <==> (m is Optimize
            && has_axis_data(f)),
        window_work(f, m).contains(Work::OptimizeLines(LineAxes::X)) <==> (m is OptimizeX
            && has_axis_data(f)),
        window_work(f, m).contains(Work::OptimizeLines(LineAxes::Y)) <==> (m is OptimizeY
            && has_axis_data(f)),
        forall|mode: UiMod|
            #[trigger] window_work(f, m).contains(Work::SetMode(mode)) <==> m == Message::ChangeMode(
                mode,
            ),
{
    broadcast use vstd::seq_lib::group_seq_properties;

    let w = window_work(f, m);
    match m {
        Message::ImagePicked(Some(path)) => {
            assert forall|x: Work| w.contains(x) implies (x is CreateImageState || x is AddImage
                || x is WritePoints || x is ShowImage || x is ReadImage) by {
                let k = choose|k: int| 0 <= k < w.len() && w[k] == x;
                lemma_picked_image_work(f, path, k);
            }
        },
        _ => {
            assert forall|x: Work| w.contains(x) implies exists|k: int|
                0 <= k < w.len() && w[k] == x by {}
            if w.len() > 0 {
                assert(w.contains(w[0]));
            }
            if w.len() > 1 {
                assert(w.contains(w[1]));
            }
        },
    }
}

} // verus!
