//! The text fields in which the user types the world coordinates of a point.
use vstd::prelude::*;

verus! {

/// An edit of one of the three fields: the field (1 for x, 2 for y, 3 for z)
/// and its new text.
#[derive(Debug, Clone, PartialEq, Eq)]
pub enum Message {
    InternalEdit(usize, String),
}

/// The labelled x, y and z text fields of one point.
pub struct EditorComponent {
    label: &'static str,
    value_x: String,
    value_y: String,
    value_z: String,
}

impl EditorComponent {
    /// The label shown before the fields.
    pub closed spec fn spec_label(&self) -> Seq<char> {
        self.label@
    }

    /// The texts of the x, y and z fields.
    pub closed spec fn spec_values(&self) -> (Seq<char>, Seq<char>, Seq<char>) {
        (self.value_x@, self.value_y@, self.value_z@)
    }

    /// Fields labelled `label` that hold the given texts.
    pub fn with_values(label: &'static str, value_x: String, value_y: String, value_z: String) -> (e:
        Self)
        ensures
            e.spec_label() == label@,
            e.spec_values() == (value_x@, value_y@, value_z@),
    {
        EditorComponent { label, value_x, value_y, value_z }
    }

    /// The label.
    pub fn label(&self) -> (l: &'static str)
        ensures
            l@ == self.spec_label(),
    {
        self.label
    }

    /// The text of the x field.
    pub fn value_x(&self) -> (v: &str)
        ensures
            v@ == self.spec_values().0,
    {
        self.value_x.as_str()
    }

    /// The text of the y field.
    pub fn value_y(&self) -> (v: &str)
        ensures
            v@ == self.spec_values().1,
    {
        self.value_y.as_str()
    }

    /// The text of the z field.
    pub fn value_z(&self) -> (v: &str)
        ensures
            v@ == self.spec_values().2,
    {
        self.value_z.as_str()
    }

    /// Applies an edit; see [`EditorComponent::handle_update`].
    pub fn update(&mut self, message: Message) -> (edited: bool)
        ensures
            ({
                let Message::InternalEdit(component, input) = message;
                &&& edited == (1 <= component <= 3)
                &&& final(self).spec_label() == old(self).spec_label()
                &&& final(self).spec_values() == edit_values(
                    old(self).spec_values(),
                    component,
                    input@,
                )
            }),
    {
        match message {
            Message::InternalEdit(component, input) => self.handle_update(component, input),
        }
    }

    /// Stores `input` as the text of field `component` (1 for x, 2 for y, 3 for
    /// z) and says whether there was such a field; other numbers change nothing.
    /// A point results from the edit when a field was edited and all three texts
    /// are numbers.
    pub fn handle_update(&mut self, component: usize, input: String) -> (edited: bool)
        ensures
            edited == (1 <= component <= 3),
            final(self).spec_label() == old(self).spec_label(),
            final(self).spec_values() == edit_values(old(self).spec_values(), component, input@),
    {
        match component {
            1 => {
                self.value_x = input;
                true
            },
            2 => {
                self.value_y = input;
                true
            },
            3 => {
                self.value_z = input;
                true
            },
            _ => false,
        }
    }
}

/// The texts of the three fields after field `component` is set to `input`.
pub open spec fn edit_values(
    values: (Seq<char>, Seq<char>, Seq<char>),
    component: usize,
    input: Seq<char>,
) -> (Seq<char>, Seq<char>, Seq<char>) {
    if component == 1 {
        (input, values.1, values.2)
    } else if component == 2 {
        (values.0, input, values.2)
    } else if component == 3 {
        (values.0, values.1, input)
    } else {
        values
    }
}

} // verus!
