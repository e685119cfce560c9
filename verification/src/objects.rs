//! The drawable objects and what drawing one of them emits.

use vstd::prelude::*;
use vstd::string::StringExecFns;
use crate::cursor::Cursor;
use crate::errors::{ErrorModel, NyanError};

verus! {

/// A drawable object.
#[derive(Debug, Clone, PartialEq, Eq, Hash)]
pub enum Objects {
    /// A block. Drawing blocks is not implemented: an attempt fails.
    Block,
    /// An object without visible effect.
    Air,
    /// A line of text.
    Text(String),
}

/// The mathematical value of an [`Objects`].
pub ghost enum ObjectModel {
    Block,
    Air,
    Text(Seq<char>),
}

impl View for Objects {
    type V = ObjectModel;

    open spec fn view(&self) -> ObjectModel {
        match self {
            Objects::Block => ObjectModel::Block,
            Objects::Air => ObjectModel::Air,
            Objects::Text(t) => ObjectModel::Text(t@),
        }
    }
}

/// What one draw emits: an optional cursor movement, then an optional line of output.
#[derive(Debug, Clone, PartialEq, Eq)]
pub struct DrawPlan {
    /// The movement to perform first, if any.
    pub cursor: Option<Cursor>,
    /// The text to print after the movement, followed by a line break, if any.
    pub line: Option<String>,
}

/// The mathematical value of a [`DrawPlan`].
pub ghost struct DrawPlanModel {
    pub cursor: Option<Cursor>,
    pub line: Option<Seq<char>>,
}

impl View for DrawPlan {
    type V = DrawPlanModel;

    open spec fn view(&self) -> DrawPlanModel {
        DrawPlanModel {
            cursor: self.cursor,
            line: match self.line {
                Some(t) => Some(t@),
                None => None,
            },
        }
    }
}

/// The view of a draw's outcome.
pub open spec fn outcome_view(r: Result<DrawPlan, NyanError>) -> Result<DrawPlanModel, ErrorModel> {
    match r {
        Ok(plan) => Ok(plan@),
        Err(e) => Err(e@),
    }
}

/// What drawing `object`, registered under `id`, emits after the movement `cursor`.
///
/// Text is printed as one line and air emits nothing beyond the movement. A
/// block cannot be drawn: the attempt fails with an error that names `id`,
/// and emits nothing.
pub open spec fn render(id: Seq<char>, object: ObjectModel, cursor: Option<Cursor>) -> Result<
    DrawPlanModel,
    ErrorModel,
> {
    match object {
        ObjectModel::Text(t) => Ok(DrawPlanModel { cursor, line: Some(t) }),
        ObjectModel::Air => Ok(DrawPlanModel { cursor, line: None }),
        ObjectModel::Block => Err(ErrorModel::DrawFailed(id)),
    }
}

impl Objects {
    /// The text that describes an object: its kind, and the content of a text.
    pub open spec fn described(object: ObjectModel) -> Seq<char> {
        match object {
            ObjectModel::Air => "Objects::Air"@,
            ObjectModel::Block => "Objects::Block"@,
            ObjectModel::Text(t) => "Objects::Text("@ + t + ")"@,
        }
    }

    /// Describes this object, as in `Objects::Text(hi)`.
    pub fn describe(&self) -> (text: String)
        ensures
            text@ == Objects::described(self@),
    {
        match self {
            Objects::Air => String::from_str("Objects::Air"),
            Objects::Block => String::from_str("Objects::Block"),
            Objects::Text(t) => String::from_str("Objects::Text(").concat(t.as_str()).concat(")"),
        }
    }

    /// A text object with the given content.
    pub fn new_text(text: &str) -> (object: Objects)
        ensures
            object@ == ObjectModel::Text(text@),
    {
        Objects::Text(String::from_str(text))
    }

    /// Decides what drawing this object, registered under `id`, emits after
    /// the movement `cursor`.
    pub fn draw(&self, id: &str, cursor: Option<Cursor>) -> (r: Result<DrawPlan, NyanError>)
        ensures
            outcome_view(r) == render(id@, self@, cursor),
    {
        match self {
            Objects::Text(t) => Ok(DrawPlan { cursor, line: Some(t.clone()) }),
            Objects::Air => Ok(DrawPlan { cursor, line: None }),
            Objects::Block => Err(NyanError::DrawFailed(String::from_str(id))),
        }
    }
}

/// What drawing the object registered under `id` in `registry` emits after
/// the movement `cursor`: nothing can be drawn that is not registered.
pub open spec fn drawn(
    registry: Map<Seq<char>, ObjectModel>,
    id: Seq<char>,
    cursor: Option<Cursor>,
) -> Result<DrawPlanModel, ErrorModel> {
    if registry.contains_key(id) {
        render(id, registry[id], cursor)
    } else {
        Err(ErrorModel::ObjectNotFound(id))
    }
}

} // verus!
