//! The errors that the runtime reports.

use vstd::prelude::*;
use vstd::string::StringExecFns;

verus! {

/// An error of the runtime. Each variant carries the text that completes its message.
#[derive(Debug, Clone, PartialEq, Eq)]
pub enum NyanError {
    /// An object could not be drawn; the payload names what failed.
    DrawFailed(String),
    /// The terminal driver refused a cursor move; the payload is its reason.
    Cursor(String),
    /// No object is registered under the identifier in the payload.
    ObjectNotFound(String),
}

/// The mathematical value of a [`NyanError`]: the variant with its payload as characters.
pub ghost enum ErrorModel {
    DrawFailed(Seq<char>),
    Cursor(Seq<char>),
    ObjectNotFound(Seq<char>),
}

impl View for NyanError {
    type V = ErrorModel;

    open spec fn view(&self) -> ErrorModel {
        match self {
            NyanError::DrawFailed(s) => ErrorModel::DrawFailed(s@),
            NyanError::Cursor(s) => ErrorModel::Cursor(s@),
            NyanError::ObjectNotFound(s) => ErrorModel::ObjectNotFound(s@),
        }
    }
}

/// The message of an error, as characters.
pub open spec fn message_of(e: ErrorModel) -> Seq<char> {
    match e {
        ErrorModel::DrawFailed(s) => "Failed to draw "@ + s,
        ErrorModel::Cursor(s) => "Failed to move cursor: "@ + s,
        ErrorModel::ObjectNotFound(s) => "Object with ID \""@ + s + "\" is not found"@,
    }
}

impl NyanError {
    /// The human-readable message of this error.
    pub fn message(&self) -> (text: String)
        ensures
            text@ == message_of(self@),
    {
        match self {
            NyanError::DrawFailed(s) => String::from_str("Failed to draw ").concat(s.as_str()),
            NyanError::Cursor(s) => String::from_str("Failed to move cursor: ").concat(s.as_str()),
            NyanError::ObjectNotFound(s) => String::from_str("Object with ID \"").concat(
                s.as_str(),
            ).concat("\" is not found"),
        }
    }

    /// The error for an identifier under which nothing is registered.
    pub fn not_found(id: &str) -> (e: NyanError)
        ensures
            e@ == ErrorModel::ObjectNotFound(id@),
    {
        NyanError::ObjectNotFound(String::from_str(id))
    }
}

} // verus!
