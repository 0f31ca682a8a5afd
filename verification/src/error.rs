//! Errors of a tool call.

use vstd::prelude::*;

verus! {

/// Why a tool call was refused or failed before it had a result.
#[derive(Debug, PartialEq, Eq)]
pub enum ToolError {
    /// Something went wrong on this side.
    Internal(String),
    /// The request cannot be served as it stands.
    InvalidParams(String),
}

/// What a [`ToolError`] says.
pub enum ErrorView {
    Internal(Seq<char>),
    InvalidParams(Seq<char>),
}

impl View for ToolError {
    type V = ErrorView;

    open spec fn view(&self) -> ErrorView {
        match self {
            ToolError::Internal(m) => ErrorView::Internal(m@),
            ToolError::InvalidParams(m) => ErrorView::InvalidParams(m@),
        }
    }
}

/// The model of an error tells its sort and its message.
pub proof fn error_model_is_the_error(message: String)
    ensures
        ToolError::Internal(message)@ == ErrorView::Internal(message@),
        ToolError::InvalidParams(message)@ == ErrorView::InvalidParams(message@),
{
}

} // verus!
