//! Typed errors for the layout protocol, percentage validation and style
//! bookkeeping. Presentation (driver) failures are not represented here: they
//! are swallowed by the driver layer and never propagate into the core.

use vstd::prelude::*;

verus! {

/// The invariant that a failed builder/API call violated.
#[derive(Copy, Clone, PartialEq, Eq, Structural, Debug)]
pub enum LayoutErrorType {
    /// `area_start` was called while boxes were still open.
    MismatchedAreaStart,
    /// `area_end` was called while boxes were still open.
    MismatchedAreaEnd,
    /// `box_end` was called with no box open.
    MismatchedBoxEnd,
    /// An operation that needs an open box found the stack empty.
    StackShouldNotBeEmpty,
    /// A percentage was outside `[0, 100]`.
    InvalidPercentage,
    /// The container's box cursor had to be advanced but was unset.
    ErrorCalculatingNextBoxPos,
    /// A child box was requested inside a container whose box cursor is unset.
    BoxCursorPositionUndefined,
    /// A style with an empty id was inserted into a stylesheet.
    EmptyStyleId,
}

/// Error value carried by every fallible call of the core.
#[derive(Copy, Clone, PartialEq, Eq, Structural, Debug)]
pub struct LayoutError {
    pub err_type: LayoutErrorType,
}

impl LayoutError {
    pub fn new(err_type: LayoutErrorType) -> (r: LayoutError)
        ensures
            r.err_type == err_type,
    {
        LayoutError { err_type }
    }

    /// A human-readable diagnostic naming exactly the violated invariant.
    pub fn message(&self) -> (r: &'static str)
        ensures
            self.err_type == LayoutErrorType::MismatchedAreaStart ==> r@
                == "area_start called while the stack of boxes is not empty"@,
            self.err_type == LayoutErrorType::MismatchedAreaEnd ==> r@
                == "area_end called while the stack of boxes is not empty"@,
            self.err_type == LayoutErrorType::MismatchedBoxEnd ==> r@
                == "box_end called with an empty stack of boxes"@,
            self.err_type == LayoutErrorType::StackShouldNotBeEmpty ==> r@
                == "operation requires an open box but the stack is empty"@,
            self.err_type == LayoutErrorType::InvalidPercentage ==> r@
                == "percentage value outside the range 0 to 100"@,
            self.err_type == LayoutErrorType::ErrorCalculatingNextBoxPos ==> r@
                == "box cursor position must be set before it can be advanced"@,
            self.err_type == LayoutErrorType::BoxCursorPositionUndefined ==> r@
                == "container box has no box cursor position"@,
            self.err_type == LayoutErrorType::EmptyStyleId ==> r@ == "style id cannot be empty"@,
    {
        match self.err_type {
            LayoutErrorType::MismatchedAreaStart => "area_start called while the stack of boxes is not empty",
            LayoutErrorType::MismatchedAreaEnd => "area_end called while the stack of boxes is not empty",
            LayoutErrorType::MismatchedBoxEnd => "box_end called with an empty stack of boxes",
            LayoutErrorType::StackShouldNotBeEmpty => "operation requires an open box but the stack is empty",
            LayoutErrorType::InvalidPercentage => "percentage value outside the range 0 to 100",
            LayoutErrorType::ErrorCalculatingNextBoxPos => "box cursor position must be set before it can be advanced",
            LayoutErrorType::BoxCursorPositionUndefined => "container box has no box cursor position",
            LayoutErrorType::EmptyStyleId => "style id cannot be empty",
        }
    }
}

/// Result type used across the core.
pub type CommonResult<T> = Result<T, LayoutError>;

} // verus!
