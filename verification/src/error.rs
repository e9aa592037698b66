//! What can go wrong: recoverable errors of construction and fatal errors of
//! execution.

use vstd::prelude::*;
use crate::resource::ResourceKind;

verus! {

/// Why the numeric part of a size string is not a number of the target width.
#[derive(Debug, Clone, Copy, PartialEq, Eq, Structural)]
pub enum NumericErrorKind {
    /// There is no character before the suffix.
    Empty,
    /// Some character before the suffix is not an ASCII digit.
    InvalidDigit,
    /// Only digits, but the number does not fit in 64 bits.
    Overflow,
}

/// A recoverable error: the request is refused before anything is executed.
#[derive(Debug, Clone, PartialEq, Eq)]
pub enum ResourceError {
    /// A strategy was asked to build itself from a request of the other kind.
    WrongResourceKind { expected: ResourceKind, found: ResourceKind },
    /// The size string does not end in one of `B`, `K`, `M`, `G`.
    InvalidSuffix,
    /// What stands before the suffix is not a number; `text` is that part.
    InvalidNumericValue { text: String, kind: NumericErrorKind },
}

/// The mathematical content of a `ResourceError`.
pub enum ResourceErrorView {
    WrongResourceKind { expected: ResourceKind, found: ResourceKind },
    InvalidSuffix,
    InvalidNumericValue { text: Seq<char>, kind: NumericErrorKind },
}

impl View for ResourceError {
    type V = ResourceErrorView;

    open spec fn view(&self) -> ResourceErrorView {
        match *self {
            ResourceError::WrongResourceKind { expected, found } => {
                ResourceErrorView::WrongResourceKind { expected, found }
            },
            ResourceError::InvalidSuffix => ResourceErrorView::InvalidSuffix,
            ResourceError::InvalidNumericValue { text, kind } => {
                ResourceErrorView::InvalidNumericValue { text: text@, kind }
            },
        }
    }
}

/// A fatal error: execution stops at once, and nothing is retried.
#[derive(Debug, Clone, Copy, PartialEq, Eq, Structural)]
pub enum ExecutionError {
    /// The block cannot be had: no block of this machine holds that many
    /// bytes, or the allocator handed none out.
    AllocationFailure,
    /// Zero bytes were asked for.
    ZeroSizeAllocation,
    /// A worker unit ended abnormally.
    WorkerPanic,
    /// Two worker units reported different results for the same workload.
    ResultInconsistency,
}

impl NumericErrorKind {
    /// The words that describe the failure.
    pub open spec fn description(self) -> Seq<char> {
        match self {
            NumericErrorKind::Empty => "cannot parse integer from empty string"@,
            NumericErrorKind::InvalidDigit => "invalid digit found in string"@,
            NumericErrorKind::Overflow => "number too large to fit in target type"@,
        }
    }

    /// The description as text.
    pub fn message(&self) -> (m: &'static str)
        ensures
            m@ == self.description(),
    {
        match self {
            NumericErrorKind::Empty => "cannot parse integer from empty string",
            NumericErrorKind::InvalidDigit => "invalid digit found in string",
            NumericErrorKind::Overflow => "number too large to fit in target type",
        }
    }
}

impl ResourceErrorView {
    /// The words that describe the error.
    pub open spec fn description(self) -> Seq<char> {
        match self {
            ResourceErrorView::WrongResourceKind { expected, found } => "Expected "@
                + expected.label() + " resource, got "@ + found.label() + " resource"@,
            ResourceErrorView::InvalidSuffix => "Invalid memory size suffix. Use B, K, M, or G."@,
            ResourceErrorView::InvalidNumericValue { text, kind } => "Failed to parse memory size '"@
                + text + "': "@ + kind.description(),
        }
    }
}

impl ResourceError {
    /// The description of the error, for the diagnostics stream.
    pub fn message(&self) -> (m: String)
        ensures
            m@ == self@.description(),
    {
        match self {
            ResourceError::WrongResourceKind { expected, found } => {
                let mut m = String::from_str("Expected ");
                m.append(expected.name());
                m.append(" resource, got ");
                m.append(found.name());
                m.append(" resource");
                m
            },
            ResourceError::InvalidSuffix => String::from_str(
                "Invalid memory size suffix. Use B, K, M, or G.",
            ),
            ResourceError::InvalidNumericValue { text, kind } => {
                let mut m = String::from_str("Failed to parse memory size '");
                m.append(text.as_str());
                m.append("': ");
                m.append(kind.message());
                m
            },
        }
    }
}

impl ExecutionError {
    /// The words that describe the error.
    pub open spec fn description(self) -> Seq<char> {
        match self {
            ExecutionError::AllocationFailure => "Memory allocation failed"@,
            ExecutionError::ZeroSizeAllocation => "Memory size must be greater than 0"@,
            ExecutionError::WorkerPanic => "Thread panicked"@,
            ExecutionError::ResultInconsistency => "Inconsistent results from threads"@,
        }
    }

    /// The description as text.
    pub fn message(&self) -> (m: &'static str)
        ensures
            m@ == self.description(),
    {
        match self {
            ExecutionError::AllocationFailure => "Memory allocation failed",
            ExecutionError::ZeroSizeAllocation => "Memory size must be greater than 0",
            ExecutionError::WorkerPanic => "Thread panicked",
            ExecutionError::ResultInconsistency => "Inconsistent results from threads",
        }
    }
}

} // verus!
