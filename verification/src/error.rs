use vstd::prelude::*;
use crate::domain::toolpath::PatternParameters;

verus! {

/// Why a circular pattern cannot be laid out.
#[derive(Debug, Clone, Copy, PartialEq, Eq, Structural)]
pub enum PatternError {
    /// Both diameter and radius are given and they disagree.
    InconsistentSize,
    /// Neither diameter nor radius is given.
    MissingSize,
    /// Both a count and an angle step are given.
    CountAndStep,
    /// The count is zero.
    ZeroCount,
    /// The angle step is zero.
    ZeroStep,
    /// Neither a count nor an angle step is given.
    MissingCountOrStep,
}

/// Everything that can go wrong between a job and its NC program.
#[derive(Debug, Clone, PartialEq, Eq)]
pub enum ChipmunkError {
    /// A circular pattern is ill-formed.
    Pattern(PatternError),
    /// The operation cannot be carried out on this pattern (yet).
    PatternNotImplemented(PatternParameters),
    /// The general drilling strategy is not available (yet).
    GeneralDrillingNotImplemented,
    /// An operation does not give its tool number.
    MissingToolNumber,
    /// An operation does not give its spindle speed.
    MissingSpindleSpeed,
    /// The job defines no operation.
    NoOperations,
    /// The post-processor gave back no value at all.
    PostprocessorNoValue,
    /// The post-processor reported an error, with this message.
    PostprocessorFailed(String),
    /// The post-processor gave back a value of this (Lua) type instead of a string.
    PostprocessorUnexpectedType(String),
}

impl PatternError {
    /// What the error says to the user.
    pub open spec fn spec_message(self) -> Seq<char> {
        match self {
            PatternError::InconsistentSize => "Circular pattern: diameter and radius are inconsistent"@,
            PatternError::MissingSize => "Circular pattern: must specify diameter or radius"@,
            PatternError::CountAndStep => "Circular pattern: specify count or angle_step, not both"@,
            PatternError::ZeroCount => "Circular pattern: count must not be zero"@,
            PatternError::ZeroStep => "Circular pattern: angle_step must not be zero"@,
            PatternError::MissingCountOrStep => "Circular pattern: must specify count or angle_step"@,
        }
    }

    /// What the error says to the user (see [`PatternError::spec_message`]).
    pub fn message(&self) -> (r: String)
        ensures
            r@ == self.spec_message(),
    {
        match self {
            PatternError::InconsistentSize => String::from_str(
                "Circular pattern: diameter and radius are inconsistent",
            ),
            PatternError::MissingSize => String::from_str(
                "Circular pattern: must specify diameter or radius",
            ),
            PatternError::CountAndStep => String::from_str(
                "Circular pattern: specify count or angle_step, not both",
            ),
            PatternError::ZeroCount => String::from_str("Circular pattern: count must not be zero"),
            PatternError::ZeroStep => String::from_str(
                "Circular pattern: angle_step must not be zero",
            ),
            PatternError::MissingCountOrStep => String::from_str(
                "Circular pattern: must specify count or angle_step",
            ),
        }
    }
}

impl ChipmunkError {
    /// What the error says to the user, where `pattern` is how the pattern
    /// of a [`ChipmunkError::PatternNotImplemented`] is written (its numbers
    /// are written in floating point, which the library does not hold);
    /// other errors do not use it.
    pub open spec fn spec_message(self, pattern: Seq<char>) -> Seq<char> {
        match self {
            ChipmunkError::Pattern(e) => e.spec_message(),
            ChipmunkError::PatternNotImplemented(_) => "Drilling pattern "@ + pattern
                + " not implemented yet!"@,
            ChipmunkError::GeneralDrillingNotImplemented => "General drilling not implemented yet!"@,
            ChipmunkError::MissingToolNumber => "Operation is missing its tool_number"@,
            ChipmunkError::MissingSpindleSpeed => "Operation is missing its spindle_speed"@,
            ChipmunkError::NoOperations => "No operations defined"@,
            ChipmunkError::PostprocessorNoValue => "Postprocessor returned no values"@,
            ChipmunkError::PostprocessorFailed(message) => message@,
            ChipmunkError::PostprocessorUnexpectedType(kind) => "Postprocessor returned unexpected type: "@
                + kind@,
        }
    }

    /// What the error says to the user, with `pattern` written for the
    /// pattern of a [`ChipmunkError::PatternNotImplemented`] (see
    /// [`ChipmunkError::spec_message`]).
    pub fn message(&self, pattern: &str) -> (r: String)
        ensures
            r@ == self.spec_message(pattern@),
    {
        match self {
            ChipmunkError::Pattern(e) => e.message(),
            ChipmunkError::PatternNotImplemented(_) => {
                let mut text = String::from_str("Drilling pattern ");
                text.append(pattern);
                text.append(" not implemented yet!");
                text
            },
            ChipmunkError::GeneralDrillingNotImplemented => String::from_str(
                "General drilling not implemented yet!",
            ),
            ChipmunkError::MissingToolNumber => String::from_str("Operation is missing its tool_number"),
            ChipmunkError::MissingSpindleSpeed => String::from_str(
                "Operation is missing its spindle_speed",
            ),
            ChipmunkError::NoOperations => String::from_str("No operations defined"),
            ChipmunkError::PostprocessorNoValue => String::from_str("Postprocessor returned no values"),
            ChipmunkError::PostprocessorFailed(message) => message.clone(),
            ChipmunkError::PostprocessorUnexpectedType(kind) => {
                let mut text = String::from_str("Postprocessor returned unexpected type: ");
                text.append(kind.as_str());
                text
            },
        }
    }
}

} // verus!
