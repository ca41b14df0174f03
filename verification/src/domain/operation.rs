use vstd::prelude::*;
use crate::domain::postprocessors::PostprocessorCapabilities;
use crate::domain::tool::Tool;
use crate::domain::toolpath::Pattern;

pub use crate::nc::compiler::process_drilling;

verus! {

/// How holes are drilled: by hand with the quill in single block mode, or
/// by the machine.
#[derive(Debug, Clone, Copy, PartialEq, Eq, Structural)]
pub enum DrillStrategy {
    Manual,
    General,
}

/// What a drilling operation is given: its strategy and its points.
#[derive(Debug, Clone)]
pub struct DrillParams {
    pub strategy: DrillStrategy,
    pub points: Vec<[i64; 2]>,
}

/// Where an operation works: at given points, or on a pattern.
#[derive(Debug, Clone)]
pub enum OperationLocations {
    Points { points: Vec<[i64; 2]> },
    Pattern { pattern: Pattern },
}

/// The kinds of machining.
#[derive(Debug, Clone, Copy, PartialEq, Eq, Structural)]
pub enum OperationType {
    Drilling,
    Milling,
}

impl OperationType {
    /// The name of the kind of machining.
    pub open spec fn spec_name(self) -> Seq<char> {
        match self {
            OperationType::Drilling => "Drilling"@,
            OperationType::Milling => "Milling"@,
        }
    }

    /// The name of the kind of machining: `"Drilling"` or `"Milling"`.
    pub fn name(&self) -> (r: String)
        ensures
            r@ == self.spec_name(),
    {
        match self {
            OperationType::Drilling => String::from_str("Drilling"),
            OperationType::Milling => String::from_str("Milling"),
        }
    }
}

/// An operation with its tool, the clearance height of the job, the
/// capabilities of the post-processor and its locations.
#[derive(Debug)]
pub struct Operation<'a> {
    pub name: String,
    pub operation_type: OperationType,
    pub tool: Tool,
    pub global_clearance: i64,
    pub capabilities: &'a PostprocessorCapabilities,
    pub locations: &'a OperationLocations,
}

} // verus!
