use vstd::prelude::*;
use crate::domain::toolpath::{Locations, ToolpathSegment, SegmentView, rapids_at, rapids_to};
use crate::error::ChipmunkError;
use crate::nc::compiler::{single_block_blocks, single_block_program};
use crate::nc::ir::{NCBlock, BlockView};
use crate::operations::{CommonView, OperationCommon, OperationType};

verus! {

/// Drilling by hand with the quill, one location at a time, the machine
/// stopping over each location.
#[derive(Debug, Clone)]
pub struct Quill {
    pub locations: Locations,
}

/// The note to the operator of a quill drilling program.
pub open spec fn quill_note() -> Seq<char> {
    "ENABLE SINGLE BLOCK MODE FOR QUILL DRILLING"@
}

impl OperationType for Quill {
    open spec fn wf(&self) -> bool {
        true
    }

    /// A rapid move at clearance height to each point; patterns are not
    /// supported, and the error names the pattern.
    open spec fn spec_generate(&self, common: CommonView) -> Result<Seq<SegmentView>, ChipmunkError> {
        match self.locations {
            Locations::Points { points } => Ok(rapids_at(points@, common.clearance)),
            Locations::Pattern { pattern } => Err(ChipmunkError::PatternNotImplemented(pattern.spec_parameters())),
        }
    }

    /// The single-block program of [`single_block_blocks`] with the quill
    /// drilling note.
    open spec fn spec_compile(
        &self,
        common: CommonView,
        segments: Seq<SegmentView>,
    ) -> Result<Seq<BlockView>, ChipmunkError> {
        Ok(single_block_blocks(common.tool, common.clearance, quill_note(), segments))
    }

    fn generate(&self, common: &OperationCommon) -> (r: Result<Vec<ToolpathSegment>, ChipmunkError>) {
        match &self.locations {
            Locations::Points { points } => Ok(rapids_to(points.as_slice(), common.clearance)),
            Locations::Pattern { pattern } => Err(ChipmunkError::PatternNotImplemented(pattern.parameters())),
        }
    }

    fn compile(&self, common: &OperationCommon, segments: &[ToolpathSegment]) -> (r: Result<
        Vec<NCBlock>,
        ChipmunkError,
    >) {
        Ok(
            single_block_program(
                &common.tool,
                common.clearance,
                "ENABLE SINGLE BLOCK MODE FOR QUILL DRILLING",
                segments,
            ),
        )
    }
}

} // verus!
