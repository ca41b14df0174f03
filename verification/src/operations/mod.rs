pub mod drill;
pub mod quill;

use vstd::prelude::*;
use crate::domain::postprocessors::PostprocessorCapabilities;
use crate::domain::tool::{Tool, ToolView};
use crate::domain::toolpath::{ToolpathSegment, SegmentView, segments_view};
use crate::error::ChipmunkError;
use crate::nc::ir::{NCBlock, BlockView, blocks_view};
use drill::Drill;
use quill::Quill;

verus! {

/// An operation of a job: what every operation has, and what kind it is.
pub struct Operation<'a> {
    pub common: OperationCommon<'a>,
    pub kind: OperationVariant,
}

/// What every operation has: a name, a tool, the capabilities of the
/// post-processor, and the clearance height for rapid moves.
pub struct OperationCommon<'a> {
    pub name: String,
    pub tool: Tool,
    pub capabilities: &'a PostprocessorCapabilities,
    pub clearance: i64,
}

/// An [`OperationCommon`] with its texts taken as character sequences and
/// the capabilities by their view.
pub struct CommonView {
    pub name: Seq<char>,
    pub tool: ToolView,
    pub capabilities: Map<Seq<char>, Seq<Seq<char>>>,
    pub clearance: i64,
}

impl<'a> View for OperationCommon<'a> {
    type V = CommonView;

    open spec fn view(&self) -> CommonView {
        CommonView {
            name: self.name@,
            tool: self.tool@,
            capabilities: self.capabilities@,
            clearance: self.clearance,
        }
    }
}

/// The kinds of operation.
pub enum OperationVariant {
    Quill(Quill),
    Drill(Drill),
}

impl OperationVariant {
    /// The operation's own data is within the limits it needs.
    pub open spec fn wf(self) -> bool {
        match self {
            OperationVariant::Quill(q) => q.wf(),
            OperationVariant::Drill(d) => d.wf(),
        }
    }

    /// The NC blocks of an operation of this kind with `common`: its tool
    /// path, compiled; or the first error on the way.
    pub open spec fn spec_blocks(self, common: CommonView) -> Result<Seq<BlockView>, ChipmunkError> {
        match self {
            OperationVariant::Quill(q) => match q.spec_generate(common) {
                Ok(segments) => q.spec_compile(common, segments),
                Err(e) => Err(e),
            },
            OperationVariant::Drill(d) => match d.spec_generate(common) {
                Ok(segments) => d.spec_compile(common, segments),
                Err(e) => Err(e),
            },
        }
    }
}

/// A result of segments, by their views.
pub open spec fn segments_result(r: Result<Vec<ToolpathSegment>, ChipmunkError>) -> Result<
    Seq<SegmentView>,
    ChipmunkError,
> {
    match r {
        Ok(v) => Ok(segments_view(v@)),
        Err(e) => Err(e),
    }
}

/// A result of blocks, by their views.
pub open spec fn blocks_result(r: Result<Vec<NCBlock>, ChipmunkError>) -> Result<
    Seq<BlockView>,
    ChipmunkError,
> {
    match r {
        Ok(v) => Ok(blocks_view(v@)),
        Err(e) => Err(e),
    }
}

/// A kind of operation: it generates a tool path, then compiles a tool path
/// into NC blocks.
pub trait OperationType {
    /// The operation's own data is within the limits it needs.
    spec fn wf(&self) -> bool;

    /// The tool path the operation generates, or why it cannot.
    spec fn spec_generate(&self, common: CommonView) -> Result<Seq<SegmentView>, ChipmunkError>;

    /// The NC blocks the operation compiles `segments` into, or why it cannot.
    spec fn spec_compile(
        &self,
        common: CommonView,
        segments: Seq<SegmentView>,
    ) -> Result<Seq<BlockView>, ChipmunkError>;

    fn generate(&self, common: &OperationCommon) -> (r: Result<Vec<ToolpathSegment>, ChipmunkError>)
        requires
            self.wf(),
        ensures
            segments_result(r) == self.spec_generate(common@),
    ;

    fn compile(&self, common: &OperationCommon, segments: &[ToolpathSegment]) -> (r: Result<
        Vec<NCBlock>,
        ChipmunkError,
    >)
        ensures
            blocks_result(r) == self.spec_compile(common@, segments_view(segments@)),
    ;
}

impl<'a> Operation<'a> {
    /// The operation's data is within the limits it needs.
    pub open spec fn wf(self) -> bool {
        self.kind.wf()
    }

    /// The tool path of the operation, or why there is none.
    pub open spec fn spec_generate(self) -> Result<Seq<SegmentView>, ChipmunkError> {
        match self.kind {
            OperationVariant::Quill(q) => q.spec_generate(self.common@),
            OperationVariant::Drill(d) => d.spec_generate(self.common@),
        }
    }

    /// The NC blocks of the operation for `segments`, or why there are none.
    pub open spec fn spec_compile(self, segments: Seq<SegmentView>) -> Result<Seq<BlockView>, ChipmunkError> {
        match self.kind {
            OperationVariant::Quill(q) => q.spec_compile(self.common@, segments),
            OperationVariant::Drill(d) => d.spec_compile(self.common@, segments),
        }
    }

    /// Generates the tool path of the operation.
    pub fn generate(&self) -> (r: Result<Vec<ToolpathSegment>, ChipmunkError>)
        requires
            self.wf(),
        ensures
            segments_result(r) == self.spec_generate(),
    {
        match &self.kind {
            OperationVariant::Quill(o) => o.generate(&self.common),
            OperationVariant::Drill(o) => o.generate(&self.common),
        }
    }

    /// Compiles a tool path of the operation into NC blocks.
    pub fn compile(&self, segments: &[ToolpathSegment]) -> (r: Result<Vec<NCBlock>, ChipmunkError>)
        ensures
            blocks_result(r) == self.spec_compile(segments_view(segments@)),
    {
        match &self.kind {
            OperationVariant::Quill(o) => o.compile(&self.common, segments),
            OperationVariant::Drill(o) => o.compile(&self.common, segments),
        }
    }
}

} // verus!
