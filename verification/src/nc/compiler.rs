use vstd::prelude::*;
use crate::domain::tool::{Tool, ToolView};
use crate::domain::toolpath::{ToolpathSegment, SegmentView, segments_view};
use crate::domain::operation::{DrillStrategy, Operation, OperationLocations};
use crate::domain::toolpath::{rapids_at, rapids_to};
use crate::error::ChipmunkError;
use crate::nc::ir::{NCBlock, BlockView, blocks_view};
use crate::operations::blocks_result;

verus! {

/// Rapid moves, at height `z`, over each of `segments`.
pub open spec fn rapids_over(segments: Seq<SegmentView>, z: i64) -> Seq<BlockView> {
    segments.map_values(|s: SegmentView| BlockView::Rapid { x: s.x, y: s.y, z })
}

/// A program that the operator runs block by block, drilling by hand at
/// each stop: tool change, the note to the operator, a stop, spindle on,
/// retract to the clearance height, a rapid move at clearance height over
/// each segment, and a final retract. The spindle is left on: the end of the
/// program stops it.
pub open spec fn single_block_blocks(
    tool: ToolView,
    clearance: i64,
    note: Seq<char>,
    segments: Seq<SegmentView>,
) -> Seq<BlockView> {
    seq![
        BlockView::ToolChange {
            tool_number: Some(tool.tool_number),
            spindle_speed: tool.spindle_speed,
        },
        BlockView::Comment { text: note },
        BlockView::Stop,
        BlockView::SpindleOn { direction: tool.spindle_direction },
        BlockView::Retract { height: clearance },
    ] + rapids_over(segments, clearance) + seq![BlockView::Retract { height: clearance }]
}

/// The single-block program of [`single_block_blocks`].
pub fn single_block_program(
    tool: &Tool,
    clearance: i64,
    note: &str,
    segments: &[ToolpathSegment],
) -> (r: Vec<NCBlock>)
    ensures
        blocks_view(r@) == single_block_blocks(tool@, clearance, note@, segments_view(segments@)),
{
    let mut blocks: Vec<NCBlock> = Vec::new();
    blocks.push(
        NCBlock::ToolChange { tool_number: Some(tool.tool_number), spindle_speed: tool.spindle_speed },
    );
    blocks.push(NCBlock::Comment { text: note.to_owned() });
    blocks.push(NCBlock::Stop);
    blocks.push(NCBlock::SpindleOn { direction: tool.spindle_direction });
    blocks.push(NCBlock::Retract { height: clearance });
    let ghost head = blocks_view(blocks@);
    let n = segments.len();
    for i in 0..n
        invariant
            n == segments@.len(),
            blocks@.len() == 5 + i,
            forall|k: int| 0 <= k < 5 ==> #[trigger] blocks@[k]@ == head[k],
            head.len() == 5,
            forall|k: int|
                0 <= k < i ==> #[trigger] blocks@[5 + k]@ == (BlockView::Rapid {
                    x: segments@[k].x,
                    y: segments@[k].y,
                    z: clearance,
                }),
    {
        let segment = &segments[i];
        blocks.push(NCBlock::Rapid { x: segment.x, y: segment.y, z: clearance });
    }
    let ghost mid = blocks@;
    blocks.push(NCBlock::Retract { height: clearance });
    proof {
        let expected = single_block_blocks(tool@, clearance, note@, segments_view(segments@));
        assert(expected.len() == blocks@.len());
        assert forall|k: int| 0 <= k < blocks@.len() implies #[trigger] blocks_view(blocks@)[k] == expected[k] by {
            if 5 <= k < 5 + n {
                let j = k - 5;
                assert(mid[5 + j]@ == (BlockView::Rapid {
                    x: segments@[j].x,
                    y: segments@[j].y,
                    z: clearance,
                }));
                assert(blocks@[k]@ == (BlockView::Rapid {
                    x: segments@[k - 5].x,
                    y: segments@[k - 5].y,
                    z: clearance,
                }));
            }
        }
        assert(blocks_view(blocks@) =~= expected);
    }
    blocks
}

/// The note to the operator of a manual drilling program.
pub open spec fn manual_drill_note() -> Seq<char> {
    "ENABLE SINGLE BLOCK MODE FOR MANUAL QUILL DRILLING"@
}

/// A manual drilling program: the single-block program of
/// [`single_block_blocks`] that asks the operator to enable single block
/// mode for manual quill drilling.
pub fn compile_manual_drill(tool: &Tool, clearance_z: i64, segments: &[ToolpathSegment]) -> (r: Vec<NCBlock>)
    ensures
        blocks_view(r@) == single_block_blocks(
            tool@,
            clearance_z,
            manual_drill_note(),
            segments_view(segments@),
        ),
{
    single_block_program(
        tool,
        clearance_z,
        "ENABLE SINGLE BLOCK MODE FOR MANUAL QUILL DRILLING",
        segments,
    )
}

/// The NC blocks of a drilling operation, or why there are none: the
/// manual strategy at points gives the manual drilling program of a rapid
/// move to each point at the job's clearance height; patterns (the error
/// names the pattern) and the general strategy are not supported.
pub open spec fn spec_process_drilling(operation: Operation, strategy: DrillStrategy) -> Result<
    Seq<BlockView>,
    ChipmunkError,
> {
    match strategy {
        DrillStrategy::Manual => match *operation.locations {
            OperationLocations::Points { points } => Ok(
                single_block_blocks(
                    operation.tool@,
                    operation.global_clearance,
                    manual_drill_note(),
                    rapids_at(points@, operation.global_clearance),
                ),
            ),
            OperationLocations::Pattern { pattern } => Err(
                ChipmunkError::PatternNotImplemented(pattern.spec_parameters()),
            ),
        },
        DrillStrategy::General => Err(ChipmunkError::GeneralDrillingNotImplemented),
    }
}

/// Compiles a drilling operation with the given strategy (see
/// [`spec_process_drilling`]).
pub fn process_drilling(operation: &Operation, strategy: &DrillStrategy) -> (r: Result<
    Vec<NCBlock>,
    ChipmunkError,
>)
    ensures
        blocks_result(r) == spec_process_drilling(*operation, *strategy),
{
    match strategy {
        DrillStrategy::Manual => {
            let segments = match operation.locations {
                OperationLocations::Points { points } => rapids_to(points.as_slice(), operation.global_clearance),
                OperationLocations::Pattern { pattern } => {
                    return Err(ChipmunkError::PatternNotImplemented(pattern.parameters()));
                },
            };
            Ok(compile_manual_drill(&operation.tool, operation.global_clearance, segments.as_slice()))
        },
        DrillStrategy::General => Err(ChipmunkError::GeneralDrillingNotImplemented),
    }
}

} // verus!
