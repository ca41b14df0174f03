use vstd::prelude::*;
use crate::domain::toolpath::{Locations, ToolpathSegment, SegmentView, rapids_at, rapids_to, segments_view};
use crate::domain::postprocessors::contains_text;
use crate::domain::units::SCALE;
use crate::error::ChipmunkError;
use crate::nc::ir::{NCBlock, BlockView, blocks_view};
use crate::operations::{CommonView, OperationCommon, OperationType};

verus! {

/// Drilling with the machine's canned drilling cycle.
#[derive(Debug, Clone)]
pub struct Drill {
    pub locations: Locations,
}

/// The drilling cycle definition: depth 20, surface at 0, no plunge depth,
/// feed 100, no dwell, set-up clearance 5, second set-up clearance 20,
/// no chip breaking at the tip.
pub open spec fn drill_cycle_view() -> BlockView {
    BlockView::CycleDrill {
        depth: (20 * SCALE) as i64,
        surface_position: 0,
        plunge_depth: 0,
        feed: (100 * SCALE) as i64,
        dwell_top: 0,
        dwell_bottom: 0,
        clearance: (5 * SCALE) as i64,
        second_clearance: (20 * SCALE) as i64,
        tip_trough: false,
    }
}

/// What a drilling program starts with: tool change, operation start,
/// coolant on, spindle on, retract to the clearance height.
pub open spec fn drill_prologue(common: CommonView) -> Seq<BlockView> {
    seq![
        BlockView::ToolChange {
            tool_number: Some(common.tool.tool_number),
            spindle_speed: common.tool.spindle_speed,
        },
        BlockView::OperationStart { text: None },
        BlockView::CoolantOn,
        BlockView::SpindleOn { direction: common.tool.spindle_direction },
        BlockView::Retract { height: common.clearance },
    ]
}

/// What a drilling program ends with: spindle off, coolant off, retract to
/// the clearance height, operation end.
pub open spec fn drill_epilogue(common: CommonView) -> Seq<BlockView> {
    seq![
        BlockView::SpindleOff,
        BlockView::CoolantOff,
        BlockView::Retract { height: common.clearance },
        BlockView::OperationEnd { text: None },
    ]
}

/// The blocks for one segment in a drilling cycle: its comment, if any,
/// then its pattern block if it has one, else a cycle call at its
/// location at height `z`.
pub open spec fn segment_cycle_blocks(segment: SegmentView, z: i64) -> Seq<BlockView> {
    (match segment.comment {
        Some(text) => seq![BlockView::Comment { text }],
        None => Seq::<BlockView>::empty(),
    }) + seq![
        match segment.pattern {
            Some(block) => block,
            None => BlockView::CycleCall { x: segment.x, y: segment.y, z },
        },
    ]
}

/// The blocks for each of `segments` in a drilling cycle, in order.
pub open spec fn cycle_blocks(segments: Seq<SegmentView>, z: i64) -> Seq<BlockView>
    decreases segments.len(),
{
    if segments.len() == 0 {
        Seq::empty()
    } else {
        cycle_blocks(segments.drop_last(), z) + segment_cycle_blocks(segments.last(), z)
    }
}

/// A drilling program: the prologue; where the post-processor has a
/// drilling cycle, the cycle definition and the cycle blocks of each
/// segment; the epilogue.
pub open spec fn drill_blocks(common: CommonView, segments: Seq<SegmentView>) -> Seq<BlockView> {
    drill_prologue(common) + (if common.capabilities.contains_key("drill"@) {
        seq![drill_cycle_view()] + cycle_blocks(segments, common.clearance)
    } else {
        Seq::empty()
    }) + drill_epilogue(common)
}

impl OperationType for Drill {
    open spec fn wf(&self) -> bool {
        self.locations.wf()
    }

    /// At points: a rapid move at clearance height to each point. On a
    /// pattern: where the post-processor runs drilling cycles on circular
    /// patterns, one segment for the whole pattern; where it has a drilling
    /// cycle only, a rapid move to each location of the pattern; where it
    /// has no drilling cycle, not supported (the error names the pattern).
    open spec fn spec_generate(&self, common: CommonView) -> Result<Seq<SegmentView>, ChipmunkError> {
        match self.locations {
            Locations::Points { points } => Ok(rapids_at(points@, common.clearance)),
            Locations::Pattern { pattern } => {
                if common.capabilities.contains_key("drill"@) {
                    if common.capabilities["drill"@].contains("circular"@) {
                        match pattern.spec_segment(common.clearance) {
                            Ok(s) => Ok(seq![s]),
                            Err(e) => Err(ChipmunkError::Pattern(e)),
                        }
                    } else {
                        match pattern.spec_angles() {
                            Ok(_) => Ok(rapids_at(pattern.spec_points(), common.clearance)),
                            Err(e) => Err(ChipmunkError::Pattern(e)),
                        }
                    }
                } else {
                    Err(ChipmunkError::PatternNotImplemented(pattern.spec_parameters()))
                }
            },
        }
    }

    /// The drilling program of [`drill_blocks`].
    open spec fn spec_compile(
        &self,
        common: CommonView,
        segments: Seq<SegmentView>,
    ) -> Result<Seq<BlockView>, ChipmunkError> {
        Ok(drill_blocks(common, segments))
    }

    fn generate(&self, common: &OperationCommon) -> (r: Result<Vec<ToolpathSegment>, ChipmunkError>) {
        match &self.locations {
            Locations::Points { points } => Ok(rapids_to(points.as_slice(), common.clearance)),
            Locations::Pattern { pattern } => match common.capabilities.cycle("drill") {
                Some(cycle) => {
                    if contains_text(cycle, "circular") {
                        match pattern.into_segment(common) {
                            Ok(segment) => {
                                let mut segments: Vec<ToolpathSegment> = Vec::new();
                                segments.push(segment);
                                proof {
                                    assert(segments_view(segments@) =~= seq![segments@[0]@]);
                                }
                                Ok(segments)
                            },
                            Err(e) => Err(ChipmunkError::Pattern(e)),
                        }
                    } else {
                        match pattern.layout() {
                            Ok(_) => {
                                let points = match pattern {
                                    crate::domain::toolpath::Pattern::Circular { points, .. } => points,
                                };
                                Ok(rapids_to(points.as_slice(), common.clearance))
                            },
                            Err(e) => Err(ChipmunkError::Pattern(e)),
                        }
                    }
                },
                None => Err(ChipmunkError::PatternNotImplemented(pattern.parameters())),
            },
        }
    }

    fn compile(&self, common: &OperationCommon, segments: &[ToolpathSegment]) -> (r: Result<
        Vec<NCBlock>,
        ChipmunkError,
    >) {
        let mut blocks: Vec<NCBlock> = Vec::new();
        blocks.push(
            NCBlock::ToolChange {
                tool_number: Some(common.tool.tool_number),
                spindle_speed: common.tool.spindle_speed,
            },
        );
        blocks.push(NCBlock::OperationStart { text: None });
        blocks.push(NCBlock::CoolantOn);
        blocks.push(NCBlock::SpindleOn { direction: common.tool.spindle_direction });
        blocks.push(NCBlock::Retract { height: common.clearance });
        proof {
            assert(blocks_view(blocks@) =~= drill_prologue(common@));
        }
        if common.capabilities.has("drill") {
            blocks.push(
                NCBlock::CycleDrill {
                    depth: 20 * SCALE,
                    surface_position: 0,
                    plunge_depth: 0,
                    feed: 100 * SCALE,
                    dwell_top: 0,
                    dwell_bottom: 0,
                    clearance: 5 * SCALE,
                    second_clearance: 20 * SCALE,
                    tip_trough: false,
                },
            );
            let ghost head = drill_prologue(common@) + seq![drill_cycle_view()];
            proof {
                assert(blocks_view(blocks@) =~= head + cycle_blocks(
                    segments_view(segments@).take(0),
                    common.clearance,
                ));
            }
            let n = segments.len();
            for i in 0..n
                invariant
                    n == segments@.len(),
                    blocks_view(blocks@) == head + cycle_blocks(
                        segments_view(segments@).take(i as int),
                        common.clearance,
                    ),
            {
                let ghost before = blocks_view(blocks@);
                let segment = &segments[i];
                match &segment.comment {
                    Some(text) => {
                        blocks.push(NCBlock::Comment { text: text.clone() });
                    },
                    None => {},
                }
                match &segment.pattern {
                    Some(pattern) => {
                        blocks.push(pattern.duplicate());
                    },
                    None => {
                        blocks.push(
                            NCBlock::CycleCall { x: segment.x, y: segment.y, z: common.clearance },
                        );
                    },
                }
                proof {
                    let sv = segments_view(segments@);
                    assert(sv.take(i + 1).drop_last() =~= sv.take(i as int));
                    assert(sv.take(i + 1).last() == segment@);
                    assert(blocks_view(blocks@) =~= before + segment_cycle_blocks(
                        segment@,
                        common.clearance,
                    ));
                }
            }
            proof {
                assert(segments_view(segments@).take(n as int) =~= segments_view(segments@));
            }
        }
        let ghost middle = blocks_view(blocks@);
        blocks.push(NCBlock::SpindleOff);
        blocks.push(NCBlock::CoolantOff);
        blocks.push(NCBlock::Retract { height: common.clearance });
        blocks.push(NCBlock::OperationEnd { text: None });
        proof {
            assert(blocks_view(blocks@) =~= middle + drill_epilogue(common@));
            assert(blocks_view(blocks@) =~= drill_blocks(common@, segments_view(segments@)));
        }
        Ok(blocks)
    }
}

} // verus!
