use vstd::prelude::*;
use crate::domain::tool::{SpindleDirection, SpindleState};
use crate::error::ChipmunkError;

verus! {

/// One block of the machine-independent NC program that post-processors
/// turn into code for a controller. Lengths, feeds, speeds and angles are
/// fixed-point (see [`crate::domain::units::SCALE`]).
#[allow(inconsistent_fields)]
#[derive(Debug, Clone)]
pub enum NCBlock {
    OperationStart { text: Option<String> },
    OperationEnd { text: Option<String> },
    ToolChange { tool_number: Option<u32>, spindle_speed: i64 },
    Comment { text: String },
    Stop,
    SpindleOn { direction: SpindleDirection },
    SpindleOff,
    CoolantOn,
    CoolantOff,
    // Moves
    Retract { height: i64 },
    RetractFull,
    Home,
    Rapid { x: i64, y: i64, z: i64 },
    Linear { x: i64, y: i64, z: i64, feed: i64 },
    /// `i`, `j`: centre offsets in X and Y; `r`: radius. Post-processors
    /// pick the fields their controller wants.
    ArcCw { x: i64, y: i64, z: i64, i: i64, j: i64, r: i64, feed: i64 },
    // Canned cycles
    CycleCall { x: i64, y: i64, z: i64 },
    CycleDrill {
        depth: i64,
        surface_position: i64,
        plunge_depth: i64,
        feed: i64,
        dwell_top: i64,
        dwell_bottom: i64,
        clearance: i64,
        second_clearance: i64,
        tip_trough: bool,
    },
    // Patterns
    PatternCircular {
        x: i64,
        y: i64,
        diameter: i64,
        angle_start: i64,
        angle_stop: i64,
        angle_step: i64,
        count: u32,
        clearance: i64,
        surface_position: i64,
        second_clearance: i64,
    },
}

/// An [`NCBlock`] with its texts taken as character sequences.
#[allow(inconsistent_fields)]
pub enum BlockView {
    OperationStart { text: Option<Seq<char>> },
    OperationEnd { text: Option<Seq<char>> },
    ToolChange { tool_number: Option<u32>, spindle_speed: i64 },
    Comment { text: Seq<char> },
    Stop,
    SpindleOn { direction: SpindleDirection },
    SpindleOff,
    CoolantOn,
    CoolantOff,
    Retract { height: i64 },
    RetractFull,
    Home,
    Rapid { x: i64, y: i64, z: i64 },
    Linear { x: i64, y: i64, z: i64, feed: i64 },
    ArcCw { x: i64, y: i64, z: i64, i: i64, j: i64, r: i64, feed: i64 },
    CycleCall { x: i64, y: i64, z: i64 },
    CycleDrill {
        depth: i64,
        surface_position: i64,
        plunge_depth: i64,
        feed: i64,
        dwell_top: i64,
        dwell_bottom: i64,
        clearance: i64,
        second_clearance: i64,
        tip_trough: bool,
    },
    PatternCircular {
        x: i64,
        y: i64,
        diameter: i64,
        angle_start: i64,
        angle_stop: i64,
        angle_step: i64,
        count: u32,
        clearance: i64,
        surface_position: i64,
        second_clearance: i64,
    },
}

/// An optional text as an optional character sequence.
pub open spec fn text_view(t: Option<String>) -> Option<Seq<char>> {
    match t {
        Some(s) => Some(s@),
        None => None,
    }
}

impl View for NCBlock {
    type V = BlockView;

    open spec fn view(&self) -> BlockView {
        match *self {
            NCBlock::OperationStart { text } => BlockView::OperationStart { text: text_view(text) },
            NCBlock::OperationEnd { text } => BlockView::OperationEnd { text: text_view(text) },
            NCBlock::ToolChange { tool_number, spindle_speed } => BlockView::ToolChange {
                tool_number,
                spindle_speed,
            },
            NCBlock::Comment { text } => BlockView::Comment { text: text@ },
            NCBlock::Stop => BlockView::Stop,
            NCBlock::SpindleOn { direction } => BlockView::SpindleOn { direction },
            NCBlock::SpindleOff => BlockView::SpindleOff,
            NCBlock::CoolantOn => BlockView::CoolantOn,
            NCBlock::CoolantOff => BlockView::CoolantOff,
            NCBlock::Retract { height } => BlockView::Retract { height },
            NCBlock::RetractFull => BlockView::RetractFull,
            NCBlock::Home => BlockView::Home,
            NCBlock::Rapid { x, y, z } => BlockView::Rapid { x, y, z },
            NCBlock::Linear { x, y, z, feed } => BlockView::Linear { x, y, z, feed },
            NCBlock::ArcCw { x, y, z, i, j, r, feed } => BlockView::ArcCw { x, y, z, i, j, r, feed },
            NCBlock::CycleCall { x, y, z } => BlockView::CycleCall { x, y, z },
            NCBlock::CycleDrill {
                depth,
                surface_position,
                plunge_depth,
                feed,
                dwell_top,
                dwell_bottom,
                clearance,
                second_clearance,
                tip_trough,
            } => BlockView::CycleDrill {
                depth,
                surface_position,
                plunge_depth,
                feed,
                dwell_top,
                dwell_bottom,
                clearance,
                second_clearance,
                tip_trough,
            },
            NCBlock::PatternCircular {
                x,
                y,
                diameter,
                angle_start,
                angle_stop,
                angle_step,
                count,
                clearance,
                surface_position,
                second_clearance,
            } => BlockView::PatternCircular {
                x,
                y,
                diameter,
                angle_start,
                angle_stop,
                angle_step,
                count,
                clearance,
                surface_position,
                second_clearance,
            },
        }
    }
}

/// The views of a sequence of blocks.
pub open spec fn blocks_view(blocks: Seq<NCBlock>) -> Seq<BlockView> {
    blocks.map_values(|b: NCBlock| b@)
}

/// A copy of an optional text.
fn copy_text(t: &Option<String>) -> (r: Option<String>)
    ensures
        text_view(r) == text_view(*t),
{
    match t {
        Some(s) => Some(s.clone()),
        None => None,
    }
}

impl NCBlock {
    /// A copy of this block.
    pub fn duplicate(&self) -> (r: NCBlock)
        ensures
            r@ == self@,
    {
        match self {
            NCBlock::OperationStart { text } => NCBlock::OperationStart { text: copy_text(text) },
            NCBlock::OperationEnd { text } => NCBlock::OperationEnd { text: copy_text(text) },
            NCBlock::ToolChange { tool_number, spindle_speed } => NCBlock::ToolChange {
                tool_number: *tool_number,
                spindle_speed: *spindle_speed,
            },
            NCBlock::Comment { text } => NCBlock::Comment { text: text.clone() },
            NCBlock::Stop => NCBlock::Stop,
            NCBlock::SpindleOn { direction } => NCBlock::SpindleOn { direction: *direction },
            NCBlock::SpindleOff => NCBlock::SpindleOff,
            NCBlock::CoolantOn => NCBlock::CoolantOn,
            NCBlock::CoolantOff => NCBlock::CoolantOff,
            NCBlock::Retract { height } => NCBlock::Retract { height: *height },
            NCBlock::RetractFull => NCBlock::RetractFull,
            NCBlock::Home => NCBlock::Home,
            NCBlock::Rapid { x, y, z } => NCBlock::Rapid { x: *x, y: *y, z: *z },
            NCBlock::Linear { x, y, z, feed } => NCBlock::Linear { x: *x, y: *y, z: *z, feed: *feed },
            NCBlock::ArcCw { x, y, z, i, j, r, feed } => NCBlock::ArcCw {
                x: *x,
                y: *y,
                z: *z,
                i: *i,
                j: *j,
                r: *r,
                feed: *feed,
            },
            NCBlock::CycleCall { x, y, z } => NCBlock::CycleCall { x: *x, y: *y, z: *z },
            NCBlock::CycleDrill {
                depth,
                surface_position,
                plunge_depth,
                feed,
                dwell_top,
                dwell_bottom,
                clearance,
                second_clearance,
                tip_trough,
            } => NCBlock::CycleDrill {
                depth: *depth,
                surface_position: *surface_position,
                plunge_depth: *plunge_depth,
                feed: *feed,
                dwell_top: *dwell_top,
                dwell_bottom: *dwell_bottom,
                clearance: *clearance,
                second_clearance: *second_clearance,
                tip_trough: *tip_trough,
            },
            NCBlock::PatternCircular {
                x,
                y,
                diameter,
                angle_start,
                angle_stop,
                angle_step,
                count,
                clearance,
                surface_position,
                second_clearance,
            } => NCBlock::PatternCircular {
                x: *x,
                y: *y,
                diameter: *diameter,
                angle_start: *angle_start,
                angle_stop: *angle_stop,
                angle_step: *angle_step,
                count: *count,
                clearance: *clearance,
                surface_position: *surface_position,
                second_clearance: *second_clearance,
            },
        }
    }
}

/// The state of the machine that a block runs in: what the spindle does and
/// whether coolant flows.
#[derive(Debug, Clone, Copy, PartialEq, Eq, Structural)]
pub struct NCState {
    pub spindle: SpindleState,
    pub coolant: bool,
}

impl NCState {
    /// The state at program start: spindle off, coolant off.
    pub open spec fn initial() -> NCState {
        NCState { spindle: SpindleState::Off, coolant: false }
    }
}

impl Default for NCState {
    /// Spindle off, coolant off.
    fn default() -> (r: NCState)
        ensures
            r == NCState::initial(),
    {
        NCState { spindle: SpindleState::Off, coolant: false }
    }
}

/// The state after running `block` in state `s`: spindle and coolant blocks
/// switch what they name, every other block leaves the state as it is.
pub open spec fn next_state(s: NCState, block: BlockView) -> NCState {
    match block {
        BlockView::SpindleOn { direction } => NCState {
            spindle: SpindleState::spec_turning(direction),
            ..s
        },
        BlockView::SpindleOff => NCState { spindle: SpindleState::Off, ..s },
        BlockView::CoolantOn => NCState { coolant: true, ..s },
        BlockView::CoolantOff => NCState { coolant: false, ..s },
        _ => s,
    }
}

/// The state after running `blocks` one after the other from state `s`.
pub open spec fn state_after(s: NCState, blocks: Seq<BlockView>) -> NCState
    decreases blocks.len(),
{
    if blocks.len() == 0 {
        s
    } else {
        next_state(state_after(s, blocks.drop_last()), blocks.last())
    }
}

/// The state after running `block` in state `state`.
fn apply_block(state: NCState, block: &NCBlock) -> (r: NCState)
    ensures
        r == next_state(state, block@),
{
    match block {
        NCBlock::SpindleOn { direction } => NCState {
            spindle: SpindleState::turning(*direction),
            coolant: state.coolant,
        },
        NCBlock::SpindleOff => NCState { spindle: SpindleState::Off, coolant: state.coolant },
        NCBlock::CoolantOn => NCState { spindle: state.spindle, coolant: true },
        NCBlock::CoolantOff => NCState { spindle: state.spindle, coolant: false },
        _ => state,
    }
}

/// A block together with the state of the machine once the block has run.
#[derive(Debug)]
pub struct AnnotatedBlock<'a> {
    pub block: &'a NCBlock,
    pub state: NCState,
}

/// Annotates each block with the machine state after it, starting from
/// spindle off and coolant off.
pub fn annotate_blocks<'a>(blocks: &'a [NCBlock]) -> (r: Result<Vec<AnnotatedBlock<'a>>, ChipmunkError>)
    ensures
        r matches Ok(annotated) && annotated@.len() == blocks@.len() && (forall|i: int|
            0 <= i < blocks@.len() ==> {
                &&& *#[trigger] annotated@[i].block == blocks@[i]
                &&& annotated@[i].state == state_after(
                    NCState::initial(),
                    blocks_view(blocks@).take(i + 1),
                )
            }),
{
    let mut state = NCState::default();
    let mut annotated: Vec<AnnotatedBlock<'a>> = Vec::new();
    let n = blocks.len();
    for i in 0..n
        invariant
            n == blocks@.len(),
            annotated@.len() == i,
            state == state_after(NCState::initial(), blocks_view(blocks@).take(i as int)),
            forall|k: int|
                0 <= k < i ==> {
                    &&& *#[trigger] annotated@[k].block == blocks@[k]
                    &&& annotated@[k].state == state_after(
                        NCState::initial(),
                        blocks_view(blocks@).take(k + 1),
                    )
                },
    {
        let block = &blocks[i];
        state = apply_block(state, block);
        proof {
            let taken = blocks_view(blocks@).take(i + 1);
            assert(taken.drop_last() =~= blocks_view(blocks@).take(i as int));
            assert(taken.last() == blocks@[i as int]@);
        }
        annotated.push(AnnotatedBlock { block, state });
    }
    Ok(annotated)
}

/// Running two block sequences one after the other ends in the state that
/// running the second from where the first ended does.
pub proof fn lemma_state_after_concat(s: NCState, a: Seq<BlockView>, b: Seq<BlockView>)
    ensures
        state_after(s, a + b) == state_after(state_after(s, a), b),
    decreases b.len(),
{
    if b.len() == 0 {
        assert(a + b =~= a);
    } else {
        lemma_state_after_concat(s, a, b.drop_last());
        assert((a + b).drop_last() =~= a + b.drop_last());
        assert((a + b).last() == b.last());
    }
}

} // verus!
