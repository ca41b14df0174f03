//! Properties that span several functions of the library.
use vstd::prelude::*;
use crate::domain::tool::{SpindleState, ToolView};
use crate::domain::toolpath::{
    Pattern, SegmentView, counted_angles, stepped_angles, stepped_count, stop_bound,
};
use crate::domain::units::trunc_div;
use crate::error::ChipmunkError;
use crate::io::job::job_blocks;
use crate::io::parsing::OperationConfig;
use crate::nc::bridge::terminated;
use crate::nc::compiler::{manual_drill_note, rapids_over, single_block_blocks, spec_process_drilling};
use crate::domain::operation::{DrillStrategy, Operation as DrillingOperation, OperationLocations};
use crate::nc::ir::{BlockView, NCState, lemma_state_after_concat, state_after};
use crate::nc::postprocessors::{lemma_lex_lt_irreflexive, lemma_lex_lt_total, lex_lt, strictly_sorted};
use crate::operations::CommonView;
use crate::operations::OperationType;
use crate::operations::drill::{
    Drill, cycle_blocks, drill_blocks, drill_cycle_view, drill_epilogue, drill_prologue,
    segment_cycle_blocks,
};

verus! {

/// Rapid moves leave the machine state as it is.
pub proof fn lemma_rapids_keep_state(s: NCState, segments: Seq<SegmentView>, z: i64)
    ensures
        state_after(s, rapids_over(segments, z)) == s,
    decreases segments.len(),
{
    if segments.len() > 0 {
        let rapids = rapids_over(segments, z);
        assert(rapids.drop_last() =~= rapids_over(segments.drop_last(), z));
        lemma_rapids_keep_state(s, segments.drop_last(), z);
    }
}

/// A drilling operation stops the machine: whatever the state before it,
/// once its program has run the spindle is off and coolant is off.
pub proof fn lemma_drill_program_stops_machine(
    s: NCState,
    common: CommonView,
    segments: Seq<SegmentView>,
)
    ensures
        state_after(s, drill_blocks(common, segments)) == NCState::initial(),
{
    let program = drill_blocks(common, segments);
    let epilogue = drill_epilogue(common);
    let body = program.subrange(0, program.len() - 4);
    assert(program =~= body + epilogue);
    lemma_state_after_concat(s, body, epilogue);
    reveal_with_fuel(state_after, 5);
    assert(epilogue.drop_last().drop_last().drop_last().drop_last() =~= Seq::<BlockView>::empty());
}

/// A single-block program (manual drilling, quill drilling) leaves the
/// spindle turning the way the tool turns, and coolant as it was: the end
/// of the NC program stops the spindle.
pub proof fn lemma_single_block_program_leaves_spindle_on(
    s: NCState,
    tool: ToolView,
    clearance: i64,
    note: Seq<char>,
    segments: Seq<SegmentView>,
)
    ensures
        state_after(s, single_block_blocks(tool, clearance, note, segments)) == (NCState {
            spindle: SpindleState::spec_turning(tool.spindle_direction),
            coolant: s.coolant,
        }),
{
    let program = single_block_blocks(tool, clearance, note, segments);
    let head = program.subrange(0, 5);
    let rapids = rapids_over(segments, clearance);
    let tail = seq![BlockView::Retract { height: clearance }];
    assert(program =~= head + rapids + tail);
    reveal_with_fuel(state_after, 6);
    assert(head.drop_last().drop_last().drop_last().drop_last().drop_last() =~= Seq::<BlockView>::empty());
    let on = state_after(s, head);
    lemma_state_after_concat(s, head, rapids);
    lemma_rapids_keep_state(on, segments, clearance);
    lemma_state_after_concat(s, head + rapids, tail);
    assert(tail.drop_last() =~= Seq::<BlockView>::empty());
}

/// `x` lies between `a` and `b`, both included.
pub open spec fn between(x: int, a: int, b: int) -> bool {
    (a <= x <= b) || (b <= x <= a)
}

/// The locations of a pattern of a positive count lie between its start
/// and stop angles, the first at the start.
pub proof fn lemma_counted_angles_between(start: int, stop: int, n: int)
    requires
        n > 0,
    ensures
        counted_angles(start, stop, n)[0] == start,
        forall|i: int|
            0 <= i < n ==> between(#[trigger] counted_angles(start, stop, n)[i], start, stop),
{
    let d = stop - start;
    assert forall|i: int| 0 <= i < n implies between(#[trigger] counted_angles(start, stop, n)[i], start, stop) by {
        let ad = vstd::math::abs(d) as int;
        let p = i * d;
        assert(vstd::math::abs(p) == i * ad && i * ad <= ad * n && (d >= 0 ==> p >= 0) && (d < 0 ==> p <= 0))
            by (nonlinear_arith)
            requires
                0 <= i < n,
                ad == vstd::math::abs(d),
                p == i * d,
        ;
        vstd::arithmetic::div_mod::lemma_div_is_ordered(i * ad, ad * n, n);
        vstd::arithmetic::div_mod::lemma_div_by_multiple(ad, n);
        vstd::arithmetic::div_mod::lemma_div_pos_is_pos(i * ad, n);
        assert(counted_angles(start, stop, n)[i] == start + trunc_div(p, n));
    }
    assert(0 * d == 0);
}

/// The locations of a pattern with an angle step lie between its start
/// angle and its stop angle passed by at most
/// [`crate::domain::toolpath::ANGLE_TOLERANCE`].
pub proof fn lemma_stepped_angles_between(start: int, stop: int, step: int)
    requires
        step != 0,
    ensures
        forall|k: int|
            0 <= k < stepped_count(start, stop, step) ==> between(
                #[trigger] stepped_angles(start, stop, step)[k],
                start,
                stop_bound(stop, step),
            ),
{
    let bound = stop_bound(stop, step);
    assert forall|k: int| 0 <= k < stepped_count(start, stop, step) implies between(
        #[trigger] stepped_angles(start, stop, step)[k],
        start,
        bound,
    ) by {
        let (d, s) = if step > 0 {
            (bound - start, step)
        } else {
            (start - bound, -step)
        };
        vstd::arithmetic::div_mod::lemma_fundamental_div_mod(d, s);
        let q = d / s;
        assert(k * s <= d && k * s >= 0) by (nonlinear_arith)
            requires
                0 <= k <= q,
                s > 0,
                d == s * q + d % s,
                0 <= d % s,
        ;
        assert(k * step == if step > 0 { k * s } else { -(k * s) }) by (nonlinear_arith)
            requires
                s == (if step > 0 { step } else { -step }),
        ;
    }
}

/// The block switches neither the spindle nor the coolant.
pub open spec fn keeps_state(block: BlockView) -> bool {
    !(block is SpindleOn || block is SpindleOff || block is CoolantOn || block is CoolantOff)
}

/// The segment's pattern block, if any, switches neither spindle nor coolant.
pub open spec fn pattern_keeps_state(segment: SegmentView) -> bool {
    match segment.pattern {
        Some(block) => keeps_state(block),
        None => true,
    }
}

/// Blocks that switch neither spindle nor coolant leave the state as it is.
pub proof fn lemma_keeping_blocks(s: NCState, blocks: Seq<BlockView>)
    requires
        forall|i: int| 0 <= i < blocks.len() ==> keeps_state(#[trigger] blocks[i]),
    ensures
        state_after(s, blocks) == s,
    decreases blocks.len(),
{
    if blocks.len() > 0 {
        lemma_keeping_blocks(s, blocks.drop_last());
        assert(keeps_state(blocks[blocks.len() - 1]));
    }
}

/// The cycle blocks of segments whose pattern blocks, if any, switch
/// neither spindle nor coolant, switch neither either.
proof fn lemma_cycle_blocks_keep_state(segments: Seq<SegmentView>, z: i64)
    requires
        forall|i: int| 0 <= i < segments.len() ==> pattern_keeps_state(#[trigger] segments[i]),
    ensures
        forall|k: int|
            0 <= k < cycle_blocks(segments, z).len() ==> keeps_state(
                #[trigger] cycle_blocks(segments, z)[k],
            ),
    decreases segments.len(),
{
    if segments.len() > 0 {
        let last = segments.last();
        assert(segments[segments.len() - 1] == last);
        lemma_cycle_blocks_keep_state(segments.drop_last(), z);
        let before = cycle_blocks(segments.drop_last(), z);
        let added = segment_cycle_blocks(last, z);
        assert forall|k: int| 0 <= k < added.len() implies keeps_state(#[trigger] added[k]) by {
            match last.comment {
                Some(t) => {},
                None => {},
            }
        }
        assert forall|k: int| 0 <= k < cycle_blocks(segments, z).len() implies keeps_state(
            #[trigger] cycle_blocks(segments, z)[k],
        ) by {
            if k < before.len() {
                assert(cycle_blocks(segments, z)[k] == before[k]);
            } else {
                assert(cycle_blocks(segments, z)[k] == added[k - before.len()]);
            }
        }
    }
}

/// A drilling operation drills with the spindle on and coolant on: in the
/// program compiled from the tool path it generates, whatever the state
/// before it, every block of the drilling cycle (the cycle definition, the
/// cycle calls and the pattern blocks) runs with the spindle turning the
/// way the tool turns and coolant on.
pub proof fn lemma_drilling_runs_spindle_and_coolant_on(
    s: NCState,
    drill: Drill,
    common: CommonView,
    k: int,
)
    requires
        drill.wf(),
        drill.spec_generate(common) is Ok,
        common.capabilities.contains_key("drill"@),
        5 <= k < drill_blocks(common, drill.spec_generate(common)->Ok_0).len() - 4,
    ensures
        state_after(s, drill_blocks(common, drill.spec_generate(common)->Ok_0).take(k + 1)) == (NCState {
            spindle: SpindleState::spec_turning(common.tool.spindle_direction),
            coolant: true,
        }),
{
    let segments = drill.spec_generate(common)->Ok_0;
    assert forall|i: int| 0 <= i < segments.len() implies pattern_keeps_state(#[trigger] segments[i]) by {
    }
    lemma_cycle_blocks_keep_state(segments, common.clearance);
    let program = drill_blocks(common, segments);
    let prologue = drill_prologue(common);
    let cycle = seq![drill_cycle_view()] + cycle_blocks(segments, common.clearance);
    assert(program =~= prologue + cycle + drill_epilogue(common));
    let section = cycle.take(k + 1 - 5);
    assert(program.take(k + 1) =~= prologue + section);
    lemma_state_after_concat(s, prologue, section);
    reveal_with_fuel(state_after, 6);
    assert(prologue.drop_last().drop_last().drop_last().drop_last().drop_last() =~= Seq::<BlockView>::empty());
    assert forall|i: int| 0 <= i < section.len() implies keeps_state(#[trigger] section[i]) by {
        if i > 0 {
            assert(section[i] == cycle_blocks(segments, common.clearance)[i - 1]);
        }
    }
    lemma_keeping_blocks(state_after(s, prologue), section);
}

/// The NC blocks of two lists of operations, one after the other: the
/// first error, if either fails.
pub open spec fn then_blocks(
    a: Result<Seq<BlockView>, ChipmunkError>,
    b: Result<Seq<BlockView>, ChipmunkError>,
) -> Result<Seq<BlockView>, ChipmunkError> {
    match a {
        Err(e) => Err(e),
        Ok(x) => match b {
            Err(e) => Err(e),
            Ok(y) => Ok(x + y),
        },
    }
}

/// Compiling operations `a` then `b` gives the blocks of `a` then those of
/// `b`, or the first error: operations compile independently of each other.
pub proof fn lemma_job_blocks_concat(
    a: Seq<OperationConfig>,
    b: Seq<OperationConfig>,
    clearance: i64,
    capabilities: Map<Seq<char>, Seq<Seq<char>>>,
)
    ensures
        job_blocks(a + b, clearance, capabilities) == then_blocks(
            job_blocks(a, clearance, capabilities),
            job_blocks(b, clearance, capabilities),
        ),
    decreases b.len(),
{
    if b.len() == 0 {
        assert(a + b =~= a);
        match job_blocks(a, clearance, capabilities) {
            Ok(x) => assert(x + Seq::<BlockView>::empty() =~= x),
            Err(_) => {},
        }
    } else {
        lemma_job_blocks_concat(a, b.drop_last(), clearance, capabilities);
        assert((a + b).drop_last() =~= a + b.drop_last());
        assert((a + b).last() == b.last());
        match job_blocks(a, clearance, capabilities) {
            Ok(x) => match job_blocks(b.drop_last(), clearance, capabilities) {
                Ok(y) => match b.last().spec_blocks(clearance, capabilities) {
                    Ok(z) => assert(x + y + z =~= x + (y + z)),
                    Err(_) => {},
                },
                Err(_) => {},
            },
            Err(_) => {},
        }
    }
}

/// The NC program handed back always ends with a newline, and a program
/// that ends with one is handed back as it is.
pub proof fn lemma_terminated(text: Seq<char>)
    ensures
        terminated(text).len() > 0,
        terminated(text).last() == '\n',
        terminated(terminated(text)) == terminated(text),
        text.len() > 0 && text.last() == '\n' ==> terminated(text) == text,
{
}

/// Two strictly sorted lists with the same elements are the same list: the
/// list of post-processors depends on which files there are, not on the
/// order in which directories list them.
pub proof fn lemma_strictly_sorted_unique(a: Seq<Seq<char>>, b: Seq<Seq<char>>)
    requires
        strictly_sorted(a),
        strictly_sorted(b),
        forall|s: Seq<char>| #[trigger] a.contains(s) == b.contains(s),
    ensures
        a == b,
    decreases a.len(),
{
    if a.len() == 0 {
        if b.len() > 0 {
            assert(b[0] == b[0]);
            assert(b.contains(b[0]));
            assert(a.contains(b[0]));
        }
        assert(a =~= b);
    } else if b.len() == 0 {
        assert(a[0] == a[0]);
        assert(a.contains(a[0]));
        assert(b.contains(a[0]));
    } else {
        // The first elements are both the least element of the same set.
        assert(a[0] == a[0]);
        assert(b[0] == b[0]);
        assert(a.contains(a[0]));
        assert(b.contains(b[0]));
        assert(a.contains(b[0]));
        assert(b.contains(a[0]));
        let ia = choose|i: int| 0 <= i < a.len() && a[i] == b[0];
        let ib = choose|i: int| 0 <= i < b.len() && b[i] == a[0];
        if a[0] != b[0] {
            lemma_lex_lt_total(a[0], b[0]);
            if lex_lt(a[0], b[0]) {
                assert(ib > 0);
                assert(lex_lt(b[0], b[ib]));
                lemma_lex_lt_total(b[0], a[0]);
            } else {
                assert(ia > 0);
                assert(lex_lt(a[0], a[ia]));
                lemma_lex_lt_total(a[0], b[0]);
            }
        }
        let ra = a.drop_first();
        let rb = b.drop_first();
        assert forall|i: int, j: int| 0 <= i < j < ra.len() implies lex_lt(#[trigger] ra[i], #[trigger] ra[j]) by {
            assert(ra[i] == a[i + 1] && ra[j] == a[j + 1]);
        }
        assert forall|i: int, j: int| 0 <= i < j < rb.len() implies lex_lt(#[trigger] rb[i], #[trigger] rb[j]) by {
            assert(rb[i] == b[i + 1] && rb[j] == b[j + 1]);
        }
        assert forall|s: Seq<char>| #[trigger] ra.contains(s) == rb.contains(s) by {
            if ra.contains(s) {
                let k = choose|k: int| 0 <= k < ra.len() && ra[k] == s;
                assert(a[k + 1] == s);
                assert(lex_lt(a[0], a[k + 1]));
                lemma_lex_lt_irreflexive(s);
                assert(a.contains(s));
                assert(b.contains(s));
                let m = choose|m: int| 0 <= m < b.len() && b[m] == s;
                assert(m != 0);
                assert(rb[m - 1] == s);
            }
            if rb.contains(s) {
                let k = choose|k: int| 0 <= k < rb.len() && rb[k] == s;
                assert(b[k + 1] == s);
                assert(lex_lt(b[0], b[k + 1]));
                lemma_lex_lt_irreflexive(s);
                assert(b.contains(s));
                assert(a.contains(s));
                let m = choose|m: int| 0 <= m < a.len() && a[m] == s;
                assert(m != 0);
                assert(ra[m - 1] == s);
            }
        }
        lemma_strictly_sorted_unique(ra, rb);
        assert(a =~= seq![a[0]] + ra);
        assert(b =~= seq![b[0]] + rb);
    }
}

/// Dividing with rounding towards zero leaves a remainder smaller than the
/// divisor: `d - n * trunc_div(d, n)` is less than `n` in size.
pub proof fn lemma_trunc_div_remainder(d: int, n: int)
    requires
        n != 0,
    ensures
        vstd::math::abs(d - n * trunc_div(d, n)) < vstd::math::abs(n),
{
    let a = vstd::math::abs(d) as int;
    let m = vstd::math::abs(n) as int;
    vstd::arithmetic::div_mod::lemma_fundamental_div_mod(a, m);
    let q = a / m;
    let r = a % m;
    if d >= 0 && n > 0 {
        assert(trunc_div(d, n) == q);
        assert(d - n * q == r) by (nonlinear_arith)
            requires
                a == m * q + r,
                a == d,
                m == n,
        ;
    } else if d >= 0 && n < 0 {
        assert(trunc_div(d, n) == -q);
        assert(d - n * (-q) == r) by (nonlinear_arith)
            requires
                a == m * q + r,
                a == d,
                m == -n,
        ;
    } else if d < 0 && n > 0 {
        assert(trunc_div(d, n) == -q);
        assert(d - n * (-q) == -r) by (nonlinear_arith)
            requires
                a == m * q + r,
                a == -d,
                m == n,
        ;
    } else {
        assert(trunc_div(d, n) == q);
        assert(d - n * q == -r) by (nonlinear_arith)
            requires
                a == m * q + r,
                a == -d,
                m == -n,
        ;
    }
}

/// Dividing a multiple of `n` by `n` gives the factor back exactly.
pub proof fn lemma_trunc_div_multiple(n: int, m: int)
    requires
        n != 0,
    ensures
        trunc_div(n * m, n) == m,
{
    let an = vstd::math::abs(n) as int;
    let am = vstd::math::abs(m) as int;
    assert(vstd::math::abs(n * m) == am * an) by (nonlinear_arith)
        requires
            an == vstd::math::abs(n),
            am == vstd::math::abs(m),
    ;
    vstd::arithmetic::div_mod::lemma_div_by_multiple(am, an);
    if m > 0 {
        assert((n * m >= 0) == (n > 0)) by (nonlinear_arith)
            requires
                n != 0,
                m > 0,
        ;
    } else if m < 0 {
        assert((n * m >= 0) != (n > 0)) by (nonlinear_arith)
            requires
                n != 0,
                m < 0,
        ;
    } else {
        assert(n * m == 0);
    }
}

/// The step of the pattern's own count: `count` in a counted pattern.
pub open spec fn pattern_count(pattern: Pattern) -> Option<i32> {
    match pattern {
        Pattern::Circular { count, .. } => count,
    }
}

/// A circular pattern that the post-processor runs itself is handed over
/// as the pattern's own start and stop angles, its count, and a step that
/// is the angle from start to stop divided by the count: `count` steps of
/// `angle_step` from the start come within one count's worth of fixed-point
/// steps of the stop, and where the count divides that angle exactly, the
/// k-th step lands on the k-th location of the pattern's layout.
pub proof fn lemma_counted_pattern_block(pattern: Pattern, clearance: i64)
    requires
        pattern.in_limits(),
        pattern_count(pattern) is Some,
        pattern.spec_segment(clearance) is Ok,
    ensures
        ({
            let n = pattern_count(pattern)->Some_0 as int;
            let block = pattern.spec_segment(clearance)->Ok_0.pattern->Some_0;
            let start = block->PatternCircular_angle_start as int;
            let stop = block->PatternCircular_angle_stop as int;
            let step = block->PatternCircular_angle_step as int;
            &&& block is PatternCircular
            &&& start == pattern.spec_start()
            &&& stop == pattern.spec_stop()
            &&& block->PatternCircular_count as int == vstd::math::abs(n)
            &&& vstd::math::abs(stop - start - n * step) < vstd::math::abs(n)
            &&& (stop - start) % n == 0 ==> forall|k: int|
                0 <= k < vstd::math::abs(n) ==> start + k * step
                    == #[trigger] pattern.spec_angles()->Ok_0[k]
        }),
{
    let n = pattern_count(pattern)->Some_0 as int;
    let start = pattern.spec_start();
    let stop = pattern.spec_stop();
    let d = stop - start;
    let q = trunc_div(d, n);
    assert(vstd::math::abs(q) <= vstd::math::abs(d)) by {
        let ad = vstd::math::abs(d) as int;
        let an = vstd::math::abs(n) as int;
        assert(ad <= ad * an) by (nonlinear_arith)
            requires
                ad >= 0,
                an >= 1,
        ;
        vstd::arithmetic::div_mod::lemma_div_is_ordered(ad, ad * an, an);
        vstd::arithmetic::div_mod::lemma_div_by_multiple(ad, an);
    }
    assert(pattern.spec_step() == q);
    lemma_trunc_div_remainder(d, n);
    if d % n == 0 {
        vstd::arithmetic::div_mod::lemma_fundamental_div_mod(d, n);
        let m = d / n;
        assert(d == n * m);
        lemma_trunc_div_multiple(n, m);
        assert forall|k: int| 0 <= k < vstd::math::abs(n) implies start + k * q
            == #[trigger] pattern.spec_angles()->Ok_0[k] by {
            assert(k * d == n * (k * m)) by (nonlinear_arith)
                requires
                    d == n * m,
            ;
            lemma_trunc_div_multiple(n, k * m);
        }
    }
}

/// A `Retract` block, if that is what `block` is, goes to height `z`.
pub open spec fn retracts_to(block: BlockView, z: i64) -> bool {
    block is Retract ==> block->Retract_height == z
}

/// The segment's pattern block, if any, retracts to `z` if it retracts.
pub open spec fn pattern_retracts_to(segment: SegmentView, z: i64) -> bool {
    match segment.pattern {
        Some(block) => retracts_to(block, z),
        None => true,
    }
}

/// The cycle blocks of segments whose pattern blocks retract to `z`, if
/// they retract, retract to `z`, if they retract.
proof fn lemma_cycle_blocks_retract_to(segments: Seq<SegmentView>, z: i64)
    requires
        forall|i: int| 0 <= i < segments.len() ==> pattern_retracts_to(#[trigger] segments[i], z),
    ensures
        forall|k: int|
            0 <= k < cycle_blocks(segments, z).len() ==> retracts_to(
                #[trigger] cycle_blocks(segments, z)[k],
                z,
            ),
    decreases segments.len(),
{
    if segments.len() > 0 {
        let last = segments.last();
        assert(segments[segments.len() - 1] == last);
        lemma_cycle_blocks_retract_to(segments.drop_last(), z);
        let before = cycle_blocks(segments.drop_last(), z);
        let added = segment_cycle_blocks(last, z);
        assert forall|k: int| 0 <= k < cycle_blocks(segments, z).len() implies retracts_to(
            #[trigger] cycle_blocks(segments, z)[k],
            z,
        ) by {
            if k < before.len() {
                assert(cycle_blocks(segments, z)[k] == before[k]);
            } else {
                assert(cycle_blocks(segments, z)[k] == added[k - before.len()]);
            }
        }
    }
}

/// A drilling operation leaves the tool at the clearance height: every
/// retract of the program it compiles from the tool path it generates goes
/// to the operation's clearance height, and the program ends with a retract
/// to that height followed by the operation's end.
pub proof fn lemma_drilling_retracts_to_clearance(drill: Drill, common: CommonView)
    requires
        drill.wf(),
        drill.spec_generate(common) is Ok,
    ensures
        drill.spec_compile(common, drill.spec_generate(common)->Ok_0) is Ok,
        ({
            let program = drill.spec_compile(common, drill.spec_generate(common)->Ok_0)->Ok_0;
            &&& program.len() >= 6
            &&& forall|i: int| 0 <= i < program.len() ==> retracts_to(#[trigger] program[i], common.clearance)
            &&& program[program.len() - 2] == (BlockView::Retract { height: common.clearance })
            &&& program[program.len() - 1] == (BlockView::OperationEnd { text: None })
        }),
{
    let segments = drill.spec_generate(common)->Ok_0;
    assert forall|i: int| 0 <= i < segments.len() implies pattern_retracts_to(
        #[trigger] segments[i],
        common.clearance,
    ) by {}
    lemma_cycle_blocks_retract_to(segments, common.clearance);
    let program = drill_blocks(common, segments);
    let prologue = drill_prologue(common);
    let middle = if common.capabilities.contains_key("drill"@) {
        seq![drill_cycle_view()] + cycle_blocks(segments, common.clearance)
    } else {
        Seq::<BlockView>::empty()
    };
    let epilogue = drill_epilogue(common);
    assert(program =~= prologue + middle + epilogue);
    assert forall|i: int| 0 <= i < program.len() implies retracts_to(#[trigger] program[i], common.clearance) by {
        if i < 5 {
            assert(program[i] == prologue[i]);
        } else if i < 5 + middle.len() {
            assert(program[i] == middle[i - 5]);
            if common.capabilities.contains_key("drill"@) && i > 5 {
                assert(middle[i - 5] == cycle_blocks(segments, common.clearance)[i - 6]);
            }
        } else {
            assert(program[i] == epilogue[i - 5 - middle.len()]);
        }
    }
}

/// Manual drilling at points runs with the operation's own tool: the
/// program changes to the operation's tool at its spindle speed, stops for
/// the operator, turns the spindle the tool's way, and visits each point in
/// order by a rapid move at the job's clearance height, retracting to that
/// height before and after.
pub proof fn lemma_manual_drilling_uses_the_operation(operation: DrillingOperation, points: Seq<[i64; 2]>)
    requires
        operation.locations matches OperationLocations::Points { points: p } && p@ == points,
    ensures
        spec_process_drilling(operation, DrillStrategy::Manual) is Ok,
        ({
            let program = spec_process_drilling(operation, DrillStrategy::Manual)->Ok_0;
            let z = operation.global_clearance;
            &&& program.len() == points.len() + 6
            &&& program[0] == (BlockView::ToolChange {
                tool_number: Some(operation.tool.tool_number),
                spindle_speed: operation.tool.spindle_speed,
            })
            &&& program[1] is Comment
            &&& program[2] == BlockView::Stop
            &&& program[3] == (BlockView::SpindleOn { direction: operation.tool.spindle_direction })
            &&& program[4] == (BlockView::Retract { height: z })
            &&& forall|i: int| 0 <= i < points.len() ==> #[trigger] program[5 + i] == (BlockView::Rapid {
                x: points[i][0],
                y: points[i][1],
                z,
            })
            &&& program[points.len() + 5int] == (BlockView::Retract { height: z })
        }),
{
    let z = operation.global_clearance;
    let program = spec_process_drilling(operation, DrillStrategy::Manual)->Ok_0;
    assert(program == single_block_blocks(
        operation.tool@,
        z,
        manual_drill_note(),
        crate::domain::toolpath::rapids_at(points, z),
    ));
    assert forall|i: int| 0 <= i < points.len() implies #[trigger] program[5 + i] == (BlockView::Rapid {
        x: points[i][0],
        y: points[i][1],
        z,
    }) by {}
}

} // verus!
