use chipmunk::domain::operation::{process_drilling, DrillStrategy, Operation as DrillOperation, OperationLocations, OperationType as Kind};
use chipmunk::domain::postprocessors::PostprocessorCapabilities;
use chipmunk::domain::tool::{SpindleDirection, SpindleState, Tool};
use chipmunk::domain::toolpath::{Locations, Pattern, PatternParameters, ToolpathSegment};
use chipmunk::domain::units::SCALE;
use chipmunk::error::{ChipmunkError, PatternError};
use chipmunk::nc::ir::{annotate_blocks, NCBlock};
use chipmunk::operations::drill::Drill;
use chipmunk::operations::quill::Quill;
use chipmunk::operations::{Operation, OperationCommon, OperationType, OperationVariant};

fn caps(entries: &[(&str, &[&str])]) -> PostprocessorCapabilities {
    let mut c = PostprocessorCapabilities::new();
    for (name, patterns) in entries {
        c.insert(name.to_string(), patterns.iter().map(|p| p.to_string()).collect());
    }
    c
}

fn common(capabilities: &PostprocessorCapabilities) -> OperationCommon<'_> {
    OperationCommon { name: "op".to_string(), tool: Tool::default(), capabilities, clearance: 10 * SCALE }
}

fn circle(count: Option<i32>, step: Option<i64>, points: Vec<[i64; 2]>) -> Pattern {
    Pattern::Circular {
        cc: [100, 200],
        diameter: Some(20 * SCALE),
        radius: None,
        angle_start: None,
        angle_stop: None,
        angle_step: step,
        count,
        points,
    }
}

#[test]
fn quill_generates_rapids_at_points() {
    let c = caps(&[]);
    let quill = Quill { locations: Locations::Points { points: vec![[1, 2], [3, 4]] } };
    let segments = quill.generate(&common(&c)).unwrap();
    assert_eq!(segments.len(), 2);
    assert_eq!((segments[1].x, segments[1].y, segments[1].z), (3, 4, 10 * SCALE));
}

#[test]
fn quill_rejects_patterns() {
    let c = caps(&[("drill", &["circular"])]);
    let pattern = circle(Some(4), None, vec![]);
    let quill = Quill { locations: Locations::Pattern { pattern: pattern.clone() } };
    assert_eq!(
        quill.generate(&common(&c)).unwrap_err(),
        ChipmunkError::PatternNotImplemented(pattern.parameters())
    );
}

#[test]
fn quill_program_asks_for_single_block_mode() {
    let c = caps(&[]);
    let quill = Quill { locations: Locations::Points { points: vec![] } };
    let blocks = quill.compile(&common(&c), &[ToolpathSegment::rapid(1, 2, 0)]).unwrap();
    assert_eq!(blocks.len(), 7);
    match &blocks[1] {
        NCBlock::Comment { text } => assert_eq!(text, "ENABLE SINGLE BLOCK MODE FOR QUILL DRILLING"),
        other => panic!("unexpected {:?}", other),
    }
    assert!(matches!(blocks[5], NCBlock::Rapid { x: 1, y: 2, z } if z == 10 * SCALE));
}

#[test]
fn drill_program_with_drilling_cycle() {
    let c = caps(&[("drill", &[])]);
    let drill = Drill { locations: Locations::Points { points: vec![] } };
    let mut commented = ToolpathSegment::rapid(5, 6, 0);
    commented.comment = Some("first hole".to_string());
    let mut patterned = ToolpathSegment::rapid(7, 8, 0);
    patterned.pattern = Some(NCBlock::Home);
    let blocks = drill.compile(&common(&c), &[commented, patterned]).unwrap();
    let names: Vec<String> = blocks.iter().map(|b| format!("{:?}", b).split([' ', '{']).next().unwrap().to_string()).collect();
    assert_eq!(
        names,
        vec![
            "ToolChange", "OperationStart", "CoolantOn", "SpindleOn", "Retract", "CycleDrill", "Comment",
            "CycleCall", "Home", "SpindleOff", "CoolantOff", "Retract", "OperationEnd",
        ]
    );
    assert!(matches!(blocks[1], NCBlock::OperationStart { text: None }));
    assert!(matches!(
        blocks[5],
        NCBlock::CycleDrill { depth, surface_position: 0, plunge_depth: 0, feed, dwell_top: 0, dwell_bottom: 0, clearance, second_clearance, tip_trough: false }
            if depth == 20 * SCALE && feed == 100 * SCALE && clearance == 5 * SCALE && second_clearance == 20 * SCALE
    ));
    assert!(matches!(&blocks[6], NCBlock::Comment { text } if text == "first hole"));
    assert!(matches!(blocks[7], NCBlock::CycleCall { x: 5, y: 6, z } if z == 10 * SCALE));
    // A drilling operation stops the machine.
    let annotated = annotate_blocks(&blocks).unwrap();
    assert_eq!(annotated[7].state.spindle, SpindleState::Cw);
    assert!(annotated[7].state.coolant);
    let last = annotated.last().unwrap();
    assert_eq!(last.state.spindle, SpindleState::Off);
    assert!(!last.state.coolant);
}

#[test]
fn drill_program_without_drilling_cycle() {
    let c = caps(&[]);
    let drill = Drill { locations: Locations::Points { points: vec![] } };
    let blocks = drill.compile(&common(&c), &[ToolpathSegment::rapid(5, 6, 0)]).unwrap();
    assert_eq!(blocks.len(), 9);
    assert!(matches!(blocks[5], NCBlock::SpindleOff));
}

#[test]
fn drill_on_pattern_needs_drilling_cycle() {
    let c = caps(&[("bore", &["circular"])]);
    let drill = Drill { locations: Locations::Pattern { pattern: circle(Some(4), None, vec![[0, 0]; 4]) } };
    let expected = PatternParameters::Circular {
        cc: [100, 200],
        diameter: Some(20 * SCALE),
        radius: None,
        angle_start: None,
        angle_stop: None,
        angle_step: None,
        count: Some(4),
    };
    assert_eq!(drill.generate(&common(&c)).unwrap_err(), ChipmunkError::PatternNotImplemented(expected));
}

#[test]
fn drill_on_pattern_run_by_postprocessor() {
    let c = caps(&[("drill", &["linear", "circular"])]);
    let drill = Drill { locations: Locations::Pattern { pattern: circle(Some(4), None, vec![[0, 0]; 4]) } };
    let segments = drill.generate(&common(&c)).unwrap();
    assert_eq!(segments.len(), 1);
    assert_eq!((segments[0].x, segments[0].y, segments[0].z), (100, 200, 10 * SCALE));
    match &segments[0].pattern {
        Some(NCBlock::PatternCircular {
            x,
            y,
            diameter,
            angle_start,
            angle_stop,
            angle_step,
            count,
            clearance,
            surface_position,
            second_clearance,
        }) => {
            assert_eq!((*x, *y), (100, 200));
            assert_eq!(*diameter, 20 * SCALE);
            assert_eq!((*angle_start, *angle_stop, *angle_step), (0, 360 * SCALE, 90 * SCALE));
            assert_eq!(*count, 4);
            assert_eq!((*clearance, *surface_position, *second_clearance), (5 * SCALE, 0, 10 * SCALE));
        }
        other => panic!("unexpected {:?}", other),
    }
}

#[test]
fn drill_on_pattern_expanded_to_points() {
    let c = caps(&[("drill", &["linear"])]);
    let points = vec![[110, 200], [100, 210], [90, 200], [100, 190]];
    let drill = Drill { locations: Locations::Pattern { pattern: circle(Some(4), None, points) } };
    let segments = drill.generate(&common(&c)).unwrap();
    let got: Vec<(i64, i64, i64)> = segments.iter().map(|s| (s.x, s.y, s.z)).collect();
    let z = 10 * SCALE;
    assert_eq!(got, vec![(110, 200, z), (100, 210, z), (90, 200, z), (100, 190, z)]);
}

#[test]
fn drill_on_ill_formed_pattern() {
    let c = caps(&[("drill", &["circular"])]);
    let drill = Drill { locations: Locations::Pattern { pattern: circle(None, None, vec![]) } };
    assert_eq!(
        drill.generate(&common(&c)).unwrap_err(),
        ChipmunkError::Pattern(PatternError::MissingCountOrStep)
    );
}

#[test]
fn operation_dispatches_on_its_kind() {
    let c = caps(&[("drill", &[])]);
    let op = Operation {
        common: common(&c),
        kind: OperationVariant::Drill(Drill { locations: Locations::Points { points: vec![[1, 1]] } }),
    };
    let segments = op.generate().unwrap();
    let blocks = op.compile(&segments).unwrap();
    assert_eq!(blocks.len(), 11);
    assert!(matches!(blocks[6], NCBlock::CycleCall { x: 1, y: 1, .. }));
}

#[test]
fn process_drilling_manual_points() {
    let c = caps(&[]);
    let locations = OperationLocations::Points { points: vec![[1, 2]] };
    let op = DrillOperation {
        name: "holes".to_string(),
        operation_type: Kind::Drilling,
        tool: Tool::default(),
        global_clearance: 7,
        capabilities: &c,
        locations: &locations,
    };
    let blocks = process_drilling(&op, &DrillStrategy::Manual).unwrap();
    assert_eq!(blocks.len(), 7);
    assert!(matches!(blocks[5], NCBlock::Rapid { x: 1, y: 2, z: 7 }));
    assert!(matches!(blocks[3], NCBlock::SpindleOn { direction: SpindleDirection::Cw }));
    assert_eq!(
        process_drilling(&op, &DrillStrategy::General).unwrap_err(),
        ChipmunkError::GeneralDrillingNotImplemented
    );
}

#[test]
fn process_drilling_rejects_patterns() {
    let c = caps(&[]);
    let locations = OperationLocations::Pattern { pattern: circle(Some(3), None, vec![]) };
    let op = DrillOperation {
        name: "holes".to_string(),
        operation_type: Kind::Drilling,
        tool: Tool::default(),
        global_clearance: 7,
        capabilities: &c,
        locations: &locations,
    };
    assert_eq!(
        process_drilling(&op, &DrillStrategy::Manual).unwrap_err(),
        ChipmunkError::PatternNotImplemented(circle(Some(3), None, vec![]).parameters())
    );
}

#[test]
fn operation_type_names() {
    assert_eq!(Kind::Drilling.name(), "Drilling");
    assert_eq!(Kind::Milling.name(), "Milling");
}
