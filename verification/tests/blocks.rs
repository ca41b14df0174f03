use chipmunk::domain::tool::{SpindleDirection, SpindleState, Tool};
use chipmunk::domain::toolpath::ToolpathSegment;
use chipmunk::domain::units::{Units, SCALE};
use chipmunk::nc::compiler::compile_manual_drill;
use chipmunk::nc::ir::{annotate_blocks, NCBlock, NCState};
use chipmunk::toolpath::drill::manual_drill_toolpath;

fn is_rapid(block: &NCBlock, x: i64, y: i64, z: i64) -> bool {
    matches!(block, NCBlock::Rapid { x: bx, y: by, z: bz } if *bx == x && *by == y && *bz == z)
}

#[test]
fn units_names_and_default() {
    assert_eq!(Units::Mm.name(), "mm");
    assert_eq!(Units::Inch.name(), "inch");
    assert_eq!(Units::default(), Units::Mm);
}

#[test]
fn default_tool_is_tool_one_at_400_rpm() {
    let tool = Tool::default();
    assert_eq!(tool.tool_number, 1);
    assert_eq!(tool.name, "Unnamed Tool");
    assert_eq!(tool.diameter, 0);
    assert_eq!(tool.spindle_speed, 400 * SCALE);
    assert_eq!(tool.spindle_direction, SpindleDirection::Cw);
}

#[test]
fn default_state_is_spindle_off_coolant_off() {
    let state = NCState::default();
    assert_eq!(state.spindle, SpindleState::Off);
    assert!(!state.coolant);
}

#[test]
fn annotate_tracks_spindle_and_coolant() {
    let blocks = vec![
        NCBlock::SpindleOn { direction: SpindleDirection::Ccw },
        NCBlock::CoolantOn,
        NCBlock::Rapid { x: 1, y: 2, z: 3 },
        NCBlock::SpindleOff,
        NCBlock::CoolantOff,
        NCBlock::Stop,
    ];
    let annotated = annotate_blocks(&blocks).unwrap();
    assert_eq!(annotated.len(), 6);
    let expected = [
        (SpindleState::Ccw, false),
        (SpindleState::Ccw, true),
        (SpindleState::Ccw, true),
        (SpindleState::Off, true),
        (SpindleState::Off, false),
        (SpindleState::Off, false),
    ];
    for (i, (spindle, coolant)) in expected.iter().enumerate() {
        assert_eq!(annotated[i].state.spindle, *spindle, "block {}", i);
        assert_eq!(annotated[i].state.coolant, *coolant, "block {}", i);
        assert!(std::ptr::eq(annotated[i].block, &blocks[i]));
    }
}

#[test]
fn annotate_empty_program() {
    let blocks: Vec<NCBlock> = vec![];
    assert!(annotate_blocks(&blocks).unwrap().is_empty());
}

#[test]
fn duplicate_copies_texts_and_numbers() {
    let block = NCBlock::Comment { text: "deburr".to_string() };
    match block.duplicate() {
        NCBlock::Comment { text } => assert_eq!(text, "deburr"),
        other => panic!("unexpected {:?}", other),
    }
    let cycle = NCBlock::PatternCircular {
        x: 1,
        y: 2,
        diameter: 3,
        angle_start: 4,
        angle_stop: 5,
        angle_step: 6,
        count: 7,
        clearance: 8,
        surface_position: 9,
        second_clearance: 10,
    };
    assert_eq!(format!("{:?}", cycle.duplicate()), format!("{:?}", cycle));
}

#[test]
fn manual_drill_toolpath_is_one_rapid_per_point() {
    let segments = manual_drill_toolpath(&[[1, 2], [3, 4]], 10 * SCALE);
    assert_eq!(segments.len(), 2);
    assert_eq!((segments[0].x, segments[0].y, segments[0].z), (1, 2, 10 * SCALE));
    assert_eq!((segments[1].x, segments[1].y, segments[1].z), (3, 4, 10 * SCALE));
    assert!(segments.iter().all(|s| s.comment.is_none() && s.pattern.is_none()));
}

#[test]
fn manual_drill_program() {
    let tool = Tool::default();
    let segments = vec![ToolpathSegment::rapid(5, 6, 0), ToolpathSegment::rapid(7, 8, 0)];
    let blocks = compile_manual_drill(&tool, 10, &segments);
    assert_eq!(blocks.len(), 8);
    assert!(matches!(blocks[0], NCBlock::ToolChange { tool_number: Some(1), spindle_speed } if spindle_speed == 400 * SCALE));
    match &blocks[1] {
        NCBlock::Comment { text } => {
            assert_eq!(text, "ENABLE SINGLE BLOCK MODE FOR MANUAL QUILL DRILLING")
        }
        other => panic!("unexpected {:?}", other),
    }
    assert!(matches!(blocks[2], NCBlock::Stop));
    assert!(matches!(blocks[3], NCBlock::SpindleOn { direction: SpindleDirection::Cw }));
    assert!(matches!(blocks[4], NCBlock::Retract { height: 10 }));
    assert!(is_rapid(&blocks[5], 5, 6, 10));
    assert!(is_rapid(&blocks[6], 7, 8, 10));
    assert!(matches!(blocks[7], NCBlock::Retract { height: 10 }));
    // The spindle is left on: the end of the program stops it.
    let annotated = annotate_blocks(&blocks).unwrap();
    assert_eq!(annotated[7].state.spindle, SpindleState::Cw);
    assert!(!annotated[7].state.coolant);
}
