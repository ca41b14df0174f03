use chipmunk::domain::postprocessors::PostprocessorCapabilities;
use chipmunk::domain::toolpath::{Locations, PatternParameters};
use chipmunk::domain::units::SCALE;
use chipmunk::domain::tool::SpindleDirection;
use chipmunk::error::{ChipmunkError, PatternError};
use chipmunk::io::job::{compile_operations, file_stem, job_name, program_name};
use chipmunk::io::parsing::{CommonOperationConfig, OperationConfig};
use chipmunk::nc::ir::NCBlock;
use chipmunk::operations::OperationVariant;

fn common(name: Option<&str>) -> CommonOperationConfig {
    CommonOperationConfig {
        name: name.map(|n| n.to_string()),
        tool_number: Some(3),
        tool_name: None,
        tool_diameter: None,
        spindle_speed: Some(800 * SCALE),
    }
}

fn points(p: &[[i64; 2]]) -> Locations {
    Locations::Points { points: p.to_vec() }
}

#[test]
fn into_operation_uses_configured_tool_and_given_name() {
    let caps = PostprocessorCapabilities::new();
    let mut configured = common(Some("holes"));
    configured.tool_name = Some("Drill 8.5mm".to_string());
    configured.tool_diameter = Some(8_500_000_000);
    let config = OperationConfig::Drill { common: configured, locations: points(&[[1, 2]]) };
    let op = config.into_operation(5 * SCALE, &caps).unwrap();
    assert_eq!(op.common.name, "holes");
    assert_eq!(op.common.tool.tool_number, 3);
    assert_eq!(op.common.tool.name, "Drill 8.5mm");
    assert_eq!(op.common.tool.diameter, 8_500_000_000);
    assert_eq!(op.common.tool.spindle_speed, 800 * SCALE);
    assert_eq!(op.common.tool.spindle_direction, SpindleDirection::Cw);
    assert_eq!(op.common.clearance, 5 * SCALE);
    assert!(std::ptr::eq(op.common.capabilities, &caps));
    assert!(matches!(op.kind, OperationVariant::Drill(_)));
    let unnamed = OperationConfig::Quill { common: common(None), locations: points(&[]) };
    let op = unnamed.into_operation(0, &caps).unwrap();
    assert_eq!(op.common.name, "");
    assert_eq!(op.common.tool.name, "Unnamed Tool");
    assert_eq!(op.common.tool.diameter, 0);
    assert!(matches!(op.kind, OperationVariant::Quill(_)));
}

#[test]
fn missing_tool_parameters_are_errors() {
    let caps = PostprocessorCapabilities::new();
    let mut no_number = common(None);
    no_number.tool_number = None;
    no_number.spindle_speed = None;
    let config = OperationConfig::Drill { common: no_number, locations: points(&[]) };
    assert_eq!(config.into_operation(0, &caps).err().unwrap(), ChipmunkError::MissingToolNumber);
    let mut no_speed = common(None);
    no_speed.spindle_speed = None;
    let config = OperationConfig::Quill { common: no_speed, locations: points(&[]) };
    assert_eq!(config.into_operation(0, &caps).err().unwrap(), ChipmunkError::MissingSpindleSpeed);
    let jobs = vec![OperationConfig::Quill { common: common(None), locations: points(&[]) }, config_without_speed()];
    assert_eq!(compile_operations(jobs, 0, &caps).unwrap_err(), ChipmunkError::MissingSpindleSpeed);
}

fn config_without_speed() -> OperationConfig {
    let mut no_speed = common(None);
    no_speed.spindle_speed = None;
    OperationConfig::Drill { common: no_speed, locations: points(&[]) }
}

#[test]
fn operations_use_their_tool() {
    let caps = PostprocessorCapabilities::new();
    let blocks = compile_operations(vec![OperationConfig::Quill { common: common(None), locations: points(&[]) }], 0, &caps)
        .unwrap();
    assert!(matches!(blocks[0], NCBlock::ToolChange { tool_number: Some(3), spindle_speed } if spindle_speed == 800 * SCALE));
}

#[test]
fn error_messages() {
    assert_eq!(ChipmunkError::NoOperations.message(""), "No operations defined");
    assert_eq!(ChipmunkError::MissingToolNumber.message(""), "Operation is missing its tool_number");
    assert_eq!(
        ChipmunkError::Pattern(PatternError::ZeroCount).message(""),
        "Circular pattern: count must not be zero"
    );
    assert_eq!(ChipmunkError::PostprocessorFailed("boom".to_string()).message(""), "boom");
    assert_eq!(
        ChipmunkError::PostprocessorUnexpectedType("table".to_string()).message(""),
        "Postprocessor returned unexpected type: table"
    );
    let parameters = PatternParameters::Circular {
        cc: [0, 0],
        diameter: None,
        radius: Some(1),
        angle_start: None,
        angle_stop: None,
        angle_step: None,
        count: Some(2),
    };
    assert_eq!(
        ChipmunkError::PatternNotImplemented(parameters).message("Circular { count: Some(2) }"),
        "Drilling pattern Circular { count: Some(2) } not implemented yet!"
    );
}

#[test]
fn job_without_operations_is_an_error() {
    let caps = PostprocessorCapabilities::new();
    assert_eq!(compile_operations(vec![], 0, &caps).unwrap_err(), ChipmunkError::NoOperations);
}

#[test]
fn job_blocks_follow_operation_order() {
    let mut caps = PostprocessorCapabilities::new();
    caps.insert("drill".to_string(), vec![]);
    let ops = vec![
        OperationConfig::Quill { common: common(None), locations: points(&[[1, 1]]) },
        OperationConfig::Drill { common: common(None), locations: points(&[[2, 2], [3, 3]]) },
    ];
    let blocks = compile_operations(ops, 10, &caps).unwrap();
    // Quill: 5 + 1 + 1 blocks; drill: 5 + 1 + 2 + 4 blocks.
    assert_eq!(blocks.len(), 7 + 12);
    assert!(matches!(blocks[5], NCBlock::Rapid { x: 1, y: 1, z: 10 }));
    assert!(matches!(blocks[7], NCBlock::ToolChange { .. }));
    assert!(matches!(blocks[13], NCBlock::CycleCall { x: 2, y: 2, z: 10 }));
    assert!(matches!(blocks[14], NCBlock::CycleCall { x: 3, y: 3, z: 10 }));
    assert!(matches!(blocks[18], NCBlock::OperationEnd { text: None }));
}

#[test]
fn job_stops_at_first_failing_operation() {
    let caps = PostprocessorCapabilities::new();
    let pattern = chipmunk::domain::toolpath::Pattern::Circular {
        cc: [0, 0],
        diameter: None,
        radius: Some(1),
        angle_start: None,
        angle_stop: None,
        angle_step: None,
        count: Some(2),
        points: vec![],
    };
    let ops = vec![
        OperationConfig::Drill { common: common(None), locations: points(&[[2, 2]]) },
        OperationConfig::Quill { common: common(None), locations: Locations::Pattern { pattern: pattern.clone() } },
        OperationConfig::Drill { common: common(None), locations: points(&[[2, 2]]) },
    ];
    assert_eq!(
        compile_operations(ops, 10, &caps).unwrap_err(),
        ChipmunkError::PatternNotImplemented(pattern.parameters())
    );
}

#[test]
fn program_name_defaults_to_unnamed() {
    assert_eq!(program_name(&Some("bracket".to_string())), "bracket");
    assert_eq!(program_name(&None), "unnamed");
}

#[test]
fn file_stem_agrees_with_std_paths() {
    let paths = [
        "job.yaml", "dir/job.yaml", "/abs/dir/drill.v2.yaml", "dir/job.yaml/", "dir//job", ".hidden",
        ".hidden.yaml", "dir/.", "./", ".", "..", "dir/..", "/", "", "a.", "...", "x/./y.tar.gz", "dir/./",
        "é/ü.yaml",
    ];
    for p in paths.iter() {
        let expected = std::path::Path::new(p).file_stem().map(|s| s.to_string_lossy().into_owned());
        assert_eq!(file_stem(p), expected, "path {:?}", p);
    }
}

#[test]
fn job_name_prefers_the_given_name() {
    assert_eq!(job_name(Some("bracket".to_string()), "jobs/drill.yaml"), Some("bracket".to_string()));
    assert_eq!(job_name(None, "jobs/drill.yaml"), Some("drill".to_string()));
    assert_eq!(job_name(None, ".."), None);
}
