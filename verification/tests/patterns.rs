use chipmunk::domain::postprocessors::PostprocessorCapabilities;
use chipmunk::domain::tool::Tool;
use chipmunk::domain::toolpath::Pattern;
use chipmunk::domain::units::SCALE;
use chipmunk::error::PatternError;
use chipmunk::operations::OperationCommon;

fn pattern(
    diameter: Option<i64>,
    radius: Option<i64>,
    start: Option<i64>,
    stop: Option<i64>,
    step: Option<i64>,
    count: Option<i32>,
) -> Pattern {
    Pattern::Circular {
        cc: [0, 0],
        diameter,
        radius,
        angle_start: start,
        angle_stop: stop,
        angle_step: step,
        count,
        points: vec![],
    }
}

fn degrees(values: &[i64]) -> Vec<i64> {
    values.iter().map(|v| v * SCALE).collect()
}

#[test]
fn count_spaces_locations_evenly() {
    let layout = pattern(None, Some(5 * SCALE), None, None, None, Some(4)).layout().unwrap();
    assert_eq!(layout.radius, 5 * SCALE);
    assert_eq!(layout.center, [0, 0]);
    assert_eq!(layout.angles, degrees(&[0, 90, 180, 270]));
}

#[test]
fn negative_count_steps_the_other_way() {
    let layout = pattern(None, Some(SCALE), None, None, None, Some(-4)).layout().unwrap();
    assert_eq!(layout.angles, degrees(&[0, -90, -180, -270]));
}

#[test]
fn count_between_given_angles() {
    let layout = pattern(None, Some(SCALE), Some(10 * SCALE), Some(40 * SCALE), None, Some(3)).layout().unwrap();
    assert_eq!(layout.angles, degrees(&[10, 20, 30]));
}

#[test]
fn count_rounds_angles_towards_zero() {
    let layout = pattern(None, Some(SCALE), Some(0), Some(10), None, Some(3)).layout().unwrap();
    assert_eq!(layout.angles, vec![0, 3, 6]);
}

#[test]
fn step_includes_the_stop_angle() {
    let layout = pattern(None, Some(SCALE), None, None, Some(90 * SCALE), None).layout().unwrap();
    assert_eq!(layout.angles, degrees(&[0, 90, 180, 270, 360]));
}

#[test]
fn negative_step_counts_down() {
    let layout = pattern(None, Some(SCALE), Some(90 * SCALE), Some(0), Some(-45 * SCALE), None).layout().unwrap();
    assert_eq!(layout.angles, degrees(&[90, 45, 0]));
}

#[test]
fn step_away_from_stop_gives_no_location() {
    let layout = pattern(None, Some(SCALE), Some(90 * SCALE), Some(0), Some(45 * SCALE), None).layout().unwrap();
    assert!(layout.angles.is_empty());
}

#[test]
fn diameter_gives_half_the_radius() {
    assert_eq!(pattern(Some(9), None, None, None, None, Some(1)).radius(), Ok(4));
    assert_eq!(pattern(Some(-9), None, None, None, None, Some(1)).radius(), Ok(-4));
    assert_eq!(pattern(Some(20 * SCALE), Some(10 * SCALE), None, None, None, Some(1)).radius(), Ok(10 * SCALE));
    assert_eq!(pattern(Some(22), Some(10), None, None, None, Some(1)).radius(), Ok(10));
}

#[test]
fn pattern_errors() {
    let cases = [
        (pattern(Some(23), Some(10), None, None, None, Some(1)), PatternError::InconsistentSize),
        (pattern(None, None, None, None, None, Some(1)), PatternError::MissingSize),
        (pattern(None, Some(1), None, None, Some(1), Some(1)), PatternError::CountAndStep),
        (pattern(None, Some(1), None, None, None, Some(0)), PatternError::ZeroCount),
        (pattern(None, Some(1), None, None, Some(0), None), PatternError::ZeroStep),
        (pattern(None, Some(1), None, None, None, None), PatternError::MissingCountOrStep),
        // A size error comes before a spacing error.
        (pattern(None, None, None, None, None, None), PatternError::MissingSize),
    ];
    for (p, e) in cases.iter() {
        assert_eq!(p.layout().unwrap_err(), *e);
    }
}

#[test]
fn pattern_segment_with_step() {
    let caps = PostprocessorCapabilities::new();
    let common = OperationCommon { name: String::new(), tool: Tool::default(), capabilities: &caps, clearance: 3 };
    let p = Pattern::Circular {
        cc: [4, 5],
        diameter: None,
        radius: Some(6),
        angle_start: Some(0),
        angle_stop: Some(100 * SCALE),
        angle_step: Some(30 * SCALE),
        count: None,
        points: vec![],
    };
    let segment = p.into_segment(&common).unwrap();
    assert_eq!((segment.x, segment.y, segment.z), (4, 5, 3));
    let text = format!("{:?}", segment.pattern.unwrap());
    assert_eq!(
        text,
        format!(
            "PatternCircular {{ x: 4, y: 5, diameter: 12, angle_start: 0, angle_stop: {}, angle_step: {}, count: 4, clearance: {}, surface_position: 0, second_clearance: 3 }}",
            100 * SCALE,
            30 * SCALE,
            5 * SCALE
        )
    );
    let bad = pattern(None, None, None, None, Some(30), None);
    assert_eq!(bad.into_segment(&common).unwrap_err(), PatternError::MissingSize);
}

#[test]
fn step_keeps_an_angle_just_past_the_stop() {
    // 360.00000001 degrees: the second location passes 360 by 10 billionths
    // of a degree, within the tolerance of a billionth of a radian.
    let step = 360 * SCALE + 10;
    let layout = pattern(None, Some(SCALE), None, None, Some(step), None).layout().unwrap();
    assert_eq!(layout.angles, vec![0, step]);
    // 58 billionths past the stop is beyond the tolerance.
    let step = 360 * SCALE + 58;
    let layout = pattern(None, Some(SCALE), None, None, Some(step), None).layout().unwrap();
    assert_eq!(layout.angles, vec![0]);
    let layout = pattern(None, Some(SCALE), Some(0), Some(-90 * SCALE), Some(-(90 * SCALE + 57)), None).layout().unwrap();
    assert_eq!(layout.angles, vec![0, -(90 * SCALE + 57)]);
}
