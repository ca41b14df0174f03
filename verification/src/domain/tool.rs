use vstd::prelude::*;
use crate::domain::units::SCALE;

verus! {

/// Direction in which a spindle turns.
#[derive(Debug, Clone, Copy, PartialEq, Eq, Structural)]
pub enum SpindleDirection {
    Cw,
    Ccw,
}

/// What the spindle of the machine is doing.
#[derive(Debug, Clone, Copy, PartialEq, Eq, Structural)]
pub enum SpindleState {
    Off,
    Cw,
    Ccw,
}

impl SpindleState {
    /// The state of a spindle switched on in `direction`.
    pub open spec fn spec_turning(direction: SpindleDirection) -> SpindleState {
        match direction {
            SpindleDirection::Cw => SpindleState::Cw,
            SpindleDirection::Ccw => SpindleState::Ccw,
        }
    }

    /// The state of a spindle switched on in `direction`.
    #[verifier::when_used_as_spec(spec_turning)]
    pub fn turning(direction: SpindleDirection) -> (r: SpindleState)
        ensures
            r == Self::spec_turning(direction),
    {
        match direction {
            SpindleDirection::Cw => SpindleState::Cw,
            SpindleDirection::Ccw => SpindleState::Ccw,
        }
    }
}

/// A cutting tool.
#[derive(Debug, Clone)]
pub struct Tool {
    pub tool_number: u32,
    pub name: String,
    /// Diameter, in fixed-point units (see [`SCALE`]).
    pub diameter: i64,
    /// Spindle speed in revolutions per minute, fixed-point.
    pub spindle_speed: i64,
    pub spindle_direction: SpindleDirection,
}

/// A [`Tool`] with its name taken as a character sequence.
pub struct ToolView {
    pub tool_number: u32,
    pub name: Seq<char>,
    pub diameter: i64,
    pub spindle_speed: i64,
    pub spindle_direction: SpindleDirection,
}

impl View for Tool {
    type V = ToolView;

    open spec fn view(&self) -> ToolView {
        ToolView {
            tool_number: self.tool_number,
            name: self.name@,
            diameter: self.diameter,
            spindle_speed: self.spindle_speed,
            spindle_direction: self.spindle_direction,
        }
    }
}

/// The tool that operations use until tools are read from the job:
/// tool 1, "Unnamed Tool", of diameter 0, turning clockwise at 400 rpm.
pub open spec fn default_tool() -> ToolView {
    ToolView {
        tool_number: 1,
        name: "Unnamed Tool"@,
        diameter: 0,
        spindle_speed: (400 * SCALE) as i64,
        spindle_direction: SpindleDirection::Cw,
    }
}

impl Default for Tool {
    /// The tool of [`default_tool`].
    fn default() -> (r: Tool)
        ensures
            r@ == default_tool(),
    {
        Tool {
            tool_number: 1,
            name: String::from_str("Unnamed Tool"),
            diameter: 0,
            spindle_speed: 400 * SCALE,
            spindle_direction: SpindleDirection::Cw,
        }
    }
}

} // verus!
