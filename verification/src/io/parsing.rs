use vstd::prelude::*;
use crate::domain::postprocessors::PostprocessorCapabilities;
use crate::domain::tool::{SpindleDirection, Tool, ToolView, default_tool};
use crate::domain::toolpath::Locations;
use crate::domain::units::Units;
use crate::error::ChipmunkError;
use crate::nc::ir::BlockView;
use crate::operations::{CommonView, Operation, OperationCommon, OperationVariant};
use crate::operations::drill::Drill;
use crate::operations::quill::Quill;

verus! {

/// A job as read from its file: an optional name, the post-processor to
/// use, the clearance height for rapid moves, the operations, and the units
/// (millimetres by default).
#[derive(Debug, Clone)]
pub struct JobConfig {
    pub name: Option<String>,
    pub postprocessor: String,
    pub clearance: i64,
    pub operations: Vec<OperationConfig>,
    pub units: Units,
}

/// What every operation may be given.
#[derive(Debug, Clone)]
pub struct CommonOperationConfig {
    pub name: Option<String>,
    pub tool_number: Option<u32>,
    pub tool_name: Option<String>,
    pub tool_diameter: Option<i64>,
    pub spindle_speed: Option<i64>,
}

/// An operation as read from a job file.
#[derive(Debug, Clone)]
pub enum OperationConfig {
    Quill { common: CommonOperationConfig, locations: Locations },
    Drill { common: CommonOperationConfig, locations: Locations },
}

impl OperationConfig {
    /// The locations are within the limits the operation needs.
    pub open spec fn wf(self) -> bool {
        self.spec_kind().wf()
    }

    /// The name of the operation: the given one, else empty.
    pub open spec fn spec_name(self) -> Seq<char> {
        let common = match self {
            OperationConfig::Quill { common, .. } => common,
            OperationConfig::Drill { common, .. } => common,
        };
        match common.name {
            Some(n) => n@,
            None => Seq::empty(),
        }
    }

    /// The kind of operation, with its locations.
    pub open spec fn spec_kind(self) -> OperationVariant {
        match self {
            OperationConfig::Quill { locations, .. } => OperationVariant::Quill(Quill { locations }),
            OperationConfig::Drill { locations, .. } => OperationVariant::Drill(Drill { locations }),
        }
    }

    /// The part of the configuration that every operation has.
    pub open spec fn spec_config(self) -> CommonOperationConfig {
        match self {
            OperationConfig::Quill { common, .. } => common,
            OperationConfig::Drill { common, .. } => common,
        }
    }

    /// The operation's tool, as configured: the tool number and spindle
    /// speed are required (an error names the first one missing); the name
    /// defaults to "Unnamed Tool" and the diameter to 0, which no operation
    /// uses yet; the spindle turns clockwise.
    pub open spec fn spec_tool(self) -> Result<ToolView, ChipmunkError> {
        let config = self.spec_config();
        match config.tool_number {
            None => Err(ChipmunkError::MissingToolNumber),
            Some(number) => match config.spindle_speed {
                None => Err(ChipmunkError::MissingSpindleSpeed),
                Some(speed) => Ok(
                    ToolView {
                        tool_number: number,
                        name: match config.tool_name {
                            Some(n) => n@,
                            None => default_tool().name,
                        },
                        diameter: match config.tool_diameter {
                            Some(d) => d,
                            None => 0,
                        },
                        spindle_speed: speed,
                        spindle_direction: SpindleDirection::Cw,
                    },
                ),
            },
        }
    }

    /// What the operation has in common with every other, given its tool:
    /// its name, the tool, the post-processor's capabilities and the job's
    /// clearance height.
    pub open spec fn spec_common(
        self,
        tool: ToolView,
        clearance: i64,
        capabilities: Map<Seq<char>, Seq<Seq<char>>>,
    ) -> CommonView {
        CommonView { name: self.spec_name(), tool, capabilities, clearance }
    }

    /// The NC blocks of the operation in a job with the given clearance and
    /// post-processor capabilities, or the first error on the way (a missing
    /// tool parameter first).
    pub open spec fn spec_blocks(
        self,
        clearance: i64,
        capabilities: Map<Seq<char>, Seq<Seq<char>>>,
    ) -> Result<Seq<BlockView>, ChipmunkError> {
        match self.spec_tool() {
            Err(e) => Err(e),
            Ok(tool) => self.spec_kind().spec_blocks(self.spec_common(tool, clearance, capabilities)),
        }
    }

    /// The operation this configuration describes, in a job with the given
    /// clearance height and post-processor capabilities, with the tool of
    /// [`OperationConfig::spec_tool`]; or the error of a missing tool
    /// parameter.
    pub fn into_operation<'a>(self, clearance: i64, capabilities: &'a PostprocessorCapabilities) -> (r:
        Result<Operation<'a>, ChipmunkError>)
        ensures
            match self.spec_tool() {
                Ok(tool) => r matches Ok(op) && {
                    &&& op.common@ == self.spec_common(tool, clearance, capabilities@)
                    &&& op.common.capabilities == capabilities
                    &&& op.kind == self.spec_kind()
                },
                Err(e) => r matches Err(error) && error == e,
            },
    {
        let (common_cfg, kind) = match self {
            OperationConfig::Quill { common, locations } => (
                common,
                OperationVariant::Quill(Quill { locations }),
            ),
            OperationConfig::Drill { common, locations } => (
                common,
                OperationVariant::Drill(Drill { locations }),
            ),
        };
        let tool_number = match common_cfg.tool_number {
            Some(n) => n,
            None => return Err(ChipmunkError::MissingToolNumber),
        };
        let spindle_speed = match common_cfg.spindle_speed {
            Some(v) => v,
            None => return Err(ChipmunkError::MissingSpindleSpeed),
        };
        let default = Tool::default();
        let tool = Tool {
            tool_number,
            name: match common_cfg.tool_name {
                Some(n) => n,
                None => default.name,
            },
            diameter: match common_cfg.tool_diameter {
                Some(d) => d,
                None => 0,
            },
            spindle_speed,
            spindle_direction: SpindleDirection::Cw,
        };
        let name = match common_cfg.name {
            Some(n) => n,
            None => String::new(),
        };
        Ok(Operation { common: OperationCommon { name, tool, clearance, capabilities }, kind })
    }
}

} // verus!
