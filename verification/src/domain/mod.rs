pub mod operation;
pub mod postprocessors;
pub mod tool;
pub mod toolpath;
pub mod units;
