pub mod bridge;
pub mod compiler;
pub mod ir;
pub mod postprocessors;
