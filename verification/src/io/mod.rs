pub mod job;
pub mod parsing;
