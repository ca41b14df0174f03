pub mod drill;
pub mod patterns;
