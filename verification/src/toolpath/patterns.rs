pub use crate::domain::toolpath::Pattern;
