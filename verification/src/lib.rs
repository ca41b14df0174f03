//! Chipmunk: computer-aided manufacturing for people who own a machine.
//!
//! The library turns operation descriptions (drill and quill operations at
//! points or on circular patterns) into a machine-independent sequence of NC
//! blocks, annotates that sequence with the machine state, and post-processes
//! what a post-processor script hands back.
//!
//! Every length, feed, speed and angle is a fixed-point integer: see
//! [`domain::units::SCALE`].
pub mod domain;
pub mod error;
pub mod io;
pub mod laws;
pub mod nc;
pub mod operations;
pub mod toolpath;
