//! The parts of shell syntax that the command analyses rest on.

pub mod decode;
pub mod laws;
pub mod parts;
pub mod segments;
pub mod token;
pub mod words;
pub mod wrappers;
