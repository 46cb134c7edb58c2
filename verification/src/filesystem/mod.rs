//! What a command does to files.

pub mod advice;
pub mod command;
pub mod executable;
pub mod flags;
pub mod frontend_laws;
pub mod frontends;
pub mod guidance;
pub mod laws;
pub mod notes;
pub mod path_laws;
pub mod paths;
pub mod patterns;
pub mod plain;
pub mod powershell;
pub mod powershell_laws;
pub mod prefix_laws;
pub mod redirect;
pub mod rm_laws;
pub mod rules;
pub mod scan;
pub mod segment;
pub mod stdin;
pub mod texts;
pub mod word_laws;
pub mod wrapper_laws;

pub use crate::filesystem::patterns::create_pack;
