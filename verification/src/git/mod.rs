//! What a command does to a Git repository.

pub mod advice;
pub mod alias;
pub mod bindings;
pub mod branch;
pub mod command;
pub mod control;
pub mod cross;
pub mod expansion;
pub mod laws;
pub mod branch_laws;
pub mod command_laws;
pub mod option_laws;
pub mod options;
pub mod plain;
pub mod powershell;
pub mod rules;
pub mod semantic;
pub mod substitution;
pub mod symbolic;
pub mod texts;
pub mod view;
pub mod word_laws;

pub use crate::git::rules::create_pack;
