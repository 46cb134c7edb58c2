pub mod filesystem;
pub mod git;
pub mod pack;
pub mod pattern;
pub mod rule_laws;
pub mod shell;
pub mod text;
pub mod text_laws;
