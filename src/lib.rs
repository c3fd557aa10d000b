//! Opens a pull-request comparison page for the current branch of a git project.
//!
//! The library holds the decisions: the per-project configuration record and its
//! text form, the interactive collection of that record, and the comparison URL.
//! Discovery of the project, file access, terminal input and the browser are left
//! to the program that drives it.

pub mod config;
pub mod record;
pub mod resolver;
pub mod text;
pub mod url;
