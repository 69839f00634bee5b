//! The verified core of `stackymcstackface`, a helper for stacked pull requests
//! on GitHub: which commands to run, what their replies mean, what to print, and
//! when to stop. The library runs nothing itself; a caller performs the actions
//! it asks for and hands back what came of them.

pub mod command;
pub mod doctor;
pub mod gh;
pub mod git;
pub mod laws;
pub mod parent;
pub mod plan;
pub mod promises;
pub mod readiness;
pub mod report;
pub mod stack;
pub mod step;
pub mod target;
pub mod text;
pub mod ui;
