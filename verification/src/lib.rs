//! Decision logic of a scaffolder that places UI component sources into a
//! host web project: where the templates live, where the project lives, and
//! what an installation does step by step.
//!
//! Nothing here touches the disk, the terminal or a child process. A caller
//! looks, asks and writes; the library is handed what was found and says what
//! comes next.

pub mod commands;
pub mod models;
pub mod utils;
