//! The command engine of an interactive file browser.
//!
//! A session holds a current directory and a clipboard ([`types`]). A line
//! typed by the user is read as a verb with arguments ([`parser`]). The engine
//! never touches the filesystem itself: it decides, and the caller acts. A
//! command goes through these hands:
//!
//! 1. [`lookups::lookups`] checks the number of arguments and says which
//!    paths the caller has to canonicalise.
//! 2. The caller reports what it found for each, and the verb's function in
//!    [`commands`] judges the arguments. One bad argument refuses the whole
//!    command, before anything is changed.
//! 3. An accepted command that has work to do on disk hands back its steps.
//!    A [`plan::Run`] gives them to the caller one at a time and stops at the
//!    first that fails.
//!
//! [`listing`] puts a directory's entries in order and lays them out for
//! display. [`laws`] states what holds of the commands taken together.

pub mod commands;
pub mod errors;
pub mod judging;
pub mod laws;
pub mod listing;
pub mod lookups;
pub mod parser;
pub mod paths;
pub mod plan;
pub mod text;
pub mod types;
