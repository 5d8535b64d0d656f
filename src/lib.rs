//! Query selection and section header formatting for a database monitoring
//! collector, with the command line option model of the agent controller.

pub mod cli;
pub mod files;
pub mod section;
pub mod text;
pub mod types;
