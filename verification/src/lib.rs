//! Remote command dispatch: which target a command runs on, how it is launched there, and how
//! the outcome is reported.

pub mod error;
pub mod listing;
pub mod output;
pub mod paths;
pub mod plan;
pub mod run;
pub mod server;
pub mod targets;
pub mod text;
