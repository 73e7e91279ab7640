//! Process executable solver bounded context.

pub mod domain;
pub mod report;
pub mod workflow;

pub use domain::{ExecutedFileName, PCmdLine, PEvent, PExe, PID};
pub use workflow::get_process_executed_file;
