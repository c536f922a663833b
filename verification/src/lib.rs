//! Build and repository maintenance commands: the decisions behind them,
//! separated from the processes and files they act on.

pub mod audit;
pub mod code_coverage;
pub mod json;
pub mod process;
pub mod publish;
pub mod text;
