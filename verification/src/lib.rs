pub mod commands;
pub mod error;
pub mod git;
pub mod setup;
pub mod store;
pub mod utils;

pub use error::CommandError;
pub use error::ExecutionError;
