//! The verified core of `onx`, a command-line client for the Onspring API:
//! the error model and its JSON rendering, the command-line model, the
//! validation rules for what the user passes in, and the planning of each
//! API request from a parsed command.

pub mod error;
pub mod text;
pub mod output;
pub mod cli;
pub mod validation;
pub mod commands;
pub mod upload;
pub mod laws;

pub use cli::Cli;
pub use error::{render_cli_error, CliError, CliResult};
