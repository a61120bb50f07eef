use vstd::prelude::*;

use crate::output::{envelope, json_plain, json_quoted, render_error};
use crate::text::{decimal, decimal_u64};

verus! {

/// Exit code of an error that only carries information (help, version).
pub const INFO_CODE: i32 = 0;

/// Exit code of a failure that happened while running a command.
pub const RUNTIME_CODE: i32 = 1;

/// Exit code of a failure caused by what the user passed in.
pub const USAGE_CODE: i32 = 2;

/// An error of the command line: the process exit code and the message.
#[derive(Debug)]
pub struct CliError {
    pub code: i32,
    pub message: String,
}

/// The result type of every fallible operation of the command line.
pub type CliResult<T> = Result<T, CliError>;

impl CliError {
    /// An informational outcome (exit code 0), such as rendered help text.
    pub fn info(message: &str) -> (e: CliError)
        ensures
            e.code == INFO_CODE,
            e.message@ == message@,
    {
        CliError { code: INFO_CODE, message: message.to_owned() }
    }

    /// A failure while running a command (exit code 1).
    pub fn runtime(message: &str) -> (e: CliError)
        ensures
            e.code == RUNTIME_CODE,
            e.message@ == message@,
    {
        CliError { code: RUNTIME_CODE, message: message.to_owned() }
    }

    /// A failure caused by the user's input (exit code 2).
    pub fn usage(message: &str) -> (e: CliError)
        ensures
            e.code == USAGE_CODE,
            e.message@ == message@,
    {
        CliError { code: USAGE_CODE, message: message.to_owned() }
    }
}

impl PartialEq for CliError {
    fn eq(&self, other: &Self) -> (r: bool) {
        self.code == other.code && self.message == other.message
    }
}

impl vstd::std_specs::cmp::PartialEqSpecImpl for CliError {
    open spec fn obeys_eq_spec() -> bool {
        true
    }

    open spec fn eq_spec(&self, other: &CliError) -> bool {
        self.code == other.code && self.message@ == other.message@
    }
}

/// The result `r` is the error `Err` with the usage code and message `m`
/// where `expected` is `Err(m)`, and `Ok` of the very value where `expected`
/// is `Ok`.
pub open spec fn matches_outcome<T>(r: CliResult<T>, expected: Result<T, Seq<char>>) -> bool {
    match expected {
        Ok(v) => r matches Ok(x) && x == v,
        Err(m) => r matches Err(e) && e.code == USAGE_CODE && e.message@ == m,
    }
}

/// What a request to the Onspring API can fail with, as plain values.
#[derive(Debug, Clone)]
pub enum ApiFailure {
    /// The client refused an argument before sending anything.
    InvalidArgument(String),
    /// The API answered with an error status and a message (possibly empty).
    Api { status_code: u16, message: String },
    /// The request could not be sent or its answer not received.
    Http,
    /// The answer could not be parsed.
    Serialization,
}

/// The exit code that a failure of the API maps to.
pub open spec fn failure_code(f: ApiFailure) -> i32 {
    match f {
        ApiFailure::InvalidArgument(_) => USAGE_CODE,
        _ => RUNTIME_CODE,
    }
}

/// The message that a failure of the API maps to.
pub open spec fn failure_message(f: ApiFailure) -> Seq<char> {
    match f {
        ApiFailure::InvalidArgument(m) => "Invalid request: "@ + m@,
        ApiFailure::Api { status_code, message } => if message@.len() == 0 {
            "API request failed with status "@ + decimal(status_code as int) + "."@
        } else {
            "API request failed ("@ + decimal(status_code as int) + "): "@ + message@
        },
        ApiFailure::Http => "Network request failed."@,
        ApiFailure::Serialization => "Failed to parse API response."@,
    }
}

impl From<ApiFailure> for CliError {
    /// Maps a failure of the API to the error that the command line reports:
    /// a refused argument is a usage error, everything else a runtime error.
    fn from(value: ApiFailure) -> (e: CliError)
        ensures
            e.code == failure_code(value),
            e.message@ == failure_message(value),
    {
        match value {
            ApiFailure::InvalidArgument(message) => {
                let mut text = String::from_str("Invalid request: ");
                text.append(message.as_str());
                CliError { code: USAGE_CODE, message: text }
            },
            ApiFailure::Api { status_code, message } => {
                let status = decimal_u64(status_code as u64);
                if message.as_str().is_empty() {
                    let mut text = String::from_str("API request failed with status ");
                    text.append(status.as_str());
                    text.append(".");
                    CliError { code: RUNTIME_CODE, message: text }
                } else {
                    let mut text = String::from_str("API request failed (");
                    text.append(status.as_str());
                    text.append("): ");
                    text.append(message.as_str());
                    CliError { code: RUNTIME_CODE, message: text }
                }
            },
            ApiFailure::Http => CliError::runtime("Network request failed."),
            ApiFailure::Serialization => CliError::runtime("Failed to parse API response."),
        }
    }
}

impl vstd::std_specs::convert::FromSpecImpl<ApiFailure> for CliError {
    open spec fn obeys_from_spec() -> bool {
        false
    }

    open spec fn from_spec(v: ApiFailure) -> CliError {
        arbitrary()
    }
}

/// Renders an error for the user as its JSON envelope, compact or pretty.
/// It never fails: if the envelope cannot be rendered, a fixed JSON text
/// reporting an unexpected error is returned instead.
pub fn render_cli_error(err: &CliError, pretty: bool) -> (r: String)
    ensures
        r@ == envelope(err.code as int, json_quoted(err.message@), pretty),
        json_plain(err.message@) ==> r@ == envelope(
            err.code as int,
            seq!['"'] + err.message@ + seq!['"'],
            pretty,
        ),
{
    match render_error(err, pretty) {
        Ok(text) => text,
        Err(_) => String::from_str("{\"error\":{\"code\":1,\"message\":\"Unexpected error.\"}}"),
    }
}

} // verus!
