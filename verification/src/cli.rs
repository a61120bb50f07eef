use vstd::prelude::*;

use std::path::PathBuf;

use crate::error::{CliError, INFO_CODE, USAGE_CODE};

verus! {

/// The path type of `std`.
#[verifier::external_type_specification]
#[verifier::external_body]
pub struct ExPathBuf(std::path::PathBuf);

/// A clone of a path is the same path, as `PathBuf`'s `Clone` documents it.
pub assume_specification[ <std::path::PathBuf as Clone>::clone ](path: &PathBuf) -> (r: PathBuf)
    ensures
        r == *path,
;

/// The text of a path as `std::path::Path::display` shows it.
pub uninterp spec fn path_display_text(path: PathBuf) -> Seq<char>;

/// The last component of a path as `std::path::Path::file_name` gives it,
/// where there is one and it is valid Unicode.
pub uninterp spec fn path_last_component(path: PathBuf) -> Option<Seq<char>>;

/// The text of a path, with `std::path::Path::display`.
///
/// Claimed of it: the result is the named display text of the path; what
/// that text is for a given path is left to the name.
#[verifier::external_body]
fn path_display(path: &PathBuf) -> (r: String)
    ensures
        r@ == path_display_text(*path),
{
    path.display().to_string()
}

/// The last component of a path, with `std::path::Path::file_name`, where
/// there is one and it is valid Unicode (`OsStr::to_str`).
///
/// Claimed of it: the result is the named last component of the path;
/// which component a given path has is left to the name.
#[verifier::external_body]
fn path_file_name(path: &PathBuf) -> (r: Option<String>)
    ensures
        match r {
            Some(name) => path_last_component(*path) == Some(name@),
            None => path_last_component(*path) is None,
        },
{
    let name = path.file_name()?;
    name.to_str().map(str::to_owned)
}

/// A path given on the command line, with what the commands read of it.
#[derive(Debug, PartialEq, Clone)]
pub struct PathArg {
    /// The path itself, handed unchanged to the code that reads or writes
    /// the file.
    pub path: PathBuf,
    /// The path as text, quoted in messages.
    pub display: String,
    /// The last component of the path, where there is one and it is valid
    /// Unicode.
    pub file_name: Option<String>,
}

impl PathArg {
    /// The path with its text and its last component.
    pub fn new(path: PathBuf) -> (r: PathArg)
        ensures
            r.path == path,
            r.display@ == path_display_text(path),
            r.file_name matches Some(n) ==> path_last_component(path) == Some(n@),
            r.file_name is None ==> path_last_component(path) is None,
    {
        let display = path_display(&path);
        let file_name = path_file_name(&path);
        PathArg { path, display, file_name }
    }

    /// A copy of the path and what was read of it.
    pub fn duplicate(&self) -> (r: PathArg)
        ensures
            r == *self,
    {
        let file_name = match &self.file_name {
            Some(name) => Some(name.clone()),
            None => None,
        };
        PathArg { path: self.path.clone(), display: self.display.clone(), file_name }
    }
}

/// The parsed command line: connection settings, output style and the
/// command to run.
#[derive(Debug, PartialEq, Clone)]
pub struct Cli {
    /// The API key for the Onspring instance.
    pub api_key: Option<String>,
    /// The base URL for the Onspring API.
    pub base_url: Option<String>,
    /// Whether JSON output is pretty-printed.
    pub pretty: bool,
    pub command: Command,
}

/// The commands of the command line.
#[derive(Debug, PartialEq, Clone)]
pub enum Command {
    /// Check connectivity to the Onspring API.
    Ping,
    /// Operations on the apps of the instance.
    Apps { command: AppsCommand },
    /// Operations on the fields of the instance.
    Fields { command: FieldsCommand },
    /// Operations on the records of the instance.
    Records { command: RecordsCommand },
    /// Operations on the files of the instance.
    Files { command: FilesCommand },
}

/// Operations on apps.
#[derive(Debug, PartialEq, Clone)]
pub enum AppsCommand {
    /// A page of apps.
    List(PagingArgs),
    /// One app.
    Get { app_id: i32 },
    /// A batch of apps.
    BatchGet { ids: Vec<i32> },
}

/// Operations on fields.
#[derive(Debug, PartialEq, Clone)]
pub enum FieldsCommand {
    /// A page of the fields of an app.
    List { app_id: i32, paging: PagingArgs },
    /// One field.
    Get { field_id: i32 },
    /// A batch of fields.
    BatchGet { ids: Vec<i32> },
}

/// Operations on records.
#[derive(Debug, PartialEq, Clone)]
pub enum RecordsCommand {
    /// A page of the records of an app.
    List {
        app_id: i32,
        paging: PagingArgs,
        field_ids: Vec<i32>,
        data_format: Option<DataFormatArg>,
    },
    /// One record.
    Get {
        app_id: i32,
        record_id: i32,
        field_ids: Vec<i32>,
        data_format: Option<DataFormatArg>,
    },
    /// Add or update a record described by a JSON body.
    Save { body: BodySource },
    /// Delete a record.
    Delete { app_id: i32, record_id: i32 },
    /// A batch of records described by a JSON body.
    BatchGet { body: BodySource },
    /// A page of records matching the query of a JSON body.
    Query { body: BodySource, paging: PagingArgs },
    /// Delete a batch of records described by a JSON body.
    BatchDelete { body: BodySource },
}

/// Operations on files.
#[derive(Debug, PartialEq, Clone)]
pub enum FilesCommand {
    /// The metadata of a file.
    Info { record_id: i32, field_id: i32, file_id: i32 },
    /// The content of a file, written to `output` or to standard output.
    Get { record_id: i32, field_id: i32, file_id: i32, output: Option<PathArg> },
    /// Upload a file read from `input` or from standard input.
    Upload {
        record_id: i32,
        field_id: i32,
        input: Option<PathArg>,
        stdin: bool,
        file_name: Option<String>,
        content_type: Option<String>,
        notes: Option<String>,
        modified_date: Option<String>,
    },
    /// Delete a file.
    Delete { record_id: i32, field_id: i32, file_id: i32 },
}

/// The page that the user asks for; each part is optional.
#[derive(Debug, PartialEq, Clone, Default)]
pub struct PagingArgs {
    pub page_number: Option<i32>,
    pub page_size: Option<i32>,
}

/// Where a JSON request body comes from: inline text, a file, or standard
/// input. Exactly one of them must be given.
#[derive(Debug, PartialEq, Clone, Default)]
pub struct BodySource {
    pub json: Option<String>,
    pub file: Option<PathArg>,
    pub stdin: bool,
}

/// The format of record data that the user asks for.
#[derive(Debug, PartialEq, Eq, Clone, Copy)]
pub enum DataFormatArg {
    Raw,
    Formatted,
}

/// The error that a refused command line gives: help and version output is
/// informational (exit code 0), every other refusal a usage error (exit
/// code 2); the message is the text that the parser rendered.
pub fn parse_failure(shows_info: bool, rendered: &str) -> (e: CliError)
    ensures
        e.code == (if shows_info { INFO_CODE } else { USAGE_CODE }),
        e.message@ == rendered@,
{
    if shows_info {
        CliError::info(rendered)
    } else {
        CliError::usage(rendered)
    }
}

} // verus!
