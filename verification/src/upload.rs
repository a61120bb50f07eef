use vstd::prelude::*;

use crate::commands::{UploadPlan, UploadSource};
use crate::error::{CliError, CliResult, USAGE_CODE};

verus! {

/// The content type that `mime_guess` infers from a file name's extension,
/// as text.
pub uninterp spec fn guessed_mime_type(file_name: Seq<char>) -> Seq<char>;

/// What `chrono` makes of a date text in RFC 3339 form: the instant as whole
/// seconds since the Unix epoch and the nanoseconds past them, or the
/// parser's reason for refusing the text.
pub uninterp spec fn rfc3339_parse(text: Seq<char>) -> Result<(i64, u32), Seq<char>>;

/// The content type of a file name, with `mime_guess::from_path` and
/// `first_or_octet_stream`.
///
/// Claimed of it: the result is the named guess for the name; and a name
/// without any `.` has no extension, so its guess is the fallback
/// `application/octet-stream`, as the crate documents. Which extension maps
/// to which type is left to the name.
#[verifier::external_body]
fn guess_content_type(file_name: &str) -> (r: String)
    ensures
        r@ == guessed_mime_type(file_name@),
        !file_name@.contains('.') ==> r@ == "application/octet-stream"@,
{
    mime_guess::from_path(file_name).first_or_octet_stream().to_string()
}

/// An instant: whole seconds since the Unix epoch and nanoseconds past them.
#[derive(Debug, PartialEq, Eq, Structural, Clone, Copy)]
pub struct Timestamp {
    pub seconds: i64,
    pub nanos: u32,
}

/// Parses a date in RFC 3339 form with
/// `chrono::DateTime::parse_from_rfc3339`, taken in UTC.
///
/// Claimed of it: the instant, or the text of the parser's error, is the
/// named parse of the text; which texts parse is left to the name.
#[verifier::external_body]
fn parse_rfc3339(text: &str) -> (r: Result<Timestamp, String>)
    ensures
        match r {
            Ok(t) => rfc3339_parse(text@) == Ok::<(i64, u32), Seq<char>>((t.seconds, t.nanos)),
            Err(reason) => rfc3339_parse(text@) == Err::<(i64, u32), Seq<char>>(reason@),
        },
{
    match chrono::DateTime::parse_from_rfc3339(text) {
        Ok(instant) => Ok(
            Timestamp { seconds: instant.timestamp(), nanos: instant.timestamp_subsec_nanos() },
        ),
        Err(error) => Err(error.to_string()),
    }
}

/// An upload ready to send: where the file goes, its name, type, notes,
/// modification date and content.
#[derive(Debug, Clone)]
pub struct UploadFileRequest {
    pub record_id: i32,
    pub field_id: i32,
    pub notes: Option<String>,
    pub modified_date: Option<Timestamp>,
    pub file_name: String,
    pub file_data: Vec<u8>,
    pub content_type: String,
}

/// An upload request as a mathematical value.
pub struct UploadFileRequestView {
    pub record_id: i32,
    pub field_id: i32,
    pub notes: Option<String>,
    pub modified_date: Option<Timestamp>,
    pub file_name: Seq<char>,
    pub file_data: Seq<u8>,
    pub content_type: Seq<char>,
}

impl View for UploadFileRequest {
    type V = UploadFileRequestView;

    open spec fn view(&self) -> UploadFileRequestView {
        UploadFileRequestView {
            record_id: self.record_id,
            field_id: self.field_id,
            notes: self.notes,
            modified_date: self.modified_date,
            file_name: self.file_name@,
            file_data: self.file_data@,
            content_type: self.content_type@,
        }
    }
}

/// The name that an upload is sent under: the name the user gave; else,
/// for a file, the last component of its path; a name is required.
pub open spec fn upload_name_outcome(plan: UploadPlan) -> Result<Seq<char>, Seq<char>> {
    match plan.file_name {
        Some(name) => Ok(name@),
        None => match plan.source {
            UploadSource::File(path) => match path.file_name {
                Some(name) => Ok(name@),
                None => Err("A file name is required. Provide --name."@),
            },
            UploadSource::Stdin => Err(
                "A file name is required when reading from stdin. Provide --name."@,
            ),
        },
    }
}

/// Settles the name that an upload is sent under.
pub fn resolve_upload_name(plan: &UploadPlan) -> (r: CliResult<String>)
    ensures
        crate::commands::matches_view_outcome(r, upload_name_outcome(*plan)),
{
    match &plan.file_name {
        Some(name) => Ok(name.clone()),
        None => match &plan.source {
            UploadSource::File(path) => match &path.file_name {
                Some(name) => Ok(name.clone()),
                None => Err(CliError::usage("A file name is required. Provide --name.")),
            },
            UploadSource::Stdin => Err(
                CliError::usage("A file name is required when reading from stdin. Provide --name."),
            ),
        },
    }
}

/// The content type that an upload is sent with: the one the user gave,
/// else the one guessed from the file name.
pub open spec fn upload_content_type(plan: UploadPlan, file_name: Seq<char>) -> Seq<char> {
    match plan.content_type {
        Some(content_type) => content_type@,
        None => guessed_mime_type(file_name),
    }
}

/// The message of a modification date that is not in RFC 3339 form.
pub open spec fn invalid_date_message(text: Seq<char>, reason: Seq<char>) -> Seq<char> {
    "Invalid modified_date '"@ + text + "'. Expected RFC3339 format: "@ + reason
}

/// Settles a modification date from its text and what the parser made of
/// it: the instant, or a usage error quoting the text and the reason.
pub fn resolve_upload_date(text: &str, parsed: Result<Timestamp, String>) -> (r: CliResult<
    Timestamp,
>)
    ensures
        match parsed {
            Ok(t) => r matches Ok(u) && u == t,
            Err(reason) => r matches Err(e) && e.code == USAGE_CODE && e.message@
                == invalid_date_message(text@, reason@),
        },
{
    match parsed {
        Ok(instant) => Ok(instant),
        Err(reason) => {
            let mut message = String::from_str("Invalid modified_date '");
            message.append(text);
            message.append("'. Expected RFC3339 format: ");
            message.append(reason.as_str());
            Err(CliError { code: USAGE_CODE, message })
        },
    }
}

/// The modification date that an upload is sent with, if the user gave one;
/// it must be in RFC 3339 form.
pub open spec fn upload_date_outcome(plan: UploadPlan) -> Result<Option<Timestamp>, Seq<char>> {
    match plan.modified_date {
        None => Ok(None),
        Some(text) => match rfc3339_parse(text@) {
            Ok(instant) => Ok(Some(Timestamp { seconds: instant.0, nanos: instant.1 })),
            Err(reason) => Err(invalid_date_message(text@, reason)),
        },
    }
}

/// What `finish_upload` gives: the name is settled first, then the date.
pub open spec fn upload_request_outcome(plan: UploadPlan, file_data: Seq<u8>) -> Result<
    UploadFileRequestView,
    Seq<char>,
> {
    match upload_name_outcome(plan) {
        Err(m) => Err(m),
        Ok(name) => match upload_date_outcome(plan) {
            Err(m) => Err(m),
            Ok(date) => Ok(
                UploadFileRequestView {
                    record_id: plan.record_id,
                    field_id: plan.field_id,
                    notes: plan.notes,
                    modified_date: date,
                    file_name: name,
                    file_data,
                    content_type: upload_content_type(plan, name),
                },
            ),
        },
    }
}

/// Finishes an upload once its content has been read: settles the file
/// name, the content type and the modification date.
pub fn finish_upload(plan: UploadPlan, file_data: Vec<u8>) -> (r: CliResult<UploadFileRequest>)
    ensures
        crate::commands::matches_view_outcome(r, upload_request_outcome(plan, file_data@)),
{
    let file_name = resolve_upload_name(&plan)?;
    let content_type = match &plan.content_type {
        Some(content_type) => content_type.clone(),
        None => guess_content_type(file_name.as_str()),
    };
    let modified_date = match &plan.modified_date {
        None => None,
        Some(text) => Some(resolve_upload_date(text.as_str(), parse_rfc3339(text.as_str()))?),
    };
    Ok(
        UploadFileRequest {
            record_id: plan.record_id,
            field_id: plan.field_id,
            notes: plan.notes,
            modified_date,
            file_name,
            file_data,
            content_type,
        },
    )
}

} // verus!
