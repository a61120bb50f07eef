use vstd::prelude::*;

use crate::cli::{BodySource, PagingArgs, PathArg};
use crate::error::{matches_outcome, CliError, CliResult, RUNTIME_CODE, USAGE_CODE};
use crate::text::{decimal, decimal_u64};

verus! {

/// The page number used when only the page size is given.
pub const DEFAULT_PAGE_NUMBER: i32 = 1;

/// The page size used when only the page number is given.
pub const DEFAULT_PAGE_SIZE: i32 = 50;

/// A page request sent to the API.
#[derive(Debug, PartialEq, Eq, Structural, Clone, Copy)]
pub struct PagingRequest {
    pub page_number: i32,
    pub page_size: i32,
}

/// What `paging_request` gives for the given arguments: no page request when
/// neither part is given; otherwise the missing part takes its default, and
/// the page number, then the page size, must be greater than zero.
pub open spec fn paging_outcome(args: PagingArgs) -> Result<Option<PagingRequest>, Seq<char>> {
    if args.page_number is None && args.page_size is None {
        Ok(None)
    } else {
        let page_number = match args.page_number {
            Some(n) => n,
            None => DEFAULT_PAGE_NUMBER,
        };
        let page_size = match args.page_size {
            Some(s) => s,
            None => DEFAULT_PAGE_SIZE,
        };
        if page_number <= 0 {
            Err("page_number must be greater than 0."@)
        } else if page_size <= 0 {
            Err("page_size must be greater than 0."@)
        } else {
            Ok(Some(PagingRequest { page_number, page_size }))
        }
    }
}

/// Turns the paging arguments into the page request to send, if any.
pub fn paging_request(args: &PagingArgs) -> (r: CliResult<Option<PagingRequest>>)
    ensures
        matches_outcome(r, paging_outcome(*args)),
        r matches Ok(Some(p)) ==> p.page_number > 0 && p.page_size > 0,
{
    if args.page_number.is_none() && args.page_size.is_none() {
        return Ok(None);
    }
    let page_number = match args.page_number {
        Some(n) => n,
        None => DEFAULT_PAGE_NUMBER,
    };
    let page_size = match args.page_size {
        Some(s) => s,
        None => DEFAULT_PAGE_SIZE,
    };
    if page_number <= 0 {
        return Err(CliError::usage("page_number must be greater than 0."));
    }
    if page_size <= 0 {
        return Err(CliError::usage("page_size must be greater than 0."));
    }
    Ok(Some(PagingRequest { page_number, page_size }))
}

/// The message of a value that must be positive and is not.
pub open spec fn not_positive_message(field: Seq<char>) -> Seq<char> {
    field + " must be greater than 0."@
}

/// What `validate_positive_i32` gives: success exactly when the value is
/// greater than zero.
pub open spec fn positive_outcome(value: i32, field: Seq<char>) -> Result<(), Seq<char>> {
    if value <= 0 {
        Err(not_positive_message(field))
    } else {
        Ok(())
    }
}

/// Checks that an id or a count given by the user is greater than zero.
pub fn validate_positive_i32(value: i32, field: &str) -> (r: CliResult<()>)
    ensures
        matches_outcome(r, positive_outcome(value, field@)),
        r is Ok <==> value > 0,
{
    if value <= 0 {
        let mut message = String::from_str(field);
        message.append(" must be greater than 0.");
        return Err(CliError { code: USAGE_CODE, message });
    }
    Ok(())
}

/// Every id of the list is greater than zero.
pub open spec fn all_positive(ids: Seq<i32>) -> bool {
    forall|i: int| 0 <= i < ids.len() ==> ids[i] > 0
}

/// What `validate_ids` gives: the list must not be empty, must not be longer
/// than the limit when there is one, and must hold only positive ids; the
/// checks are made in this order.
pub open spec fn ids_outcome(ids: Seq<i32>, name: Seq<char>, max_len: Option<usize>) -> Result<
    (),
    Seq<char>,
> {
    if ids.len() == 0 {
        Err(name + " cannot be empty."@)
    } else if max_len matches Some(m) && ids.len() > m {
        Err(name + " cannot contain more than "@ + decimal(max_len->0 as int) + " values."@)
    } else if !all_positive(ids) {
        Err(name + " must only contain values > 0."@)
    } else {
        Ok(())
    }
}

/// Checks a list of ids given by the user.
pub fn validate_ids(ids: &[i32], name: &str, max_len: Option<usize>) -> (r: CliResult<()>)
    ensures
        matches_outcome(r, ids_outcome(ids@, name@, max_len)),
        r is Ok <==> (ids@.len() > 0 && (max_len matches Some(m) ==> ids@.len() <= m)
            && all_positive(ids@)),
{
    if ids.len() == 0 {
        let mut message = String::from_str(name);
        message.append(" cannot be empty.");
        return Err(CliError { code: USAGE_CODE, message });
    }
    if let Some(limit) = max_len {
        if ids.len() > limit {
            let mut message = String::from_str(name);
            message.append(" cannot contain more than ");
            let count = decimal_u64(limit as u64);
            message.append(count.as_str());
            message.append(" values.");
            return Err(CliError { code: USAGE_CODE, message });
        }
    }
    let mut i: usize = 0;
    while i < ids.len()
        invariant
            0 <= i <= ids@.len(),
            ids@.len() > 0,
            !(max_len matches Some(m) && ids@.len() > m),
            forall|j: int| 0 <= j < i ==> ids@[j] > 0,
        decreases ids@.len() - i,
    {
        if ids[i] <= 0 {
            assert(!all_positive(ids@)) by {
                assert(ids@[i as int] <= 0);
            }
            let mut message = String::from_str(name);
            message.append(" must only contain values > 0.");
            return Err(CliError { code: USAGE_CODE, message });
        }
        i += 1;
    }
    Ok(())
}

/// Where a request body is read from, once its source is settled.
#[derive(Debug, PartialEq, Clone)]
pub enum BodyOrigin {
    /// The JSON text given on the command line.
    Inline(String),
    /// The file at this path.
    File(PathArg),
    /// Standard input.
    Stdin,
}

/// How many body sources the user gave.
pub open spec fn source_count(source: BodySource) -> int {
    (if source.json is Some { 1int } else { 0int }) + (if source.file is Some { 1int } else { 0int })
        + (if source.stdin { 1int } else { 0int })
}

/// What `body_origin` gives: exactly one source must be given, and it is
/// the one read.
pub open spec fn body_outcome(source: BodySource) -> Result<BodyOrigin, Seq<char>> {
    if source_count(source) == 0 {
        Err("A request body is required. Provide --json, --file, or --stdin."@)
    } else if source_count(source) > 1 {
        Err("Only one request body source may be specified (--json, --file, or --stdin)."@)
    } else if source.json is Some {
        Ok(BodyOrigin::Inline(source.json->0))
    } else if source.file is Some {
        Ok(BodyOrigin::File(source.file->0))
    } else {
        Ok(BodyOrigin::Stdin)
    }
}

/// Settles where the request body of a command is read from.
pub fn body_origin(source: &BodySource) -> (r: CliResult<BodyOrigin>)
    ensures
        matches_outcome(r, body_outcome(*source)),
        r is Ok <==> source_count(*source) == 1,
{
    let count: u8 = (if source.json.is_some() { 1u8 } else { 0u8 }) + (if source.file.is_some() {
        1u8
    } else {
        0u8
    }) + (if source.stdin { 1u8 } else { 0u8 });
    if count == 0 {
        return Err(
            CliError::usage("A request body is required. Provide --json, --file, or --stdin."),
        );
    }
    if count > 1 {
        return Err(
            CliError::usage(
                "Only one request body source may be specified (--json, --file, or --stdin).",
            ),
        );
    }
    match &source.json {
        Some(json) => Ok(BodyOrigin::Inline(json.clone())),
        None => match &source.file {
            Some(path) => Ok(BodyOrigin::File(path.duplicate())),
            None => Ok(BodyOrigin::Stdin),
        },
    }
}

/// The error of a file that could not be read: a usage error naming the path
/// and the reason.
pub fn file_read_error(path: &str, reason: &str) -> (e: CliError)
    ensures
        e.code == USAGE_CODE,
        e.message@ == "Failed to read file '"@ + path@ + "': "@ + reason@,
{
    let mut message = String::from_str("Failed to read file '");
    message.append(path);
    message.append("': ");
    message.append(reason);
    CliError { code: USAGE_CODE, message }
}

/// The error of standard input that could not be read: a runtime error.
pub fn stdin_read_error(reason: &str) -> (e: CliError)
    ensures
        e.code == RUNTIME_CODE,
        e.message@ == "Failed to read from stdin: "@ + reason@,
{
    let mut message = String::from_str("Failed to read from stdin: ");
    message.append(reason);
    CliError { code: RUNTIME_CODE, message }
}

/// The error of an output file that could not be written: a runtime error
/// naming the path and the reason.
pub fn file_write_error(path: &str, reason: &str) -> (e: CliError)
    ensures
        e.code == RUNTIME_CODE,
        e.message@ == "Failed to write file to '"@ + path@ + "': "@ + reason@,
{
    let mut message = String::from_str("Failed to write file to '");
    message.append(path);
    message.append("': ");
    message.append(reason);
    CliError { code: RUNTIME_CODE, message }
}

/// The error of a request body that is not the JSON the command expects:
/// a usage error with the parser's reason.
pub fn invalid_body_error(reason: &str) -> (e: CliError)
    ensures
        e.code == USAGE_CODE,
        e.message@ == "Invalid JSON request body: "@ + reason@,
{
    let mut message = String::from_str("Invalid JSON request body: ");
    message.append(reason);
    CliError { code: USAGE_CODE, message }
}

} // verus!
