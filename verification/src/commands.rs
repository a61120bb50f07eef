use vstd::prelude::*;

use crate::cli::{
    AppsCommand, Command, DataFormatArg, FieldsCommand, FilesCommand, PagingArgs, PathArg,
    RecordsCommand,
};
use crate::error::{CliError, CliResult, USAGE_CODE};
use crate::validation::{
    body_origin, body_outcome, ids_outcome, paging_outcome, paging_request, positive_outcome,
    validate_ids, validate_positive_i32, BodyOrigin, PagingRequest,
};

verus! {

/// The most ids that one batch request may name.
pub const MAX_BATCH_IDS: usize = 100;

/// The format of record data sent to the API.
#[derive(Debug, PartialEq, Eq, Structural, Clone, Copy)]
pub enum DataFormat {
    Raw,
    Formatted,
}

/// The data format that the user's choice stands for.
pub open spec fn data_format_of(arg: DataFormatArg) -> DataFormat {
    match arg {
        DataFormatArg::Raw => DataFormat::Raw,
        DataFormatArg::Formatted => DataFormat::Formatted,
    }
}

impl From<DataFormatArg> for DataFormat {
    fn from(value: DataFormatArg) -> (r: DataFormat)
        ensures
            r == data_format_of(value),
    {
        match value {
            DataFormatArg::Raw => DataFormat::Raw,
            DataFormatArg::Formatted => DataFormat::Formatted,
        }
    }
}

impl vstd::std_specs::convert::FromSpecImpl<DataFormatArg> for DataFormat {
    open spec fn obeys_from_spec() -> bool {
        true
    }

    open spec fn from_spec(v: DataFormatArg) -> DataFormat {
        data_format_of(v)
    }
}

/// A request to send to the Onspring API, with every argument settled.
#[derive(Debug, Clone)]
pub enum ApiRequest {
    Ping,
    ListApps { paging: Option<PagingRequest> },
    GetApp { app_id: i32 },
    BatchGetApps { ids: Vec<i32> },
    ListFields { app_id: i32, paging: Option<PagingRequest> },
    GetField { field_id: i32 },
    BatchGetFields { ids: Vec<i32> },
    ListRecords {
        app_id: i32,
        paging: Option<PagingRequest>,
        field_ids: Option<Vec<i32>>,
        data_format: Option<DataFormat>,
    },
    GetRecord {
        app_id: i32,
        record_id: i32,
        field_ids: Option<Vec<i32>>,
        data_format: Option<DataFormat>,
    },
    DeleteRecord { app_id: i32, record_id: i32 },
    GetFileInfo { record_id: i32, field_id: i32, file_id: i32 },
    GetFile { record_id: i32, field_id: i32, file_id: i32 },
    DeleteFile { record_id: i32, field_id: i32, file_id: i32 },
}

/// An API request as a mathematical value: its id lists are sequences.
pub enum ApiRequestView {
    Ping,
    ListApps { paging: Option<PagingRequest> },
    GetApp { app_id: i32 },
    BatchGetApps { ids: Seq<i32> },
    ListFields { app_id: i32, paging: Option<PagingRequest> },
    GetField { field_id: i32 },
    BatchGetFields { ids: Seq<i32> },
    ListRecords {
        app_id: i32,
        paging: Option<PagingRequest>,
        field_ids: Option<Seq<i32>>,
        data_format: Option<DataFormat>,
    },
    GetRecord {
        app_id: i32,
        record_id: i32,
        field_ids: Option<Seq<i32>>,
        data_format: Option<DataFormat>,
    },
    DeleteRecord { app_id: i32, record_id: i32 },
    GetFileInfo { record_id: i32, field_id: i32, file_id: i32 },
    GetFile { record_id: i32, field_id: i32, file_id: i32 },
    DeleteFile { record_id: i32, field_id: i32, file_id: i32 },
}

/// The sequence view of an optional id list.
pub open spec fn opt_ids_view(ids: Option<Vec<i32>>) -> Option<Seq<i32>> {
    match ids {
        Some(v) => Some(v@),
        None => None,
    }
}

impl View for ApiRequest {
    type V = ApiRequestView;

    open spec fn view(&self) -> ApiRequestView {
        match *self {
            ApiRequest::Ping => ApiRequestView::Ping,
            ApiRequest::ListApps { paging } => ApiRequestView::ListApps { paging },
            ApiRequest::GetApp { app_id } => ApiRequestView::GetApp { app_id },
            ApiRequest::BatchGetApps { ids } => ApiRequestView::BatchGetApps { ids: ids@ },
            ApiRequest::ListFields { app_id, paging } => ApiRequestView::ListFields {
                app_id,
                paging,
            },
            ApiRequest::GetField { field_id } => ApiRequestView::GetField { field_id },
            ApiRequest::BatchGetFields { ids } => ApiRequestView::BatchGetFields { ids: ids@ },
            ApiRequest::ListRecords { app_id, paging, field_ids, data_format } =>
                ApiRequestView::ListRecords {
                app_id,
                paging,
                field_ids: opt_ids_view(field_ids),
                data_format,
            },
            ApiRequest::GetRecord { app_id, record_id, field_ids, data_format } =>
                ApiRequestView::GetRecord {
                app_id,
                record_id,
                field_ids: opt_ids_view(field_ids),
                data_format,
            },
            ApiRequest::DeleteRecord { app_id, record_id } => ApiRequestView::DeleteRecord {
                app_id,
                record_id,
            },
            ApiRequest::GetFileInfo { record_id, field_id, file_id } =>
                ApiRequestView::GetFileInfo { record_id, field_id, file_id },
            ApiRequest::GetFile { record_id, field_id, file_id } => ApiRequestView::GetFile {
                record_id,
                field_id,
                file_id,
            },
            ApiRequest::DeleteFile { record_id, field_id, file_id } =>
                ApiRequestView::DeleteFile { record_id, field_id, file_id },
        }
    }
}

/// The result `r` is the usage error with message `m` where `expected` is
/// `Err(m)`, and `Ok` of a value whose view is `v` where `expected` is
/// `Ok(v)`.
pub open spec fn matches_view_outcome<T: View>(
    r: CliResult<T>,
    expected: Result<T::V, Seq<char>>,
) -> bool {
    match expected {
        Ok(v) => r matches Ok(x) && x@ == v,
        Err(m) => r matches Err(e) && e.code == USAGE_CODE && e.message@ == m,
    }
}

/// A copy of a list of ids.
fn copy_ids(ids: &Vec<i32>) -> (r: Vec<i32>)
    ensures
        r@ == ids@,
{
    let mut out: Vec<i32> = Vec::new();
    let mut i: usize = 0;
    while i < ids.len()
        invariant
            0 <= i <= ids@.len(),
            out@ == ids@.subrange(0, i as int),
        decreases ids@.len() - i,
    {
        out.push(ids[i]);
        i += 1;
        assert(out@ == ids@.subrange(0, i as int));
    }
    assert(ids@.subrange(0, ids@.len() as int) == ids@);
    out
}

/// The field ids sent with a record request: none when the user named no
/// field, so that the API returns every field.
pub open spec fn field_filter(field_ids: Seq<i32>) -> Option<Seq<i32>> {
    if field_ids.len() == 0 {
        None
    } else {
        Some(field_ids)
    }
}

fn field_filter_of(field_ids: &Vec<i32>) -> (r: Option<Vec<i32>>)
    ensures
        opt_ids_view(r) == field_filter(field_ids@),
{
    if field_ids.len() == 0 {
        None
    } else {
        Some(copy_ids(field_ids))
    }
}

/// The data format sent with a record request.
pub open spec fn format_filter(arg: Option<DataFormatArg>) -> Option<DataFormat> {
    match arg {
        Some(a) => Some(data_format_of(a)),
        None => None,
    }
}

fn format_filter_of(arg: Option<DataFormatArg>) -> (r: Option<DataFormat>)
    ensures
        r == format_filter(arg),
{
    match arg {
        Some(a) => Some(DataFormat::from(a)),
        None => None,
    }
}

/// What planning an apps command gives: the request, or the first refusal
/// of its arguments.
pub open spec fn apps_outcome(command: AppsCommand) -> Result<ApiRequestView, Seq<char>> {
    match command {
        AppsCommand::List(paging) => match paging_outcome(paging) {
            Ok(p) => Ok(ApiRequestView::ListApps { paging: p }),
            Err(m) => Err(m),
        },
        AppsCommand::Get { app_id } => match positive_outcome(app_id, "app_id"@) {
            Ok(_) => Ok(ApiRequestView::GetApp { app_id }),
            Err(m) => Err(m),
        },
        AppsCommand::BatchGet { ids } => match ids_outcome(ids@, "ids"@, Some(MAX_BATCH_IDS)) {
            Ok(_) => Ok(ApiRequestView::BatchGetApps { ids: ids@ }),
            Err(m) => Err(m),
        },
    }
}

/// Plans the request of an apps command, checking its arguments first.
pub fn plan_apps(command: &AppsCommand) -> (r: CliResult<ApiRequest>)
    ensures
        matches_view_outcome(r, apps_outcome(*command)),
{
    match command {
        AppsCommand::List(paging_args) => {
            let paging = paging_request(paging_args)?;
            Ok(ApiRequest::ListApps { paging })
        },
        AppsCommand::Get { app_id } => {
            validate_positive_i32(*app_id, "app_id")?;
            Ok(ApiRequest::GetApp { app_id: *app_id })
        },
        AppsCommand::BatchGet { ids } => {
            validate_ids(ids.as_slice(), "ids", Some(MAX_BATCH_IDS))?;
            Ok(ApiRequest::BatchGetApps { ids: copy_ids(ids) })
        },
    }
}

/// What planning a fields command gives.
pub open spec fn fields_outcome(command: FieldsCommand) -> Result<ApiRequestView, Seq<char>> {
    match command {
        FieldsCommand::List { app_id, paging } => if positive_outcome(app_id, "app_id"@) is Err {
            Err(positive_outcome(app_id, "app_id"@)->Err_0)
        } else {
            match paging_outcome(paging) {
                Ok(p) => Ok(ApiRequestView::ListFields { app_id, paging: p }),
                Err(m) => Err(m),
            }
        },
        FieldsCommand::Get { field_id } => match positive_outcome(field_id, "field_id"@) {
            Ok(_) => Ok(ApiRequestView::GetField { field_id }),
            Err(m) => Err(m),
        },
        FieldsCommand::BatchGet { ids } => match ids_outcome(
            ids@,
            "ids"@,
            Some(MAX_BATCH_IDS),
        ) {
            Ok(_) => Ok(ApiRequestView::BatchGetFields { ids: ids@ }),
            Err(m) => Err(m),
        },
    }
}

/// Plans the request of a fields command, checking its arguments first.
pub fn plan_fields(command: &FieldsCommand) -> (r: CliResult<ApiRequest>)
    ensures
        matches_view_outcome(r, fields_outcome(*command)),
{
    match command {
        FieldsCommand::List { app_id, paging } => {
            validate_positive_i32(*app_id, "app_id")?;
            let paging = paging_request(paging)?;
            Ok(ApiRequest::ListFields { app_id: *app_id, paging })
        },
        FieldsCommand::Get { field_id } => {
            validate_positive_i32(*field_id, "field_id")?;
            Ok(ApiRequest::GetField { field_id: *field_id })
        },
        FieldsCommand::BatchGet { ids } => {
            validate_ids(ids.as_slice(), "ids", Some(MAX_BATCH_IDS))?;
            Ok(ApiRequest::BatchGetFields { ids: copy_ids(ids) })
        },
    }
}

/// The checks of two ids, in order: the first refusal, if any.
pub open spec fn two_ids_outcome(
    first: i32,
    first_name: Seq<char>,
    second: i32,
    second_name: Seq<char>,
) -> Result<(), Seq<char>> {
    if positive_outcome(first, first_name) is Err {
        positive_outcome(first, first_name)
    } else {
        positive_outcome(second, second_name)
    }
}

/// The checks of the three ids that locate a file, in order.
pub open spec fn file_ids_outcome(record_id: i32, field_id: i32, file_id: i32) -> Result<
    (),
    Seq<char>,
> {
    if two_ids_outcome(record_id, "record_id"@, field_id, "field_id"@) is Err {
        two_ids_outcome(record_id, "record_id"@, field_id, "field_id"@)
    } else {
        positive_outcome(file_id, "file_id"@)
    }
}

fn validate_two_ids(first: i32, first_name: &str, second: i32, second_name: &str) -> (r: CliResult<()>)
    ensures
        crate::error::matches_outcome(r, two_ids_outcome(first, first_name@, second, second_name@)),
{
    validate_positive_i32(first, first_name)?;
    validate_positive_i32(second, second_name)
}

fn validate_file_ids(record_id: i32, field_id: i32, file_id: i32) -> (r: CliResult<()>)
    ensures
        crate::error::matches_outcome(r, file_ids_outcome(record_id, field_id, file_id)),
{
    validate_two_ids(record_id, "record_id", field_id, "field_id")?;
    validate_positive_i32(file_id, "file_id")
}

/// The body of a request for a batch of records.
#[derive(Debug, Clone, PartialEq)]
pub struct BatchGetRecordsInput {
    pub app_id: i32,
    pub record_ids: Vec<i32>,
    pub field_ids: Option<Vec<i32>>,
    pub data_format: Option<DataFormat>,
}

/// The body of a query for records.
#[derive(Debug, Clone, PartialEq)]
pub struct QueryRecordsInput {
    pub app_id: i32,
    pub filter: String,
    pub field_ids: Option<Vec<i32>>,
    pub data_format: Option<DataFormat>,
}

/// The body of a request to delete a batch of records.
#[derive(Debug, Clone, PartialEq)]
pub struct BatchDeleteRecordsInput {
    pub app_id: i32,
    pub record_ids: Vec<i32>,
}

/// What a command whose request is described by a JSON body does with it.
#[derive(Debug, PartialEq, Clone)]
pub enum BodyAction {
    /// Add or update a record.
    SaveRecord,
    /// Get a batch of records.
    BatchGetRecords,
    /// Query records, a page of them when the paging arguments ask for one;
    /// the paging is checked once the body has been parsed.
    QueryRecords { paging: PagingArgs },
    /// Delete a batch of records.
    BatchDeleteRecords,
}

/// Where the content of a file to upload is read from.
#[derive(Debug, PartialEq, Clone)]
pub enum UploadSource {
    /// The file at this path.
    File(PathArg),
    /// Standard input.
    Stdin,
}

/// An upload whose ids and source are settled; the rest waits for the
/// content of the file.
#[derive(Debug, PartialEq, Clone)]
pub struct UploadPlan {
    pub record_id: i32,
    pub field_id: i32,
    pub source: UploadSource,
    pub file_name: Option<String>,
    pub content_type: Option<String>,
    pub notes: Option<String>,
    pub modified_date: Option<String>,
}

/// What running a command takes, once its arguments are checked.
#[derive(Debug, Clone)]
pub enum Plan {
    /// Send this request and print its answer as JSON.
    Call(ApiRequest),
    /// Send this request for a file's content and write the bytes to the
    /// path, or to standard output when there is none.
    Download { request: ApiRequest, output: Option<PathArg> },
    /// Read the JSON body from its origin, then act on it.
    ReadBody { origin: BodyOrigin, action: BodyAction },
    /// Read the file's content, then finish and send the upload.
    Upload(UploadPlan),
}

/// A plan as a mathematical value.
pub enum PlanView {
    Call(ApiRequestView),
    Download { request: ApiRequestView, output: Option<PathArg> },
    ReadBody { origin: BodyOrigin, action: BodyAction },
    Upload(UploadPlan),
}

impl View for Plan {
    type V = PlanView;

    open spec fn view(&self) -> PlanView {
        match *self {
            Plan::Call(request) => PlanView::Call(request@),
            Plan::Download { request, output } => PlanView::Download {
                request: request@,
                output,
            },
            Plan::ReadBody { origin, action } => PlanView::ReadBody { origin, action },
            Plan::Upload(u) => PlanView::Upload(u),
        }
    }
}

/// A call plan for a request, when the request is settled.
pub open spec fn call_of(r: Result<ApiRequestView, Seq<char>>) -> Result<PlanView, Seq<char>> {
    match r {
        Ok(v) => Ok(PlanView::Call(v)),
        Err(m) => Err(m),
    }
}

/// A plan that reads a body, when its origin is settled.
pub open spec fn read_body_of(source: crate::cli::BodySource, action: BodyAction) -> Result<
    PlanView,
    Seq<char>,
> {
    match body_outcome(source) {
        Ok(origin) => Ok(PlanView::ReadBody { origin, action }),
        Err(m) => Err(m),
    }
}

/// What planning a records command gives.
pub open spec fn records_outcome(command: RecordsCommand) -> Result<PlanView, Seq<char>> {
    match command {
        RecordsCommand::List { app_id, paging, field_ids, data_format } => if positive_outcome(
            app_id,
            "app_id"@,
        ) is Err {
            Err(positive_outcome(app_id, "app_id"@)->Err_0)
        } else {
            match paging_outcome(paging) {
                Ok(p) => Ok(
                    PlanView::Call(
                        ApiRequestView::ListRecords {
                            app_id,
                            paging: p,
                            field_ids: field_filter(field_ids@),
                            data_format: format_filter(data_format),
                        },
                    ),
                ),
                Err(m) => Err(m),
            }
        },
        RecordsCommand::Get { app_id, record_id, field_ids, data_format } => match two_ids_outcome(
            app_id,
            "app_id"@,
            record_id,
            "record_id"@,
        ) {
            Ok(_) => Ok(
                PlanView::Call(
                    ApiRequestView::GetRecord {
                        app_id,
                        record_id,
                        field_ids: field_filter(field_ids@),
                        data_format: format_filter(data_format),
                    },
                ),
            ),
            Err(m) => Err(m),
        },
        RecordsCommand::Save { body } => read_body_of(body, BodyAction::SaveRecord),
        RecordsCommand::Delete { app_id, record_id } => match two_ids_outcome(
            app_id,
            "app_id"@,
            record_id,
            "record_id"@,
        ) {
            Ok(_) => Ok(PlanView::Call(ApiRequestView::DeleteRecord { app_id, record_id })),
            Err(m) => Err(m),
        },
        RecordsCommand::BatchGet { body } => read_body_of(body, BodyAction::BatchGetRecords),
        RecordsCommand::Query { body, paging } => read_body_of(
            body,
            BodyAction::QueryRecords { paging },
        ),
        RecordsCommand::BatchDelete { body } => read_body_of(body, BodyAction::BatchDeleteRecords),
    }
}

fn read_body_plan(source: &crate::cli::BodySource, action: BodyAction) -> (r: CliResult<Plan>)
    ensures
        matches_view_outcome(r, read_body_of(*source, action)),
{
    let origin = body_origin(source)?;
    Ok(Plan::ReadBody { origin, action })
}

/// Plans a records command, checking its arguments first.
pub fn plan_records(command: &RecordsCommand) -> (r: CliResult<Plan>)
    ensures
        matches_view_outcome(r, records_outcome(*command)),
{
    match command {
        RecordsCommand::List { app_id, paging, field_ids, data_format } => {
            validate_positive_i32(*app_id, "app_id")?;
            let paging = paging_request(paging)?;
            Ok(
                Plan::Call(
                    ApiRequest::ListRecords {
                        app_id: *app_id,
                        paging,
                        field_ids: field_filter_of(field_ids),
                        data_format: format_filter_of(*data_format),
                    },
                ),
            )
        },
        RecordsCommand::Get { app_id, record_id, field_ids, data_format } => {
            validate_two_ids(*app_id, "app_id", *record_id, "record_id")?;
            Ok(
                Plan::Call(
                    ApiRequest::GetRecord {
                        app_id: *app_id,
                        record_id: *record_id,
                        field_ids: field_filter_of(field_ids),
                        data_format: format_filter_of(*data_format),
                    },
                ),
            )
        },
        RecordsCommand::Save { body } => read_body_plan(body, BodyAction::SaveRecord),
        RecordsCommand::Delete { app_id, record_id } => {
            validate_two_ids(*app_id, "app_id", *record_id, "record_id")?;
            Ok(Plan::Call(ApiRequest::DeleteRecord { app_id: *app_id, record_id: *record_id }))
        },
        RecordsCommand::BatchGet { body } => read_body_plan(body, BodyAction::BatchGetRecords),
        RecordsCommand::Query { body, paging } => read_body_plan(
            body,
            BodyAction::QueryRecords {
                paging: PagingArgs { page_number: paging.page_number, page_size: paging.page_size },
            },
        ),
        RecordsCommand::BatchDelete { body } => read_body_plan(
            body,
            BodyAction::BatchDeleteRecords,
        ),
    }
}

/// What planning an upload gives: the ids are checked, then exactly one
/// source of content must be given.
pub open spec fn upload_outcome(
    record_id: i32,
    field_id: i32,
    input: Option<PathArg>,
    stdin: bool,
    file_name: Option<String>,
    content_type: Option<String>,
    notes: Option<String>,
    modified_date: Option<String>,
) -> Result<PlanView, Seq<char>> {
    if two_ids_outcome(record_id, "record_id"@, field_id, "field_id"@) is Err {
        Err(two_ids_outcome(record_id, "record_id"@, field_id, "field_id"@)->Err_0)
    } else if input is None && !stdin {
        Err("A file source is required. Provide --input or --stdin."@)
    } else if input is Some && stdin {
        Err("Only one file source may be specified (--input or --stdin)."@)
    } else {
        Ok(
            PlanView::Upload(
                UploadPlan {
                    record_id,
                    field_id,
                    source: match input {
                        Some(path) => UploadSource::File(path),
                        None => UploadSource::Stdin,
                    },
                    file_name,
                    content_type,
                    notes,
                    modified_date,
                },
            ),
        )
    }
}

/// What planning a files command gives.
pub open spec fn files_outcome(command: FilesCommand) -> Result<PlanView, Seq<char>> {
    match command {
        FilesCommand::Info { record_id, field_id, file_id } => match file_ids_outcome(
            record_id,
            field_id,
            file_id,
        ) {
            Ok(_) => Ok(PlanView::Call(ApiRequestView::GetFileInfo { record_id, field_id, file_id })),
            Err(m) => Err(m),
        },
        FilesCommand::Get { record_id, field_id, file_id, output } => match file_ids_outcome(
            record_id,
            field_id,
            file_id,
        ) {
            Ok(_) => Ok(
                PlanView::Download {
                    request: ApiRequestView::GetFile { record_id, field_id, file_id },
                    output,
                },
            ),
            Err(m) => Err(m),
        },
        FilesCommand::Upload {
            record_id,
            field_id,
            input,
            stdin,
            file_name,
            content_type,
            notes,
            modified_date,
        } => upload_outcome(
            record_id,
            field_id,
            input,
            stdin,
            file_name,
            content_type,
            notes,
            modified_date,
        ),
        FilesCommand::Delete { record_id, field_id, file_id } => match file_ids_outcome(
            record_id,
            field_id,
            file_id,
        ) {
            Ok(_) => Ok(PlanView::Call(ApiRequestView::DeleteFile { record_id, field_id, file_id })),
            Err(m) => Err(m),
        },
    }
}

/// A copy of an optional text.
fn copy_opt_string(s: &Option<String>) -> (r: Option<String>)
    ensures
        r == *s,
{
    match s {
        Some(text) => Some(text.clone()),
        None => None,
    }
}

/// A copy of an optional path.
fn copy_opt_path(path: &Option<PathArg>) -> (r: Option<PathArg>)
    ensures
        r == *path,
{
    match path {
        Some(p) => Some(p.duplicate()),
        None => None,
    }
}

/// Plans a files command, checking its arguments first.
pub fn plan_files(command: &FilesCommand) -> (r: CliResult<Plan>)
    ensures
        matches_view_outcome(r, files_outcome(*command)),
{
    match command {
        FilesCommand::Info { record_id, field_id, file_id } => {
            validate_file_ids(*record_id, *field_id, *file_id)?;
            Ok(
                Plan::Call(
                    ApiRequest::GetFileInfo {
                        record_id: *record_id,
                        field_id: *field_id,
                        file_id: *file_id,
                    },
                ),
            )
        },
        FilesCommand::Get { record_id, field_id, file_id, output } => {
            validate_file_ids(*record_id, *field_id, *file_id)?;
            Ok(
                Plan::Download {
                    request: ApiRequest::GetFile {
                        record_id: *record_id,
                        field_id: *field_id,
                        file_id: *file_id,
                    },
                    output: copy_opt_path(output),
                },
            )
        },
        FilesCommand::Upload {
            record_id,
            field_id,
            input,
            stdin,
            file_name,
            content_type,
            notes,
            modified_date,
        } => {
            validate_two_ids(*record_id, "record_id", *field_id, "field_id")?;
            if input.is_none() && !*stdin {
                return Err(
                    CliError::usage("A file source is required. Provide --input or --stdin."),
                );
            }
            if input.is_some() && *stdin {
                return Err(
                    CliError::usage("Only one file source may be specified (--input or --stdin)."),
                );
            }
            let source = match input {
                Some(path) => UploadSource::File(path.duplicate()),
                None => UploadSource::Stdin,
            };
            Ok(
                Plan::Upload(
                    UploadPlan {
                        record_id: *record_id,
                        field_id: *field_id,
                        source,
                        file_name: copy_opt_string(file_name),
                        content_type: copy_opt_string(content_type),
                        notes: copy_opt_string(notes),
                        modified_date: copy_opt_string(modified_date),
                    },
                ),
            )
        },
        FilesCommand::Delete { record_id, field_id, file_id } => {
            validate_file_ids(*record_id, *field_id, *file_id)?;
            Ok(
                Plan::Call(
                    ApiRequest::DeleteFile {
                        record_id: *record_id,
                        field_id: *field_id,
                        file_id: *file_id,
                    },
                ),
            )
        },
    }
}

/// What planning any command gives.
pub open spec fn plan_outcome(command: Command) -> Result<PlanView, Seq<char>> {
    match command {
        Command::Ping => Ok(PlanView::Call(ApiRequestView::Ping)),
        Command::Apps { command } => call_of(apps_outcome(command)),
        Command::Fields { command } => call_of(fields_outcome(command)),
        Command::Records { command } => records_outcome(command),
        Command::Files { command } => files_outcome(command),
    }
}

/// Plans what running a command takes, checking its arguments before any
/// request is made.
pub fn plan(command: &Command) -> (r: CliResult<Plan>)
    ensures
        matches_view_outcome(r, plan_outcome(*command)),
{
    match command {
        Command::Ping => Ok(Plan::Call(ApiRequest::Ping)),
        Command::Apps { command } => {
            let request = plan_apps(command)?;
            Ok(Plan::Call(request))
        },
        Command::Fields { command } => {
            let request = plan_fields(command)?;
            Ok(Plan::Call(request))
        },
        Command::Records { command } => plan_records(command),
        Command::Files { command } => plan_files(command),
    }
}

/// A page request that the API accepts: both parts greater than zero.
pub open spec fn paging_valid(paging: Option<PagingRequest>) -> bool {
    paging matches Some(p) ==> p.page_number > 0 && p.page_size > 0
}

/// A request whose every id is greater than zero, whose every batch holds
/// between one and `MAX_BATCH_IDS` ids, whose page request is valid and
/// whose field filter, when there is one, names at least one field.
pub open spec fn request_valid(request: ApiRequestView) -> bool {
    match request {
        ApiRequestView::Ping => true,
        ApiRequestView::ListApps { paging } => paging_valid(paging),
        ApiRequestView::GetApp { app_id } => app_id > 0,
        ApiRequestView::BatchGetApps { ids } => 0 < ids.len() <= MAX_BATCH_IDS
            && crate::validation::all_positive(ids),
        ApiRequestView::ListFields { app_id, paging } => app_id > 0 && paging_valid(paging),
        ApiRequestView::GetField { field_id } => field_id > 0,
        ApiRequestView::BatchGetFields { ids } => 0 < ids.len() <= MAX_BATCH_IDS
            && crate::validation::all_positive(ids),
        ApiRequestView::ListRecords { app_id, paging, field_ids, .. } => app_id > 0
            && paging_valid(paging) && (field_ids matches Some(f) ==> f.len() > 0),
        ApiRequestView::GetRecord { app_id, record_id, field_ids, .. } => app_id > 0 && record_id
            > 0 && (field_ids matches Some(f) ==> f.len() > 0),
        ApiRequestView::DeleteRecord { app_id, record_id } => app_id > 0 && record_id > 0,
        ApiRequestView::GetFileInfo { record_id, field_id, file_id } => record_id > 0 && field_id
            > 0 && file_id > 0,
        ApiRequestView::GetFile { record_id, field_id, file_id } => record_id > 0 && field_id > 0
            && file_id > 0,
        ApiRequestView::DeleteFile { record_id, field_id, file_id } => record_id > 0 && field_id
            > 0 && file_id > 0,
    }
}

/// Arguments are checked before any request is made: every request that a
/// command is planned to send is valid, and every planned upload targets a
/// positive record and field.
pub proof fn lemma_planned_requests_are_valid(command: Command)
    ensures
        plan_outcome(command) matches Ok(PlanView::Call(request)) ==> request_valid(request),
        plan_outcome(command) matches Ok(PlanView::Download { request, .. }) ==> request_valid(
            request,
        ),
        plan_outcome(command) matches Ok(PlanView::Upload(u)) ==> u.record_id > 0 && u.field_id
            > 0,
{
}

} // verus!
