//! What each command is for, stated over the inputs that the user gives and
//! the plan that comes out, independently of how the plans are computed.

use vstd::prelude::*;

use crate::cli::{
    AppsCommand, BodySource, Command, DataFormatArg, FieldsCommand, FilesCommand, PagingArgs,
    PathArg, RecordsCommand,
};
use crate::commands::{
    apps_outcome, fields_outcome, files_outcome, plan_outcome, records_outcome, ApiRequestView,
    BodyAction, DataFormat, PlanView, UploadPlan, UploadSource,
};
use crate::error::{failure_code, failure_message, ApiFailure};
use crate::output::{envelope, json_escape, json_escape_char, json_quoted};
use crate::text::{decimal, decimal_digits};
use crate::upload::{rfc3339_parse, upload_request_outcome, Timestamp};
use crate::validation::{body_outcome, paging_outcome, BodyOrigin, PagingRequest};

verus! {

/// The page that paging arguments ask for: none when neither part is given;
/// otherwise the given parts, page 1 and size 50 standing in for a missing
/// one.
pub open spec fn requested_page(args: PagingArgs) -> Option<PagingRequest> {
    if args.page_number is None && args.page_size is None {
        None
    } else {
        Some(
            PagingRequest {
                page_number: match args.page_number {
                    Some(n) => n,
                    None => 1,
                },
                page_size: match args.page_size {
                    Some(s) => s,
                    None => 50,
                },
            },
        )
    }
}

/// Paging arguments that the API accepts: every part given is positive.
pub open spec fn page_args_valid(args: PagingArgs) -> bool {
    (args.page_number matches Some(n) ==> n > 0) && (args.page_size matches Some(s) ==> s > 0)
}

/// The data format that the user's choice asks for.
pub open spec fn chosen_format(arg: Option<DataFormatArg>) -> Option<DataFormat> {
    match arg {
        Some(DataFormatArg::Raw) => Some(DataFormat::Raw),
        Some(DataFormatArg::Formatted) => Some(DataFormat::Formatted),
        None => None,
    }
}

/// The field filter that the user's field ids ask for: every field when
/// none is named, else exactly the named ones.
pub open spec fn chosen_fields(field_ids: Seq<i32>) -> Option<Seq<i32>> {
    if field_ids.len() == 0 {
        None
    } else {
        Some(field_ids)
    }
}

/// A batch of ids that the API accepts: one to a hundred ids, all positive.
pub open spec fn batch_valid(ids: Seq<i32>) -> bool {
    0 < ids.len() <= 100 && forall|i: int| 0 <= i < ids.len() ==> ids[i] > 0
}

/// Paging arguments are planned as the page they ask for, and only valid
/// ones are accepted: for apps, fields and records alike.
pub proof fn lemma_list_plans_carry_the_requested_page(
    args: PagingArgs,
    app_id: i32,
    field_ids: Vec<i32>,
    data_format: Option<DataFormatArg>,
)
    ensures
        page_args_valid(args) ==> apps_outcome(AppsCommand::List(args)) == Ok::<
            ApiRequestView,
            Seq<char>,
        >(ApiRequestView::ListApps { paging: requested_page(args) }),
        !page_args_valid(args) ==> apps_outcome(AppsCommand::List(args)) is Err,
        app_id > 0 && page_args_valid(args) ==> fields_outcome(
            FieldsCommand::List { app_id, paging: args },
        ) == Ok::<ApiRequestView, Seq<char>>(
            ApiRequestView::ListFields { app_id, paging: requested_page(args) },
        ),
        !(app_id > 0 && page_args_valid(args)) ==> fields_outcome(
            FieldsCommand::List { app_id, paging: args },
        ) is Err,
        app_id > 0 && page_args_valid(args) ==> records_outcome(
            RecordsCommand::List { app_id, paging: args, field_ids, data_format },
        ) == Ok::<PlanView, Seq<char>>(
            PlanView::Call(
                ApiRequestView::ListRecords {
                    app_id,
                    paging: requested_page(args),
                    field_ids: chosen_fields(field_ids@),
                    data_format: chosen_format(data_format),
                },
            ),
        ),
        !(app_id > 0 && page_args_valid(args)) ==> records_outcome(
            RecordsCommand::List { app_id, paging: args, field_ids, data_format },
        ) is Err,
{
}

/// A request for one item carries exactly its ids, and is made exactly when
/// they are positive; a batch carries exactly its ids, and is made exactly
/// when the batch is valid.
pub proof fn lemma_item_plans_carry_their_ids(
    first: i32,
    second: i32,
    third: i32,
    ids: Vec<i32>,
    field_ids: Vec<i32>,
    data_format: Option<DataFormatArg>,
    output: Option<PathArg>,
)
    ensures
        (first > 0) == (apps_outcome(AppsCommand::Get { app_id: first }) == Ok::<
            ApiRequestView,
            Seq<char>,
        >(ApiRequestView::GetApp { app_id: first })),
        (first > 0) == (fields_outcome(FieldsCommand::Get { field_id: first }) == Ok::<
            ApiRequestView,
            Seq<char>,
        >(ApiRequestView::GetField { field_id: first })),
        batch_valid(ids@) == (apps_outcome(AppsCommand::BatchGet { ids }) == Ok::<
            ApiRequestView,
            Seq<char>,
        >(ApiRequestView::BatchGetApps { ids: ids@ })),
        batch_valid(ids@) == (fields_outcome(FieldsCommand::BatchGet { ids }) == Ok::<
            ApiRequestView,
            Seq<char>,
        >(ApiRequestView::BatchGetFields { ids: ids@ })),
        !batch_valid(ids@) ==> apps_outcome(AppsCommand::BatchGet { ids }) is Err,
        !batch_valid(ids@) ==> fields_outcome(FieldsCommand::BatchGet { ids }) is Err,
        (first > 0 && second > 0) == (records_outcome(
            RecordsCommand::Get { app_id: first, record_id: second, field_ids, data_format },
        ) == Ok::<PlanView, Seq<char>>(
            PlanView::Call(
                ApiRequestView::GetRecord {
                    app_id: first,
                    record_id: second,
                    field_ids: chosen_fields(field_ids@),
                    data_format: chosen_format(data_format),
                },
            ),
        )),
        (first > 0 && second > 0) == (records_outcome(
            RecordsCommand::Delete { app_id: first, record_id: second },
        ) == Ok::<PlanView, Seq<char>>(
            PlanView::Call(ApiRequestView::DeleteRecord { app_id: first, record_id: second }),
        )),
        (first > 0 && second > 0 && third > 0) == (files_outcome(
            FilesCommand::Info { record_id: first, field_id: second, file_id: third },
        ) == Ok::<PlanView, Seq<char>>(
            PlanView::Call(
                ApiRequestView::GetFileInfo { record_id: first, field_id: second, file_id: third },
            ),
        )),
        (first > 0 && second > 0 && third > 0) == (files_outcome(
            FilesCommand::Get { record_id: first, field_id: second, file_id: third, output },
        ) == Ok::<PlanView, Seq<char>>(
            PlanView::Download {
                request: ApiRequestView::GetFile {
                    record_id: first,
                    field_id: second,
                    file_id: third,
                },
                output,
            },
        )),
        (first > 0 && second > 0 && third > 0) == (files_outcome(
            FilesCommand::Delete { record_id: first, field_id: second, file_id: third },
        ) == Ok::<PlanView, Seq<char>>(
            PlanView::Call(
                ApiRequestView::DeleteFile { record_id: first, field_id: second, file_id: third },
            ),
        )),
{
    if !(first > 0) {
        assert(apps_outcome(AppsCommand::Get { app_id: first }) is Err);
        assert(fields_outcome(FieldsCommand::Get { field_id: first }) is Err);
    }
}

/// Exactly one body source was given.
pub open spec fn one_source(body: BodySource) -> bool {
    if body.json is Some {
        body.file is None && !body.stdin
    } else if body.file is Some {
        !body.stdin
    } else {
        body.stdin
    }
}

/// Where the body of the only source given is read from.
pub open spec fn origin_of(body: BodySource) -> BodyOrigin {
    if body.json is Some {
        BodyOrigin::Inline(body.json->0)
    } else if body.file is Some {
        BodyOrigin::File(body.file->0)
    } else {
        BodyOrigin::Stdin
    }
}

/// Each command with a JSON body plans its own action on the body read from
/// the only source given: saving saves, a batch get gets, a query queries
/// the page asked for, a batch delete deletes; without exactly one source
/// nothing is planned.
pub proof fn lemma_body_commands_plan_their_own_action(body: BodySource, paging: PagingArgs)
    ensures
        one_source(body) ==> records_outcome(RecordsCommand::Save { body }) == Ok::<
            PlanView,
            Seq<char>,
        >(PlanView::ReadBody { origin: origin_of(body), action: BodyAction::SaveRecord }),
        one_source(body) ==> records_outcome(RecordsCommand::BatchGet { body }) == Ok::<
            PlanView,
            Seq<char>,
        >(PlanView::ReadBody { origin: origin_of(body), action: BodyAction::BatchGetRecords }),
        one_source(body) ==> records_outcome(RecordsCommand::Query { body, paging }) == Ok::<
            PlanView,
            Seq<char>,
        >(PlanView::ReadBody { origin: origin_of(body), action: BodyAction::QueryRecords { paging } }),
        one_source(body) ==> records_outcome(RecordsCommand::BatchDelete { body }) == Ok::<
            PlanView,
            Seq<char>,
        >(
            PlanView::ReadBody {
                origin: origin_of(body),
                action: BodyAction::BatchDeleteRecords,
            },
        ),
        !one_source(body) ==> records_outcome(RecordsCommand::Save { body }) is Err,
        !one_source(body) ==> records_outcome(RecordsCommand::BatchGet { body }) is Err,
        !one_source(body) ==> records_outcome(RecordsCommand::Query { body, paging }) is Err,
        !one_source(body) ==> records_outcome(RecordsCommand::BatchDelete { body }) is Err,
{
}

/// An upload is planned exactly when its record and field ids are positive
/// and exactly one source of content is given, and the plan keeps every
/// other thing the user gave unchanged: the file name, the content type,
/// the notes and the modification date.
pub proof fn lemma_upload_plan_keeps_what_the_user_gave(
    record_id: i32,
    field_id: i32,
    input: Option<PathArg>,
    stdin: bool,
    file_name: Option<String>,
    content_type: Option<String>,
    notes: Option<String>,
    modified_date: Option<String>,
)
    ensures
        (record_id > 0 && field_id > 0 && (input is Some) != stdin) == (files_outcome(
            FilesCommand::Upload {
                record_id,
                field_id,
                input,
                stdin,
                file_name,
                content_type,
                notes,
                modified_date,
            },
        ) == Ok::<PlanView, Seq<char>>(
            PlanView::Upload(
                UploadPlan {
                    record_id,
                    field_id,
                    source: match input {
                        Some(path) => UploadSource::File(path),
                        None => UploadSource::Stdin,
                    },
                    file_name,
                    content_type,
                    notes,
                    modified_date,
                },
            ),
        )),
        !(record_id > 0 && field_id > 0 && (input is Some) != stdin) ==> files_outcome(
            FilesCommand::Upload {
                record_id,
                field_id,
                input,
                stdin,
                file_name,
                content_type,
                notes,
                modified_date,
            },
        ) is Err,
{
}

/// Planning a command plans it in its own family: a ping pings, and apps,
/// fields, records and files commands are planned as their own family plans
/// them, apps and fields commands as calls.
pub proof fn lemma_plan_follows_the_family_of_the_command(command: Command)
    ensures
        command is Ping ==> plan_outcome(command) == Ok::<PlanView, Seq<char>>(
            PlanView::Call(ApiRequestView::Ping),
        ),
        command matches Command::Apps { command: c } ==> match apps_outcome(c) {
            Ok(v) => plan_outcome(command) == Ok::<PlanView, Seq<char>>(PlanView::Call(v)),
            Err(m) => plan_outcome(command) == Err::<PlanView, Seq<char>>(m),
        },
        command matches Command::Fields { command: c } ==> match fields_outcome(c) {
            Ok(v) => plan_outcome(command) == Ok::<PlanView, Seq<char>>(PlanView::Call(v)),
            Err(m) => plan_outcome(command) == Err::<PlanView, Seq<char>>(m),
        },
        command matches Command::Records { command: c } ==> plan_outcome(command)
            == records_outcome(c),
        command matches Command::Files { command: c } ==> plan_outcome(command) == files_outcome(
            c,
        ),
{
}

/// Paging arguments give the page they ask for exactly when every part
/// given is positive.
pub proof fn lemma_paging_gives_the_requested_page(args: PagingArgs)
    ensures
        page_args_valid(args) ==> paging_outcome(args) == Ok::<Option<PagingRequest>, Seq<char>>(
            requested_page(args),
        ),
        !page_args_valid(args) ==> paging_outcome(args) is Err,
{
}

/// A body is read from the only source given, and from nowhere when there
/// is not exactly one.
pub proof fn lemma_body_is_read_from_the_only_source(body: BodySource)
    ensures
        one_source(body) ==> body_outcome(body) == Ok::<BodyOrigin, Seq<char>>(origin_of(body)),
        !one_source(body) ==> body_outcome(body) is Err,
{
}

/// A refused argument is the user's mistake (exit code 2) and says what the
/// client refused; every other failure of the API is a runtime failure
/// (exit code 1), and an answer of the API keeps its message when it has
/// one.
pub proof fn lemma_api_failures_keep_their_cause(f: ApiFailure)
    ensures
        f matches ApiFailure::InvalidArgument(m) ==> failure_code(f) == 2 && failure_message(f)
            == "Invalid request: "@ + m@,
        !(f is InvalidArgument) ==> failure_code(f) == 1,
        f matches ApiFailure::Api { status_code, message } ==> (message@.len() > 0
            ==> failure_message(f) == "API request failed ("@ + decimal(status_code as int)
            + "): "@ + message@),
        f is Http ==> failure_message(f) == "Network request failed."@,
        f is Serialization ==> failure_message(f) == "Failed to parse API response."@,
{
}

/// A finished upload sends the content that was read to the record and
/// field of the plan, with the plan's notes, under the name and with the
/// content type that the user gave when given, and with the date that the
/// user gave, as parsed; no date when none was given.
pub proof fn lemma_finished_upload_keeps_the_plan(plan: UploadPlan, file_data: Seq<u8>)
    ensures
        upload_request_outcome(plan, file_data) matches Ok(v) ==> {
            &&& v.record_id == plan.record_id
            &&& v.field_id == plan.field_id
            &&& v.notes == plan.notes
            &&& v.file_data == file_data
            &&& (plan.file_name matches Some(n) ==> v.file_name == n@)
            &&& (plan.content_type matches Some(c) ==> v.content_type == c@)
            &&& (plan.modified_date is None ==> v.modified_date is None)
            &&& (plan.modified_date matches Some(d) ==> (rfc3339_parse(d@) matches Ok(t)
                && v.modified_date == Some(Timestamp { seconds: t.0, nanos: t.1 })))
        },
        plan.file_name is Some && (plan.modified_date matches Some(d) ==> rfc3339_parse(
            d@,
        ) is Ok) ==> upload_request_outcome(plan, file_data) is Ok,
{
}

/// An escaped character holds no control character below U+0020.
pub proof fn lemma_escaped_char_has_no_control_character(c: char)
    ensures
        forall|i: int|
            0 <= i < json_escape_char(c).len() ==> (#[trigger] json_escape_char(c)[i] as u32)
                >= 0x20u32,
{
    if (c as u32) < 0x20u32 && c != '\u{8}' && c != '\t' && c != '\n' && c != '\u{c}' && c
        != '\r' {
        let hi = (c as u32 / 16) as nat;
        let lo = (c as u32 % 16) as nat;
        assert(hi < 16 && lo < 16);
    }
}

/// JSON text of a string never holds a raw control character: every one is
/// written as an escape.
pub proof fn lemma_escaped_text_has_no_control_character(s: Seq<char>)
    ensures
        forall|i: int| 0 <= i < json_escape(s).len() ==> (#[trigger] json_escape(s)[i] as u32) >= 0x20u32,
    decreases s.len(),
{
    if s.len() > 0 {
        lemma_escaped_text_has_no_control_character(s.drop_last());
        lemma_escaped_char_has_no_control_character(s.last());
        let a = json_escape(s.drop_last());
        let b = json_escape_char(s.last());
        assert(json_escape(s) == a + b);
        assert forall|i: int| 0 <= i < json_escape(s).len() implies (#[trigger] json_escape(s)[i] as u32) >= 0x20u32 by {
            if i < a.len() {
                assert(json_escape(s)[i] == a[i]);
            } else {
                assert(json_escape(s)[i] == b[i - a.len()]);
            }
        }
    }
}

/// The error envelope is the JSON object `{"error":{"code":..,"message":..}}`
/// with the code in decimal and the message as a JSON string, written on one
/// line or indented by two spaces.
pub proof fn lemma_error_envelope_layout(code: int, message: Seq<char>)
    ensures
        envelope(code, json_quoted(message), false) == "{\"error\":{\"code\":"@ + decimal(code)
            + ",\"message\":\""@ + json_escape(message) + "\"}}"@,
        envelope(code, json_quoted(message), true) == "{\n  \"error\": {\n    \"code\": "@
            + decimal(code) + ",\n    \"message\": \""@ + json_escape(message)
            + "\"\n  }\n}"@,
{
    reveal_strlit("{\"error\":{\"code\":");
    reveal_strlit(",\"message\":");
    reveal_strlit(",\"message\":\"");
    reveal_strlit("}}");
    reveal_strlit("\"}}");
    reveal_strlit("{\n  \"error\": {\n    \"code\": ");
    reveal_strlit(",\n    \"message\": ");
    reveal_strlit(",\n    \"message\": \"");
    reveal_strlit("\n  }\n}");
    reveal_strlit("\"\n  }\n}");
    assert(envelope(code, json_quoted(message), false) =~= "{\"error\":{\"code\":"@ + decimal(
        code,
    ) + ",\"message\":\""@ + json_escape(message) + "\"}}"@);
    assert(envelope(code, json_quoted(message), true) =~= "{\n  \"error\": {\n    \"code\": "@
        + decimal(code) + ",\n    \"message\": \""@ + json_escape(message) + "\"\n  }\n}"@);
}

/// The number that a text of decimal digits stands for.
pub open spec fn digits_value(s: Seq<char>) -> int
    decreases s.len(),
{
    if s.len() == 0 {
        0
    } else {
        digits_value(s.drop_last()) * 10 + (s.last() as int - '0' as int)
    }
}

/// The decimal text of a natural number is made of the digits `0` to `9`,
/// starts with `0` only for zero itself, and stands for the number.
pub proof fn lemma_decimal_digits_stand_for_the_number(n: nat)
    ensures
        decimal_digits(n).len() > 0,
        forall|i: int|
            0 <= i < decimal_digits(n).len() ==> '0' <= #[trigger] decimal_digits(n)[i] <= '9',
        decimal_digits(n)[0] == '0' ==> n == 0,
        digits_value(decimal_digits(n)) == n,
    decreases n,
{
    let d = n % 10;
    let c = ((48 + d) as u8) as char;
    assert(c as int == 48 + d);
    assert('0' as int == 48);
    let s = decimal_digits(n);
    if n >= 10 {
        lemma_decimal_digits_stand_for_the_number(n / 10);
        assert(s.drop_last() =~= decimal_digits(n / 10));
        assert(s.last() == c);
        assert(digits_value(s) == digits_value(decimal_digits(n / 10)) * 10 + d);
        assert((n / 10) * 10 + n % 10 == n) by (nonlinear_arith);
        assert(digits_value(s) == n);
    } else {
        assert(s.drop_last() =~= Seq::<char>::empty());
        assert(s.last() == c);
        assert(digits_value(Seq::<char>::empty()) == 0);
        assert(digits_value(s) == n);
    }
}

/// The decimal text of a negative number is a minus sign before the digits
/// of its magnitude; that of another number is its digits alone.
pub proof fn lemma_decimal_sign(n: int)
    ensures
        n < 0 ==> decimal(n)[0] == '-' && decimal(n).drop_first() == decimal_digits((-n) as nat),
        n >= 0 ==> decimal(n) == decimal_digits(n as nat) && digits_value(decimal(n)) == n,
{
    if n >= 0 {
        lemma_decimal_digits_stand_for_the_number(n as nat);
    } else {
        assert(decimal(n).drop_first() =~= decimal_digits((-n) as nat));
    }
}

} // verus!
