use std::path::PathBuf;

use onx::cli::{
    AppsCommand, BodySource, Command, DataFormatArg, FieldsCommand, FilesCommand, PagingArgs,
    PathArg, RecordsCommand,
};
use onx::commands::{
    plan, plan_apps, plan_fields, plan_files, plan_records, ApiRequest, BodyAction, DataFormat,
    Plan, UploadPlan, UploadSource,
};
use onx::validation::{BodyOrigin, PagingRequest};
use onx::CliError;

fn call(plan: Plan) -> ApiRequest {
    match plan {
        Plan::Call(request) => request,
        other => panic!("expected a call, got {:?}", other),
    }
}

#[test]
fn plan_ping_is_a_ping_request() {
    assert!(matches!(call(plan(&Command::Ping).unwrap()), ApiRequest::Ping));
}

#[test]
fn plan_apps_list_without_paging_sends_no_page_request() {
    let request = plan_apps(&AppsCommand::List(PagingArgs::default())).unwrap();
    assert!(matches!(request, ApiRequest::ListApps { paging: None }));
}

#[test]
fn plan_apps_list_with_paging_passes_the_page_request() {
    let request = plan_apps(&AppsCommand::List(PagingArgs {
        page_number: Some(2),
        page_size: Some(10),
    }))
    .unwrap();
    match request {
        ApiRequest::ListApps { paging } => assert_eq!(
            paging,
            Some(PagingRequest {
                page_number: 2,
                page_size: 10
            })
        ),
        other => panic!("unexpected {:?}", other),
    }
}

#[test]
fn plan_apps_list_with_invalid_paging_is_a_usage_error() {
    let result = plan_apps(&AppsCommand::List(PagingArgs {
        page_number: Some(0),
        page_size: None,
    }));
    assert_eq!(
        result.unwrap_err(),
        CliError::usage("page_number must be greater than 0.")
    );
}

#[test]
fn plan_apps_get_checks_the_app_id() {
    assert!(matches!(
        plan_apps(&AppsCommand::Get { app_id: 123 }),
        Ok(ApiRequest::GetApp { app_id: 123 })
    ));
    assert_eq!(
        plan_apps(&AppsCommand::Get { app_id: 0 }).unwrap_err(),
        CliError::usage("app_id must be greater than 0.")
    );
}

#[test]
fn plan_apps_batch_get_checks_the_ids() {
    match plan_apps(&AppsCommand::BatchGet { ids: vec![1, 2] }).unwrap() {
        ApiRequest::BatchGetApps { ids } => assert_eq!(ids, vec![1, 2]),
        other => panic!("unexpected {:?}", other),
    }
    assert_eq!(
        plan_apps(&AppsCommand::BatchGet { ids: vec![] }).unwrap_err(),
        CliError::usage("ids cannot be empty.")
    );
    assert_eq!(
        plan_apps(&AppsCommand::BatchGet { ids: vec![1, 0, 2] }).unwrap_err(),
        CliError::usage("ids must only contain values > 0.")
    );
    assert_eq!(
        plan_apps(&AppsCommand::BatchGet { ids: vec![1; 101] }).unwrap_err(),
        CliError::usage("ids cannot contain more than 100 values.")
    );
}

#[test]
fn plan_fields_list_checks_the_app_id_before_the_paging() {
    let command = FieldsCommand::List {
        app_id: 0,
        paging: PagingArgs {
            page_number: Some(-1),
            page_size: None,
        },
    };
    assert_eq!(
        plan_fields(&command).unwrap_err(),
        CliError::usage("app_id must be greater than 0.")
    );
    let command = FieldsCommand::List {
        app_id: 10,
        paging: PagingArgs {
            page_number: Some(-1),
            page_size: None,
        },
    };
    assert_eq!(
        plan_fields(&command).unwrap_err(),
        CliError::usage("page_number must be greater than 0.")
    );
    let command = FieldsCommand::List {
        app_id: 10,
        paging: PagingArgs::default(),
    };
    assert!(matches!(
        plan_fields(&command),
        Ok(ApiRequest::ListFields {
            app_id: 10,
            paging: None
        })
    ));
}

#[test]
fn plan_fields_get_and_batch_get_check_their_ids() {
    assert!(matches!(
        plan_fields(&FieldsCommand::Get { field_id: 123 }),
        Ok(ApiRequest::GetField { field_id: 123 })
    ));
    assert_eq!(
        plan_fields(&FieldsCommand::Get { field_id: -4 }).unwrap_err(),
        CliError::usage("field_id must be greater than 0.")
    );
    assert_eq!(
        plan_fields(&FieldsCommand::BatchGet { ids: vec![] }).unwrap_err(),
        CliError::usage("ids cannot be empty.")
    );
    match plan_fields(&FieldsCommand::BatchGet { ids: vec![3] }).unwrap() {
        ApiRequest::BatchGetFields { ids } => assert_eq!(ids, vec![3]),
        other => panic!("unexpected {:?}", other),
    }
}

#[test]
fn plan_records_list_passes_field_ids_and_format_only_when_given() {
    let command = RecordsCommand::List {
        app_id: 1,
        paging: PagingArgs::default(),
        field_ids: vec![],
        data_format: None,
    };
    match call(plan_records(&command).unwrap()) {
        ApiRequest::ListRecords {
            app_id,
            paging,
            field_ids,
            data_format,
        } => {
            assert_eq!(app_id, 1);
            assert_eq!(paging, None);
            assert_eq!(field_ids, None);
            assert_eq!(data_format, None);
        }
        other => panic!("unexpected {:?}", other),
    }

    let command = RecordsCommand::List {
        app_id: 1,
        paging: PagingArgs {
            page_number: Some(2),
            page_size: Some(10),
        },
        field_ids: vec![100, 200],
        data_format: Some(DataFormatArg::Formatted),
    };
    match call(plan_records(&command).unwrap()) {
        ApiRequest::ListRecords {
            paging,
            field_ids,
            data_format,
            ..
        } => {
            assert_eq!(
                paging,
                Some(PagingRequest {
                    page_number: 2,
                    page_size: 10
                })
            );
            assert_eq!(field_ids, Some(vec![100, 200]));
            assert_eq!(data_format, Some(DataFormat::Formatted));
        }
        other => panic!("unexpected {:?}", other),
    }
}

#[test]
fn plan_records_list_refuses_bad_app_id_and_paging() {
    let command = RecordsCommand::List {
        app_id: 0,
        paging: PagingArgs::default(),
        field_ids: vec![],
        data_format: None,
    };
    assert_eq!(
        plan_records(&command).unwrap_err(),
        CliError::usage("app_id must be greater than 0.")
    );
    let command = RecordsCommand::List {
        app_id: 1,
        paging: PagingArgs {
            page_number: Some(-1),
            page_size: None,
        },
        field_ids: vec![],
        data_format: None,
    };
    assert_eq!(
        plan_records(&command).unwrap_err(),
        CliError::usage("page_number must be greater than 0.")
    );
}

#[test]
fn plan_records_get_and_delete_check_app_then_record() {
    let command = RecordsCommand::Get {
        app_id: 1,
        record_id: 10,
        field_ids: vec![100],
        data_format: Some(DataFormatArg::Raw),
    };
    match call(plan_records(&command).unwrap()) {
        ApiRequest::GetRecord {
            app_id,
            record_id,
            field_ids,
            data_format,
        } => {
            assert_eq!((app_id, record_id), (1, 10));
            assert_eq!(field_ids, Some(vec![100]));
            assert_eq!(data_format, Some(DataFormat::Raw));
        }
        other => panic!("unexpected {:?}", other),
    }
    let command = RecordsCommand::Get {
        app_id: 1,
        record_id: 0,
        field_ids: vec![],
        data_format: None,
    };
    assert_eq!(
        plan_records(&command).unwrap_err(),
        CliError::usage("record_id must be greater than 0.")
    );
    let command = RecordsCommand::Delete {
        app_id: 0,
        record_id: 0,
    };
    assert_eq!(
        plan_records(&command).unwrap_err(),
        CliError::usage("app_id must be greater than 0.")
    );
    let command = RecordsCommand::Delete {
        app_id: 1,
        record_id: 10,
    };
    assert!(matches!(
        call(plan_records(&command).unwrap()),
        ApiRequest::DeleteRecord {
            app_id: 1,
            record_id: 10
        }
    ));
}

#[test]
fn plan_records_with_a_body_settles_the_source_first() {
    let body = BodySource {
        json: Some(r#"{"appId":1,"fields":{}}"#.to_string()),
        file: None,
        stdin: false,
    };
    match plan_records(&RecordsCommand::Save { body }).unwrap() {
        Plan::ReadBody { origin, action } => {
            assert_eq!(
                origin,
                BodyOrigin::Inline(r#"{"appId":1,"fields":{}}"#.to_string())
            );
            assert_eq!(action, BodyAction::SaveRecord);
        }
        other => panic!("unexpected {:?}", other),
    }
    assert_eq!(
        plan_records(&RecordsCommand::Save {
            body: BodySource::default()
        })
        .unwrap_err(),
        CliError::usage("A request body is required. Provide --json, --file, or --stdin.")
    );
    let query = RecordsCommand::Query {
        body: BodySource {
            json: None,
            file: None,
            stdin: true,
        },
        paging: PagingArgs {
            page_number: Some(0),
            page_size: None,
        },
    };
    match plan_records(&query).unwrap() {
        Plan::ReadBody { origin, action } => {
            assert_eq!(origin, BodyOrigin::Stdin);
            assert_eq!(
                action,
                BodyAction::QueryRecords {
                    paging: PagingArgs {
                        page_number: Some(0),
                        page_size: None
                    }
                }
            );
        }
        other => panic!("unexpected {:?}", other),
    }
    let batch_delete = RecordsCommand::BatchDelete {
        body: BodySource {
            json: None,
            file: Some(PathArg::new(PathBuf::from("ids.json"))),
            stdin: false,
        },
    };
    assert!(matches!(
        plan_records(&batch_delete),
        Ok(Plan::ReadBody {
            action: BodyAction::BatchDeleteRecords,
            ..
        })
    ));
    let batch_get = RecordsCommand::BatchGet {
        body: BodySource {
            json: Some("{}".to_string()),
            file: None,
            stdin: true,
        },
    };
    assert_eq!(
        plan_records(&batch_get).unwrap_err(),
        CliError::usage(
            "Only one request body source may be specified (--json, --file, or --stdin)."
        )
    );
}

#[test]
fn plan_files_checks_record_then_field_then_file() {
    for (ids, message) in [
        ((0, 2, 3), "record_id must be greater than 0."),
        ((1, -1, 3), "field_id must be greater than 0."),
        ((1, 2, 0), "file_id must be greater than 0."),
    ] {
        let (record_id, field_id, file_id) = ids;
        let info = FilesCommand::Info {
            record_id,
            field_id,
            file_id,
        };
        assert_eq!(plan_files(&info).unwrap_err(), CliError::usage(message));
        let get = FilesCommand::Get {
            record_id,
            field_id,
            file_id,
            output: None,
        };
        assert_eq!(plan_files(&get).unwrap_err(), CliError::usage(message));
        let delete = FilesCommand::Delete {
            record_id,
            field_id,
            file_id,
        };
        assert_eq!(plan_files(&delete).unwrap_err(), CliError::usage(message));
    }
}

#[test]
fn plan_files_get_keeps_the_output_path() {
    let get = FilesCommand::Get {
        record_id: 10,
        field_id: 20,
        file_id: 30,
        output: Some(PathArg::new(PathBuf::from("out.bin"))),
    };
    match plan_files(&get).unwrap() {
        Plan::Download { request, output } => {
            assert!(matches!(
                request,
                ApiRequest::GetFile {
                    record_id: 10,
                    field_id: 20,
                    file_id: 30
                }
            ));
            assert_eq!(output.map(|o| o.path), Some(PathBuf::from("out.bin")));
        }
        other => panic!("unexpected {:?}", other),
    }
    let info = FilesCommand::Info {
        record_id: 1,
        field_id: 2,
        file_id: 3,
    };
    assert!(matches!(
        call(plan_files(&info).unwrap()),
        ApiRequest::GetFileInfo {
            record_id: 1,
            field_id: 2,
            file_id: 3
        }
    ));
}

fn upload(input: Option<&str>, stdin: bool) -> FilesCommand {
    FilesCommand::Upload {
        record_id: 1,
        field_id: 2,
        input: input.map(|p| PathArg::new(PathBuf::from(p))),
        stdin,
        file_name: Some("file.txt".to_string()),
        content_type: None,
        notes: None,
        modified_date: None,
    }
}

#[test]
fn plan_files_upload_needs_exactly_one_source() {
    assert_eq!(
        plan_files(&upload(None, false)).unwrap_err(),
        CliError::usage("A file source is required. Provide --input or --stdin.")
    );
    assert_eq!(
        plan_files(&upload(Some("test.txt"), true)).unwrap_err(),
        CliError::usage("Only one file source may be specified (--input or --stdin).")
    );
    match plan_files(&upload(Some("test.txt"), false)).unwrap() {
        Plan::Upload(plan) => assert_eq!(
            plan,
            UploadPlan {
                record_id: 1,
                field_id: 2,
                source: UploadSource::File(PathArg::new(PathBuf::from("test.txt"))),
                file_name: Some("file.txt".to_string()),
                content_type: None,
                notes: None,
                modified_date: None,
            }
        ),
        other => panic!("unexpected {:?}", other),
    }
    match plan_files(&upload(None, true)).unwrap() {
        Plan::Upload(plan) => assert_eq!(plan.source, UploadSource::Stdin),
        other => panic!("unexpected {:?}", other),
    }
}

#[test]
fn plan_files_upload_checks_ids_before_the_source() {
    let command = FilesCommand::Upload {
        record_id: 0,
        field_id: 2,
        input: None,
        stdin: false,
        file_name: None,
        content_type: None,
        notes: None,
        modified_date: None,
    };
    assert_eq!(
        plan_files(&command).unwrap_err(),
        CliError::usage("record_id must be greater than 0.")
    );
    let command = FilesCommand::Upload {
        record_id: 1,
        field_id: 0,
        input: Some(PathArg::new(PathBuf::from("test.txt"))),
        stdin: false,
        file_name: None,
        content_type: None,
        notes: None,
        modified_date: None,
    };
    assert_eq!(
        plan_files(&command).unwrap_err(),
        CliError::usage("field_id must be greater than 0.")
    );
}

#[test]
fn plan_dispatches_each_command_family() {
    let apps = Command::Apps {
        command: AppsCommand::Get { app_id: 0 },
    };
    assert_eq!(
        plan(&apps).unwrap_err(),
        CliError::usage("app_id must be greater than 0.")
    );
    let fields = Command::Fields {
        command: FieldsCommand::Get { field_id: 9 },
    };
    assert!(matches!(
        call(plan(&fields).unwrap()),
        ApiRequest::GetField { field_id: 9 }
    ));
    let records = Command::Records {
        command: RecordsCommand::Delete {
            app_id: 1,
            record_id: 2,
        },
    };
    assert!(matches!(
        call(plan(&records).unwrap()),
        ApiRequest::DeleteRecord {
            app_id: 1,
            record_id: 2
        }
    ));
    let files = Command::Files {
        command: FilesCommand::Delete {
            record_id: 10,
            field_id: 20,
            file_id: 30,
        },
    };
    assert!(matches!(
        call(plan(&files).unwrap()),
        ApiRequest::DeleteFile {
            record_id: 10,
            field_id: 20,
            file_id: 30
        }
    ));
}

#[test]
fn data_format_follows_the_choice_of_the_user() {
    assert_eq!(DataFormat::from(DataFormatArg::Raw), DataFormat::Raw);
    assert_eq!(
        DataFormat::from(DataFormatArg::Formatted),
        DataFormat::Formatted
    );
}
