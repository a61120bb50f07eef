use onx::error::{ApiFailure, INFO_CODE, RUNTIME_CODE, USAGE_CODE};
use onx::output::{error_envelope_json, render_error};
use onx::{render_cli_error, CliError};

#[test]
fn render_cli_error_when_called_with_error_it_should_render_json() {
    let error = CliError {
        code: 1,
        message: String::from("Something went wrong"),
    };

    let result = render_cli_error(&error, false);

    assert_eq!(
        result,
        r#"{"error":{"code":1,"message":"Something went wrong"}}"#
    );
}

#[test]
fn cli_error_constructors_should_set_expected_codes_and_messages() {
    let info = CliError::info("info message");
    assert_eq!(info.code, 0);
    assert_eq!(info.message, "info message");

    let runtime = CliError::runtime("runtime message");
    assert_eq!(runtime.code, 1);
    assert_eq!(runtime.message, "runtime message");

    let usage = CliError::usage("usage message");
    assert_eq!(usage.code, 2);
    assert_eq!(usage.message, "usage message");
}

#[test]
fn exit_codes_are_zero_one_and_two() {
    assert_eq!(INFO_CODE, 0);
    assert_eq!(RUNTIME_CODE, 1);
    assert_eq!(USAGE_CODE, 2);
}

#[test]
fn cli_error_from_api_failure_invalid_argument() {
    let cli_err = CliError::from(ApiFailure::InvalidArgument("bad param".to_string()));

    assert_eq!(cli_err.code, 2);
    assert_eq!(cli_err.message, "Invalid request: bad param");
}

#[test]
fn cli_error_from_api_failure_api_with_message() {
    let cli_err = CliError::from(ApiFailure::Api {
        status_code: 404,
        message: "Resource not found".to_string(),
    });

    assert_eq!(cli_err.code, 1);
    assert_eq!(cli_err.message, "API request failed (404): Resource not found");
}

#[test]
fn cli_error_from_api_failure_api_with_empty_message() {
    let cli_err = CliError::from(ApiFailure::Api {
        status_code: 500,
        message: String::new(),
    });

    assert_eq!(cli_err.code, 1);
    assert_eq!(cli_err.message, "API request failed with status 500.");
}

#[test]
fn cli_error_from_api_failure_http() {
    let cli_err = CliError::from(ApiFailure::Http);

    assert_eq!(cli_err, CliError::runtime("Network request failed."));
}

#[test]
fn cli_error_from_api_failure_serialization() {
    let cli_err = CliError::from(ApiFailure::Serialization);

    assert_eq!(cli_err.code, 1);
    assert_eq!(cli_err.message, "Failed to parse API response.");
}

#[test]
fn cli_errors_compare_by_code_and_message() {
    assert_eq!(CliError::usage("x"), CliError::usage("x"));
    assert_ne!(CliError::usage("x"), CliError::runtime("x"));
    assert_ne!(CliError::usage("x"), CliError::usage("y"));
}

#[test]
fn render_cli_error_pretty_should_indent_by_two_spaces() {
    let error = CliError::usage("bad input");

    let result = render_cli_error(&error, true);

    assert_eq!(
        result,
        "{\n  \"error\": {\n    \"code\": 2,\n    \"message\": \"bad input\"\n  }\n}"
    );
}

#[test]
fn render_error_should_escape_quotes_backslashes_and_newlines() {
    let error = CliError::runtime("say \"hi\"\\\nnow");

    let result = render_error(&error, false).unwrap();

    assert_eq!(
        result,
        r#"{"error":{"code":1,"message":"say \"hi\"\\\nnow"}}"#
    );
}

#[test]
fn render_error_should_render_negative_codes() {
    let error = CliError {
        code: -3,
        message: "odd".to_string(),
    };

    assert_eq!(
        render_error(&error, false),
        Ok(r#"{"error":{"code":-3,"message":"odd"}}"#.to_string())
    );
}

#[test]
fn error_envelope_json_frames_an_already_quoted_message() {
    assert_eq!(
        error_envelope_json(7, "\"m\"", false),
        r#"{"error":{"code":7,"message":"m"}}"#
    );
    assert_eq!(
        error_envelope_json(0, "\"m\"", true),
        "{\n  \"error\": {\n    \"code\": 0,\n    \"message\": \"m\"\n  }\n}"
    );
}

#[test]
fn render_error_should_escape_control_characters_in_lowercase_hex() {
    let error = CliError::usage("a\tb\u{1}c\u{1f}d\u{8}\u{c}\ré");

    let result = render_error(&error, false).unwrap();

    assert_eq!(
        result,
        "{\"error\":{\"code\":2,\"message\":\"a\\tb\\u0001c\\u001fd\\b\\f\\ré\"}}"
    );
}
