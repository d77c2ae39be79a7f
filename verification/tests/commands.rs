use delta_command_api::commands::{
    basic_command, error_response, result_to_string, run_json, success_response, BasicCommand,
    Command, CommandArgs, ErrorResponse, SuccessResponse,
};
use delta_command_api::error::{ErrorInstance, ErrorType};

fn echo_args(message: &str) -> Option<Result<CommandArgs, String>> {
    Some(Ok(CommandArgs::Echo { message: message.to_string() }))
}

/// The arguments of the echo command, read from the request's JSON text.
fn echo_args_from(command: &str) -> Option<Result<CommandArgs, String>> {
    let v: serde_json::Value = serde_json::from_str(command).unwrap();
    echo_args(v["message"].as_str().unwrap())
}

#[test]
fn echo() {
    assert_eq!(
        run_json(
            echo_args_from("{ \"command_id\": 1, \"message\": \"Hello Echo\", \"invocation_id\": 476}"),
            Command {
                command_id: 1,
                invocation_id: 476
            }
        )
        .unwrap(),
        "{\"result\":\"Hello Echo\",\"invocation_id\":476}"
    );
}

#[test]
fn errors() {
    assert_eq!(
        run_json(
            Some(Err(
                "Some(Error(\"missing field `message`\", line: 1, column: 38))".to_string()
            )),
            Command { command_id: 1, invocation_id: 0 }
        )
        .unwrap(),
        "{\"kind\":\"CommandParseFailure\",\"message\":\"command arguments invalid: Some(Error(\\\"missing field `message`\\\", line: 1, column: 38))\",\"invocation_id\":0}"
    );
}

#[test]
fn add_and_subtract() {
    let cmd = Command { command_id: 2, invocation_id: 7 };
    assert_eq!(
        run_json(Some(Ok(CommandArgs::Add { a: 40, b: 2 })), cmd).unwrap(),
        "{\"result\":42,\"invocation_id\":7}"
    );
    let cmd = Command { command_id: 3, invocation_id: 8 };
    assert_eq!(
        run_json(Some(Ok(CommandArgs::Subtract { a: 40, b: 2 })), cmd).unwrap(),
        "{\"result\":38,\"invocation_id\":8}"
    );
    let cmd = Command { command_id: 3, invocation_id: 4294967295 };
    assert_eq!(
        run_json(Some(Ok(CommandArgs::Subtract { a: 5, b: 5 })), cmd).unwrap(),
        "{\"result\":0,\"invocation_id\":4294967295}"
    );
}

#[test]
fn unknown_command() {
    let cmd = Command { command_id: 17, invocation_id: 3 };
    assert_eq!(
        run_json(None, cmd).unwrap(),
        "{\"kind\":\"CommandNotFound\",\"message\":\"command with the id 17 not found\",\"invocation_id\":3}"
    );
}

#[test]
fn echo_escapes_its_message() {
    let out = run_json(
        echo_args("say \"hi\"\\\n"),
        Command { command_id: 1, invocation_id: 1 },
    )
    .unwrap();
    assert_eq!(out, "{\"result\":\"say \\\"hi\\\"\\\\\\n\",\"invocation_id\":1}");
}

#[test]
fn command_table() {
    assert_eq!(basic_command(1), Some(BasicCommand::Echo));
    assert_eq!(basic_command(2), Some(BasicCommand::Add));
    assert_eq!(basic_command(3), Some(BasicCommand::Subtract));
    assert_eq!(basic_command(0), None);
    assert_eq!(basic_command(4), None);
}

#[test]
fn result_to_string_frames_both_outcomes() {
    assert_eq!(
        result_to_string(Ok("[1,2]".to_string()), 12).unwrap(),
        "{\"result\":[1,2],\"invocation_id\":12}"
    );
    let e = ErrorInstance::new(ErrorType::NoContext, "no".to_string());
    assert_eq!(
        result_to_string(Err(e), 12).unwrap(),
        "{\"kind\":\"NoContext\",\"message\":\"no\",\"invocation_id\":12}"
    );
}

#[test]
fn error_kinds_by_name() {
    let kinds = [
        (ErrorType::CommandIdMissing, "CommandIdMissing"),
        (ErrorType::CommandNotFound, "CommandNotFound"),
        (ErrorType::CommandNotImplementedYet, "CommandNotImplementedYet"),
        (ErrorType::CommandParseFailure, "CommandParseFailure"),
        (ErrorType::NoContext, "NoContext"),
        (ErrorType::Generic, "Generic"),
        (ErrorType::DeltaChatError, "DeltaChatError"),
    ];
    for (kind, name) in kinds {
        assert_eq!(kind.name(), name);
        assert_eq!(
            error_response(kind, "m", 5).unwrap(),
            format!("{{\"kind\":\"{}\",\"message\":\"m\",\"invocation_id\":5}}", name)
        );
    }
}

#[test]
fn error_response_to_json() {
    let r = ErrorResponse {
        kind: ErrorType::Generic,
        message: "This connection has already a context opened".to_string(),
        invocation_id: 99,
    };
    assert_eq!(
        r.to_json().unwrap(),
        "{\"kind\":\"Generic\",\"message\":\"This connection has already a context opened\",\"invocation_id\":99}"
    );
}

#[test]
fn success_response_to_json() {
    let r = SuccessResponse::new(31);
    assert!(r.success);
    assert_eq!(r.to_json(), "{\"success\":true,\"invocation_id\":31}");
    assert_eq!(
        success_response("null", 0),
        "{\"result\":null,\"invocation_id\":0}"
    );
}

#[test]
fn answers_end_with_invocation_id() {
    for id in [0u32, 9, 10, 476, 4294967295] {
        let tail = format!(",\"invocation_id\":{}}}", id);
        let a = run_json(echo_args("x"), Command { command_id: 1, invocation_id: id }).unwrap();
        let b = run_json(None, Command { command_id: 99, invocation_id: id }).unwrap();
        let c = run_json(Some(Err("bad".to_string())), Command { command_id: 2, invocation_id: id })
            .unwrap();
        assert!(a.ends_with(&tail));
        assert!(b.ends_with(&tail));
        assert!(c.ends_with(&tail));
    }
}

#[test]
fn error_instances() {
    let e = ErrorInstance::command_not_found(123);
    assert_eq!(e.kind, ErrorType::CommandNotFound);
    assert_eq!(e.message, "command with the id 123 not found");
    let e = ErrorInstance::parse_failure("oops");
    assert_eq!(e.kind, ErrorType::CommandParseFailure);
    assert_eq!(e.message, "command arguments invalid: oops");
    let e = ErrorInstance::from_sql_error("Busy");
    assert_eq!(e.kind, ErrorType::DeltaChatError);
    assert_eq!(e.message, "SQL error: Busy");
    let e = ErrorInstance::generic("g");
    assert_eq!(e.kind, ErrorType::Generic);
    assert_eq!(e.message, "g");
    let a = anyhow::Error::msg("database is locked");
    let e = ErrorInstance::from_anyhow(&a);
    assert_eq!(e.kind, ErrorType::DeltaChatError);
    assert!(e.message.starts_with("database is locked"));
}

#[test]
fn error_debug_text() {
    let e = ErrorInstance::new(ErrorType::Generic, "a \"b\"".to_string());
    assert_eq!(e.debug_text(), format!("{:?}", e));
    assert_eq!(e.debug_text(), "ErrorInstance { kind: Generic, message: \"a \\\"b\\\"\" }");
    let d = e.duplicate();
    assert_eq!(d.kind, e.kind);
    assert_eq!(d.message, e.message);
}
