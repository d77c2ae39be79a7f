//! Error kinds and error values of the command layer.

use vstd::prelude::*;
use crate::text::{push_decimal, push_str, dec_digits, debug_str, str_debug};

verus! {

/// `anyhow::Error`, the error that the chat core returns.
#[verifier::external_type_specification]
#[verifier::external_body]
pub struct ExAnyhowError(anyhow::Error);

/// What went wrong, as the client sees it (the field `kind` of an error
/// response).
#[derive(Clone, Copy, Debug, PartialEq, Eq, Structural)]
pub enum ErrorType {
    CommandIdMissing,
    CommandNotFound,
    CommandNotImplementedYet,
    CommandParseFailure,
    NoContext,
    /// the command threw an Error
    Generic,
    DeltaChatError,
}

/// The name under which an error kind is written on the wire.
pub open spec fn kind_name(kind: ErrorType) -> Seq<char> {
    match kind {
        ErrorType::CommandIdMissing => "CommandIdMissing"@,
        ErrorType::CommandNotFound => "CommandNotFound"@,
        ErrorType::CommandNotImplementedYet => "CommandNotImplementedYet"@,
        ErrorType::CommandParseFailure => "CommandParseFailure"@,
        ErrorType::NoContext => "NoContext"@,
        ErrorType::Generic => "Generic"@,
        ErrorType::DeltaChatError => "DeltaChatError"@,
    }
}

impl ErrorType {
    /// The name under which this kind is written on the wire.
    pub fn name(&self) -> (res: &'static str)
        ensures
            res@ == kind_name(*self),
    {
        match self {
            ErrorType::CommandIdMissing => "CommandIdMissing",
            ErrorType::CommandNotFound => "CommandNotFound",
            ErrorType::CommandNotImplementedYet => "CommandNotImplementedYet",
            ErrorType::CommandParseFailure => "CommandParseFailure",
            ErrorType::NoContext => "NoContext",
            ErrorType::Generic => "Generic",
            ErrorType::DeltaChatError => "DeltaChatError",
        }
    }
}

/// An error that a command produced: its kind and a human-readable message.
#[derive(Debug)]
pub struct ErrorInstance {
    pub kind: ErrorType,
    pub message: String,
}

/// The message of a request whose command id is in no command table.
pub open spec fn not_found_message(command_id: u32) -> Seq<char> {
    "command with the id "@ + dec_digits(command_id as nat) + " not found"@
}

/// The message of a request whose arguments did not parse; `detail` is the
/// parser's account of the failure.
pub open spec fn parse_failure_message(detail: Seq<char>) -> Seq<char> {
    "command arguments invalid: "@ + detail
}

/// Calls `format!("{:?}", err)` on an `anyhow::Error`. Nothing is claimed
/// of the text: it holds the error's chain of causes and, depending on the
/// environment, a backtrace.
#[verifier::external_body]
fn anyhow_debug(err: &anyhow::Error) -> String {
    format!("{:?}", err)
}

impl View for ErrorInstance {
    type V = (ErrorType, Seq<char>);

    open spec fn view(&self) -> (ErrorType, Seq<char>) {
        (self.kind, self.message@)
    }
}

/// The debug text of an error value: `ErrorInstance { kind: <kind>, message:
/// <message as a debug string literal> }`.
pub open spec fn error_debug_text(e: (ErrorType, Seq<char>)) -> Seq<char> {
    "ErrorInstance { kind: "@ + kind_name(e.0) + ", message: "@ + debug_str(e.1) + " }"@
}

impl ErrorInstance {
    /// A copy of this error.
    pub fn duplicate(&self) -> (res: ErrorInstance)
        ensures
            res@ == self@,
    {
        ErrorInstance { kind: self.kind, message: self.message.clone() }
    }

    /// The debug text of this error.
    pub fn debug_text(&self) -> (res: String)
        ensures
            res@ == error_debug_text(self@),
    {
        let mut s = String::new();
        push_str(&mut s, "ErrorInstance { kind: ");
        push_str(&mut s, self.kind.name());
        push_str(&mut s, ", message: ");
        let m = str_debug(self.message.as_str());
        push_str(&mut s, m.as_str());
        push_str(&mut s, " }");
        s
    }

    /// An error of the given kind with the given message.
    pub fn new(kind: ErrorType, message: String) -> (res: ErrorInstance)
        ensures
            res.kind == kind,
            res.message@ == message@,
    {
        ErrorInstance { kind, message }
    }

    /// An error reported by the chat core: kind `DeltaChatError`, with the
    /// core error's debug text as message.
    pub fn from_anyhow(err: &anyhow::Error) -> (res: ErrorInstance)
        ensures
            res.kind == ErrorType::DeltaChatError,
    {
        ErrorInstance { kind: ErrorType::DeltaChatError, message: anyhow_debug(err) }
    }

    /// An error reported by the chat core's database: kind `DeltaChatError`,
    /// message `SQL error: ` followed by the database error's debug text.
    pub fn from_sql_error(detail: &str) -> (res: ErrorInstance)
        ensures
            res.kind == ErrorType::DeltaChatError,
            res.message@ == "SQL error: "@ + detail@,
    {
        let mut message = String::new();
        push_str(&mut message, "SQL error: ");
        push_str(&mut message, detail);
        ErrorInstance { kind: ErrorType::DeltaChatError, message }
    }

    /// A `Generic` error with the given message.
    pub fn generic(message: &str) -> (res: ErrorInstance)
        ensures
            res.kind == ErrorType::Generic,
            res.message@ == message@,
    {
        ErrorInstance { kind: ErrorType::Generic, message: message.to_owned() }
    }

    /// The error for a command id that no command table holds.
    pub fn command_not_found(command_id: u32) -> (res: ErrorInstance)
        ensures
            res.kind == ErrorType::CommandNotFound,
            res.message@ == not_found_message(command_id),
    {
        let mut message = String::new();
        push_str(&mut message, "command with the id ");
        push_decimal(&mut message, command_id as u64);
        push_str(&mut message, " not found");
        ErrorInstance { kind: ErrorType::CommandNotFound, message }
    }

    /// The error for arguments that did not parse.
    pub fn parse_failure(detail: &str) -> (res: ErrorInstance)
        ensures
            res.kind == ErrorType::CommandParseFailure,
            res.message@ == parse_failure_message(detail@),
    {
        let mut message = String::new();
        push_str(&mut message, "command arguments invalid: ");
        push_str(&mut message, detail);
        ErrorInstance { kind: ErrorType::CommandParseFailure, message }
    }
}

} // verus!
