//! The wire protocol: requests name a command and an invocation id, and every
//! answer is a JSON object that carries the invocation id back, either with
//! the command's result or with an error kind and message.

use vstd::prelude::*;
use crate::error::{ErrorInstance, ErrorType, kind_name, not_found_message, parse_failure_message};
use crate::json::{json_string, json_str};
use crate::text::{push_decimal, push_str, dec_digits, lemma_dec_digits_injective};

verus! {

/// The head of a request: which command, and the id under which the answer
/// is to be sent back.
#[derive(Clone, Copy, Debug, PartialEq, Eq, Structural)]
pub struct Command {
    pub command_id: u32,
    pub invocation_id: u32,
}

/// The answer to a request that failed.
#[derive(Debug)]
pub struct ErrorResponse {
    pub kind: ErrorType,
    pub message: String,
    pub invocation_id: u32,
}

/// The answer to a request that needs no result beyond its success.
#[derive(Clone, Copy, Debug, PartialEq, Eq, Structural)]
pub struct SuccessResponse {
    /// this is always true
    pub success: bool,
    pub invocation_id: u32,
}

/// `,"invocation_id":<id>}`, the end of every answer.
pub open spec fn invocation_tail(invocation_id: u32) -> Seq<char> {
    ",\"invocation_id\":"@ + dec_digits(invocation_id as nat) + "}"@
}

/// The answer that carries a result, given the JSON text of that result.
pub open spec fn success_text(result_json: Seq<char>, invocation_id: u32) -> Seq<char> {
    "{\"result\":"@ + result_json + invocation_tail(invocation_id)
}

/// The answer that carries an error.
pub open spec fn error_text(kind: ErrorType, message: Seq<char>, invocation_id: u32) -> Seq<char> {
    "{\"kind\":\""@ + kind_name(kind) + "\",\"message\":"@ + json_str(message) + invocation_tail(
        invocation_id,
    )
}

/// The answer for a command outcome: its result, given as JSON text, or its
/// error.
pub open spec fn response_text(result: Result<String, ErrorInstance>, invocation_id: u32) -> Seq<
    char,
> {
    match result {
        Ok(r) => success_text(r@, invocation_id),
        Err(e) => error_text(e.kind, e.message@, invocation_id),
    }
}

/// The JSON text of a boolean.
pub open spec fn bool_text(b: bool) -> Seq<char> {
    if b { "true"@ } else { "false"@ }
}

fn push_invocation_tail(s: &mut String, invocation_id: u32)
    ensures
        final(s)@ == old(s)@ + invocation_tail(invocation_id),
{
    push_str(s, ",\"invocation_id\":");
    push_decimal(s, invocation_id as u64);
    push_str(s, "}");
}

/// The answer that carries a result, given the JSON text of that result.
pub fn success_response(result_json: &str, invocation_id: u32) -> (res: String)
    ensures
        res@ == success_text(result_json@, invocation_id),
{
    let mut s = String::new();
    push_str(&mut s, "{\"result\":");
    push_str(&mut s, result_json);
    push_invocation_tail(&mut s, invocation_id);
    s
}

/// The answer that carries an error.
pub fn error_response(kind: ErrorType, message: &str, invocation_id: u32) -> (res: Result<
    String,
    serde_json::Error,
>)
    ensures
        res is Ok,
        res matches Ok(t) ==> t@ == error_text(kind, message@, invocation_id),
{
    let message_json = match json_string(message) {
        Ok(m) => m,
        Err(e) => return Err(e),
    };
    let mut s = String::new();
    push_str(&mut s, "{\"kind\":\"");
    push_str(&mut s, kind.name());
    push_str(&mut s, "\",\"message\":");
    push_str(&mut s, message_json.as_str());
    push_invocation_tail(&mut s, invocation_id);
    Ok(s)
}

impl ErrorResponse {
    /// The JSON text of this answer.
    pub fn to_json(&self) -> (res: Result<String, serde_json::Error>)
        ensures
            res is Ok,
            res matches Ok(t) ==> t@ == error_text(self.kind, self.message@, self.invocation_id),
    {
        error_response(self.kind, self.message.as_str(), self.invocation_id)
    }
}

impl SuccessResponse {
    /// A successful answer to the request with the given invocation id.
    pub fn new(invocation_id: u32) -> (res: SuccessResponse)
        ensures
            res.success,
            res.invocation_id == invocation_id,
    {
        SuccessResponse { success: true, invocation_id }
    }

    /// The JSON text of this answer.
    pub fn to_json(&self) -> (res: String)
        ensures
            res@ == "{\"success\":"@ + bool_text(self.success) + invocation_tail(
                self.invocation_id,
            ),
    {
        let mut s = String::new();
        push_str(&mut s, "{\"success\":");
        if self.success {
            push_str(&mut s, "true");
        } else {
            push_str(&mut s, "false");
        }
        push_invocation_tail(&mut s, self.invocation_id);
        s
    }
}

/// The answer to a command outcome: the result (given as its JSON text) or
/// the error, with the invocation id of the request.
pub fn result_to_string(result: Result<String, ErrorInstance>, invocation_id: u32) -> (res: Result<
    String,
    serde_json::Error,
>)
    ensures
        res is Ok,
        res matches Ok(t) ==> t@ == response_text(result, invocation_id),
{
    match result {
        Ok(r) => Ok(success_response(r.as_str(), invocation_id)),
        Err(e) => error_response(e.kind, e.message.as_str(), invocation_id),
    }
}

/// The commands that need no chat account.
#[derive(Clone, Copy, Debug, PartialEq, Eq, Structural)]
pub enum BasicCommand {
    Echo,
    Add,
    Subtract,
}

/// The arguments of a command that needs no chat account, as parsed from the
/// request.
#[derive(Debug)]
pub enum CommandArgs {
    Echo { message: String },
    Add { a: u32, b: u32 },
    Subtract { a: u32, b: u32 },
}

/// The command that a command id names, among those that need no account.
pub open spec fn spec_basic_command(command_id: u32) -> Option<BasicCommand> {
    if command_id == 1 {
        Some(BasicCommand::Echo)
    } else if command_id == 2 {
        Some(BasicCommand::Add)
    } else if command_id == 3 {
        Some(BasicCommand::Subtract)
    } else {
        None
    }
}

/// The command that a command id names, among those that need no account.
pub fn basic_command(command_id: u32) -> (res: Option<BasicCommand>)
    ensures
        res == spec_basic_command(command_id),
{
    if command_id == 1 {
        Some(BasicCommand::Echo)
    } else if command_id == 2 {
        Some(BasicCommand::Add)
    } else if command_id == 3 {
        Some(BasicCommand::Subtract)
    } else {
        None
    }
}

/// Whether parsed arguments belong to the given command.
pub open spec fn args_of(command: BasicCommand, args: CommandArgs) -> bool {
    match (command, args) {
        (BasicCommand::Echo, CommandArgs::Echo { .. }) => true,
        (BasicCommand::Add, CommandArgs::Add { .. }) => true,
        (BasicCommand::Subtract, CommandArgs::Subtract { .. }) => true,
        _ => false,
    }
}

/// Arguments on which the command does not panic: a sum that fits in `u32`,
/// a difference that is not negative.
pub open spec fn args_in_range(args: CommandArgs) -> bool {
    match args {
        CommandArgs::Echo { .. } => true,
        CommandArgs::Add { a, b } => a + b <= u32::MAX,
        CommandArgs::Subtract { a, b } => a >= b,
    }
}

/// What the parse of a request gives `run_json`: nothing for a command id
/// that names no command; for one that names a command, the outcome of
/// parsing that command's arguments (the arguments, or the parser's account
/// of the failure). Parsed arguments belong to that command and are in range.
pub open spec fn args_fit(command_id: u32, args: Option<Result<CommandArgs, String>>) -> bool {
    match spec_basic_command(command_id) {
        None => true,
        Some(c) => match args {
            None => false,
            Some(Ok(a)) => args_of(c, a) && args_in_range(a),
            Some(Err(_)) => true,
        },
    }
}

/// The JSON text of a command's result.
pub open spec fn command_result_json(args: CommandArgs) -> Seq<char> {
    match args {
        CommandArgs::Echo { message } => json_str(message@),
        CommandArgs::Add { a, b } => dec_digits((a + b) as nat),
        CommandArgs::Subtract { a, b } => dec_digits((a - b) as nat),
    }
}

/// The answer of `run_json`.
pub open spec fn run_json_text(
    command_id: u32,
    invocation_id: u32,
    args: Option<Result<CommandArgs, String>>,
) -> Seq<char> {
    match spec_basic_command(command_id) {
        None => error_text(ErrorType::CommandNotFound, not_found_message(command_id), invocation_id),
        Some(_) => match args {
            Some(Ok(a)) => success_text(command_result_json(a), invocation_id),
            Some(Err(detail)) => error_text(
                ErrorType::CommandParseFailure,
                parse_failure_message(detail@),
                invocation_id,
            ),
            None => Seq::empty(),
        },
    }
}

/// The echo command: gives back its message.
pub fn echo(message: &str) -> (res: &str)
    ensures
        res@ == message@,
{
    message
}

/// The add command.
pub fn add(a: u32, b: u32) -> (res: u32)
    requires
        a + b <= u32::MAX,
    ensures
        res == a + b,
{
    a + b
}

/// The subtract command.
pub fn subtract(a: u32, b: u32) -> (res: u32)
    requires
        a >= b,
    ensures
        res == a - b,
{
    a - b
}

/// Answers a request for one of the commands that need no account. `args`
/// is what parsing the request as that command's arguments gave (nothing
/// when the command id names no such command).
pub fn run_json(args: Option<Result<CommandArgs, String>>, cmd: Command) -> (res: Result<
    String,
    serde_json::Error,
>)
    requires
        args_fit(cmd.command_id, args),
    ensures
        res is Ok,
        res matches Ok(t) ==> t@ == run_json_text(cmd.command_id, cmd.invocation_id, args),
{
    match basic_command(cmd.command_id) {
        None => {
            let e = ErrorInstance::command_not_found(cmd.command_id);
            error_response(e.kind, e.message.as_str(), cmd.invocation_id)
        },
        Some(_) => match args {
            Some(Ok(CommandArgs::Echo { message })) => {
                let json = match json_string(echo(message.as_str())) {
                    Ok(j) => j,
                    Err(e) => return Err(e),
                };
                Ok(success_response(json.as_str(), cmd.invocation_id))
            },
            Some(Ok(CommandArgs::Add { a, b })) => {
                let mut json = String::new();
                push_decimal(&mut json, self::add(a, b) as u64);
                Ok(success_response(json.as_str(), cmd.invocation_id))
            },
            Some(Ok(CommandArgs::Subtract { a, b })) => {
                let mut json = String::new();
                push_decimal(&mut json, subtract(a, b) as u64);
                Ok(success_response(json.as_str(), cmd.invocation_id))
            },
            Some(Err(detail)) => {
                let e = ErrorInstance::parse_failure(detail.as_str());
                error_response(e.kind, e.message.as_str(), cmd.invocation_id)
            },
            None => Ok(String::new()),
        },
    }
}

/// Whether `t` ends with `suffix`.
pub open spec fn ends_with(t: Seq<char>, suffix: Seq<char>) -> bool {
    t.len() >= suffix.len() && t.subrange(t.len() - suffix.len(), t.len() as int) == suffix
}

pub(crate) proof fn lemma_concat_ends_with(a: Seq<char>, b: Seq<char>)
    ensures
        ends_with(a + b, b),
{
    assert((a + b).subrange(a.len() as int, (a + b).len() as int) == b);
}

/// Every answer, to a command with or without an account and whether the
/// command succeeded or failed, ends with the invocation id of its request.
pub proof fn law_answers_carry_invocation_id(
    result: Result<String, ErrorInstance>,
    cmd: Command,
    args: Option<Result<CommandArgs, String>>,
)
    ensures
        ends_with(response_text(result, cmd.invocation_id), invocation_tail(cmd.invocation_id)),
        args_fit(cmd.command_id, args) ==> ends_with(
            run_json_text(cmd.command_id, cmd.invocation_id, args),
            invocation_tail(cmd.invocation_id),
        ),
        ends_with(
            "{\"success\":true"@ + invocation_tail(cmd.invocation_id),
            invocation_tail(cmd.invocation_id),
        ),
{
    let tail = invocation_tail(cmd.invocation_id);
    match result {
        Ok(r) => {
            assert(success_text(r@, cmd.invocation_id) == ("{\"result\":"@ + r@) + tail);
            lemma_concat_ends_with("{\"result\":"@ + r@, tail);
        },
        Err(e) => {
            let head = "{\"kind\":\""@ + kind_name(e.kind) + "\",\"message\":"@ + json_str(e.message@);
            assert(error_text(e.kind, e.message@, cmd.invocation_id) == head + tail);
            lemma_concat_ends_with(head, tail);
        },
    }
    lemma_concat_ends_with("{\"success\":true"@, tail);
    if args_fit(cmd.command_id, args) {
        match spec_basic_command(cmd.command_id) {
            None => {
                let head = "{\"kind\":\""@ + kind_name(ErrorType::CommandNotFound) + "\",\"message\":"@
                    + json_str(not_found_message(cmd.command_id));
                lemma_concat_ends_with(head, tail);
            },
            Some(_) => match args {
                Some(Ok(a)) => {
                    lemma_concat_ends_with("{\"result\":"@ + command_result_json(a), tail);
                },
                Some(Err(detail)) => {
                    let head = "{\"kind\":\""@ + kind_name(ErrorType::CommandParseFailure)
                        + "\",\"message\":"@ + json_str(parse_failure_message(detail@));
                    lemma_concat_ends_with(head, tail);
                },
                None => {},
            },
        }
    }
}

/// The end of an answer tells its invocation id: different invocation ids
/// give different ends, so a client can match every answer to its request.
pub proof fn law_invocation_tail_identifies_request(a: u32, b: u32)
    ensures
        invocation_tail(a) == invocation_tail(b) ==> a == b,
{
    if invocation_tail(a) == invocation_tail(b) {
        let p = ",\"invocation_id\":"@;
        let q = "}"@;
        let da = dec_digits(a as nat);
        let db = dec_digits(b as nat);
        assert(invocation_tail(a).len() == p.len() + da.len() + q.len());
        assert(da.len() == db.len());
        assert(da == invocation_tail(a).subrange(p.len() as int, (p.len() + da.len()) as int));
        assert(db == invocation_tail(b).subrange(p.len() as int, (p.len() + db.len()) as int));
        lemma_dec_digits_injective(a as nat, b as nat);
    }
}

/// What a request for a command without account is answered, written out:
/// echo answers its message as a JSON string, add the sum and subtract the
/// difference of its arguments as a decimal number, each under `result`;
/// arguments that did not parse give a `CommandParseFailure` whose message
/// holds the parser's account; an id of no such command gives a
/// `CommandNotFound` naming the id. Every answer ends with the invocation id.
pub proof fn law_basic_command_answers(cmd: Command, args: Option<Result<CommandArgs, String>>)
    requires
        args_fit(cmd.command_id, args),
    ensures
        cmd.command_id == 1 ==> (args matches Some(Ok(CommandArgs::Echo { message }))
            ==> run_json_text(cmd.command_id, cmd.invocation_id, args) == "{\"result\":"@
            + json_str(message@) + ",\"invocation_id\":"@ + dec_digits(cmd.invocation_id as nat)
            + "}"@),
        cmd.command_id == 2 ==> (args matches Some(Ok(CommandArgs::Add { a, b }))
            ==> run_json_text(cmd.command_id, cmd.invocation_id, args) == "{\"result\":"@
            + dec_digits((a + b) as nat) + ",\"invocation_id\":"@ + dec_digits(
            cmd.invocation_id as nat,
        ) + "}"@),
        cmd.command_id == 3 ==> (args matches Some(Ok(CommandArgs::Subtract { a, b }))
            ==> run_json_text(cmd.command_id, cmd.invocation_id, args) == "{\"result\":"@
            + dec_digits((a - b) as nat) + ",\"invocation_id\":"@ + dec_digits(
            cmd.invocation_id as nat,
        ) + "}"@),
        1 <= cmd.command_id <= 3 ==> (args matches Some(Err(detail)) ==> run_json_text(
            cmd.command_id,
            cmd.invocation_id,
            args,
        ) == "{\"kind\":\""@ + "CommandParseFailure"@ + "\",\"message\":"@ + json_str(
            "command arguments invalid: "@ + detail@,
        ) + ",\"invocation_id\":"@ + dec_digits(cmd.invocation_id as nat) + "}"@),
        !(1 <= cmd.command_id <= 3) ==> run_json_text(cmd.command_id, cmd.invocation_id, args)
            == "{\"kind\":\""@ + "CommandNotFound"@ + "\",\"message\":"@ + json_str(
            "command with the id "@ + dec_digits(cmd.command_id as nat) + " not found"@,
        ) + ",\"invocation_id\":"@ + dec_digits(cmd.invocation_id as nat) + "}"@,
{
}

/// What a command outcome is answered, written out: a result under
/// `result`, an error as its kind's name and its message.
pub proof fn law_result_answers(result: Result<String, ErrorInstance>, invocation_id: u32)
    ensures
        (result matches Ok(r) ==> response_text(result, invocation_id) == "{\"result\":"@ + r@
            + ",\"invocation_id\":"@ + dec_digits(invocation_id as nat) + "}"@),
        (result matches Err(e) ==> response_text(result, invocation_id) == "{\"kind\":\""@
            + kind_name(e.kind) + "\",\"message\":"@ + json_str(e.message@)
            + ",\"invocation_id\":"@ + dec_digits(invocation_id as nat) + "}"@),
{
}

} // verus!
