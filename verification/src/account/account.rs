//! The command table of an open account, and the answers of its commands
//! that need nothing from the chat core.

use vstd::prelude::*;
use crate::commands::{
    Command, result_to_string, response_text, error_text, ends_with, invocation_tail,
    law_answers_carry_invocation_id, lemma_concat_ends_with,
};
use crate::error::{ErrorInstance, ErrorType, kind_name, not_found_message};
use crate::json::json_str;

verus! {

/// The commands that work on an open account.
#[derive(Clone, Copy, Debug, PartialEq, Eq, Structural)]
pub enum AccountCommand {
    Info,
    GetChatListIds,
    GetChatListItemsByIds,
    GetChatMessageIds,
    GetFullChatById,
    TriggerError,
}

/// The command id of each account command.
pub open spec fn account_command_id(c: AccountCommand) -> u32 {
    match c {
        AccountCommand::Info => 21,
        AccountCommand::GetChatListIds => 40,
        AccountCommand::GetChatListItemsByIds => 41,
        AccountCommand::GetChatMessageIds => 45,
        AccountCommand::GetFullChatById => 46,
        AccountCommand::TriggerError => 500,
    }
}

/// The account command that a command id names.
pub open spec fn spec_account_command(command_id: u32) -> Option<AccountCommand> {
    if command_id == 21 {
        Some(AccountCommand::Info)
    } else if command_id == 40 {
        Some(AccountCommand::GetChatListIds)
    } else if command_id == 41 {
        Some(AccountCommand::GetChatListItemsByIds)
    } else if command_id == 45 {
        Some(AccountCommand::GetChatMessageIds)
    } else if command_id == 46 {
        Some(AccountCommand::GetFullChatById)
    } else if command_id == 500 {
        Some(AccountCommand::TriggerError)
    } else {
        None
    }
}

/// The account command that a command id names.
pub fn account_command(command_id: u32) -> (res: Option<AccountCommand>)
    ensures
        res == spec_account_command(command_id),
{
    if command_id == 21 {
        Some(AccountCommand::Info)
    } else if command_id == 40 {
        Some(AccountCommand::GetChatListIds)
    } else if command_id == 41 {
        Some(AccountCommand::GetChatListItemsByIds)
    } else if command_id == 45 {
        Some(AccountCommand::GetChatMessageIds)
    } else if command_id == 46 {
        Some(AccountCommand::GetFullChatById)
    } else if command_id == 500 {
        Some(AccountCommand::TriggerError)
    } else {
        None
    }
}

/// A command id names an account command exactly when it is that command's
/// id: the table gives each command one id, and each id at most one command.
pub proof fn law_account_command_ids(command_id: u32, c: AccountCommand)
    ensures
        spec_account_command(command_id) == Some(c) <==> account_command_id(c) == command_id,
{
}

/// The account commands and their ids: info is 21, the chat list ids 40,
/// the chat list entries 41, the message ids of a chat 45, a full chat 46,
/// and the error test 500; no other id names an account command.
pub proof fn law_account_command_table(command_id: u32)
    ensures
        spec_account_command(21) == Some(AccountCommand::Info),
        spec_account_command(40) == Some(AccountCommand::GetChatListIds),
        spec_account_command(41) == Some(AccountCommand::GetChatListItemsByIds),
        spec_account_command(45) == Some(AccountCommand::GetChatMessageIds),
        spec_account_command(46) == Some(AccountCommand::GetFullChatById),
        spec_account_command(500) == Some(AccountCommand::TriggerError),
        spec_account_command(command_id) is Some <==> (command_id == 21 || command_id == 40
            || command_id == 41 || command_id == 45 || command_id == 46 || command_id == 500),
{
}

/// The message of the error that `trigger_error` always returns.
pub open spec fn trigger_error_message() -> Seq<char> {
    "This function is meant to test the error behaviour"@
}

/// The command that exists to test the error path: it always fails with a
/// `Generic` error.
pub fn trigger_error() -> (res: Result<bool, ErrorInstance>)
    ensures
        res matches Err(e) && e@ == (ErrorType::Generic, trigger_error_message()),
{
    Err(ErrorInstance::generic("This function is meant to test the error behaviour"))
}

/// The answer of an open account to a request. `outcome` is what the named
/// command gave (its result as JSON text, or its error); it is nothing when
/// the command id names no account command.
pub open spec fn account_response_text(cmd: Command, outcome: Option<Result<String, ErrorInstance>>) -> Seq<char> {
    match outcome {
        Some(r) => response_text(r, cmd.invocation_id),
        None => error_text(
            ErrorType::CommandNotFound,
            not_found_message(cmd.command_id),
            cmd.invocation_id,
        ),
    }
}

/// Answers a request to an open account, given the outcome of the command
/// that its command id names (nothing when it names none).
pub fn account_response(cmd: Command, outcome: Option<Result<String, ErrorInstance>>) -> (res:
    Result<String, serde_json::Error>)
    requires
        outcome is Some <==> spec_account_command(cmd.command_id) is Some,
    ensures
        res is Ok,
        res matches Ok(t) ==> t@ == account_response_text(cmd, outcome),
{
    match outcome {
        Some(r) => result_to_string(r, cmd.invocation_id),
        None => result_to_string(
            Err(ErrorInstance::command_not_found(cmd.command_id)),
            cmd.invocation_id,
        ),
    }
}

/// Every answer of an open account ends with the invocation id of its
/// request, whether the command id names an account command or not.
pub proof fn law_account_answers_carry_invocation_id(
    cmd: Command,
    outcome: Option<Result<String, ErrorInstance>>,
)
    ensures
        ends_with(account_response_text(cmd, outcome), invocation_tail(cmd.invocation_id)),
{
    match outcome {
        Some(r) => law_answers_carry_invocation_id(r, cmd, None),
        None => {
            let head = "{\"kind\":\""@ + kind_name(ErrorType::CommandNotFound) + "\",\"message\":"@
                + json_str(not_found_message(cmd.command_id));
            lemma_concat_ends_with(head, invocation_tail(cmd.invocation_id));
        },
    }
}

/// Takes the oldest queued event out of the queue, if there is one.
pub fn get_next_event<T>(queue: &mut Vec<T>) -> (res: Option<T>)
    ensures
        old(queue)@.len() == 0 ==> res is None && final(queue)@ == old(queue)@,
        old(queue)@.len() > 0 ==> res == Some(old(queue)@[0]) && final(queue)@ == old(
            queue,
        )@.drop_first(),
{
    if queue.len() > 0 {
        let e = queue.remove(0);
        assert(old(queue)@.remove(0) == old(queue)@.drop_first());
        Some(e)
    } else {
        None
    }
}

} // verus!
