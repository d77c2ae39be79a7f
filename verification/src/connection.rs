//! How a connection routes a request: requests without a readable head are
//! refused, command ids below 20 need no account, 20 opens the account of the
//! connection, and every id above 20 needs an open account.

use vstd::prelude::*;
use crate::commands::{Command, ErrorResponse};
use crate::error::ErrorType;

verus! {

/// Where a connection sends a request.
#[derive(Debug)]
pub enum Route {
    /// to the commands that need no account (`run_json`)
    Basic,
    /// open the connection's account, then answer with success
    OpenAccount,
    /// to the open account
    Account,
    /// answer at once with this error
    Reject(ErrorResponse),
}

/// `Route` as values; a refusal as kind, message and invocation id.
pub enum RouteView {
    Basic,
    OpenAccount,
    Account,
    Reject(ErrorType, Seq<char>, u32),
}

impl View for Route {
    type V = RouteView;

    open spec fn view(&self) -> RouteView {
        match self {
            Route::Basic => RouteView::Basic,
            Route::OpenAccount => RouteView::OpenAccount,
            Route::Account => RouteView::Account,
            Route::Reject(r) => RouteView::Reject(r.kind, r.message@, r.invocation_id),
        }
    }
}

/// The route of a request, given its head (nothing when the head did not
/// parse) and whether the connection has an open account.
pub open spec fn spec_route(cmd: Option<Command>, has_account: bool) -> RouteView {
    match cmd {
        None => RouteView::Reject(
            ErrorType::CommandIdMissing,
            "You need to specify a commandId and an invocation id"@,
            0,
        ),
        Some(c) => if c.command_id <= 19 {
            RouteView::Basic
        } else if c.command_id == 20 {
            if has_account {
                RouteView::Reject(
                    ErrorType::Generic,
                    "This connection has already a context opened"@,
                    c.invocation_id,
                )
            } else {
                RouteView::OpenAccount
            }
        } else if has_account {
            RouteView::Account
        } else {
            RouteView::Reject(
                ErrorType::NoContext,
                "This connection doesn't have a context set: you need to login first"@,
                c.invocation_id,
            )
        },
    }
}

/// Decides where a connection sends a request.
pub fn route_command(cmd: Option<Command>, has_account: bool) -> (res: Route)
    ensures
        res@ == spec_route(cmd, has_account),
{
    match cmd {
        None => Route::Reject(
            ErrorResponse {
                kind: ErrorType::CommandIdMissing,
                message: "You need to specify a commandId and an invocation id".to_owned(),
                invocation_id: 0,
            },
        ),
        Some(c) => if c.command_id <= 19 {
            Route::Basic
        } else if c.command_id == 20 {
            if has_account {
                Route::Reject(
                    ErrorResponse {
                        kind: ErrorType::Generic,
                        message: "This connection has already a context opened".to_owned(),
                        invocation_id: c.invocation_id,
                    },
                )
            } else {
                Route::OpenAccount
            }
        } else if has_account {
            Route::Account
        } else {
            Route::Reject(
                ErrorResponse {
                    kind: ErrorType::NoContext,
                    message: "This connection doesn't have a context set: you need to login first".to_owned(),
                    invocation_id: c.invocation_id,
                },
            )
        },
    }
}

/// A request with a readable head is answered under its own invocation id,
/// and it reaches an account only when the connection has one open and its
/// command id is above 20; ids below 20 never depend on the account.
pub proof fn law_route_respects_account(cmd: Command, has_account: bool)
    ensures
        spec_route(Some(cmd), has_account) matches RouteView::Reject(_, _, id) ==> id
            == cmd.invocation_id,
        spec_route(Some(cmd), has_account) is Account ==> has_account && cmd.command_id > 20,
        cmd.command_id <= 19 ==> spec_route(Some(cmd), has_account) is Basic,
{
}

/// Routing, case by case: a head that did not parse is refused as
/// `CommandIdMissing` under invocation id 0; every id up to 19 goes to the
/// commands without account; 20 opens the account when none is open and is
/// refused as `Generic` when one is; every id above 20 goes to the open
/// account, and is refused as `NoContext` when there is none.
pub proof fn law_route_cases(cmd: Command, has_account: bool)
    ensures
        spec_route(None, has_account) matches RouteView::Reject(k, _, id) && k
            == ErrorType::CommandIdMissing && id == 0,
        cmd.command_id <= 19 ==> spec_route(Some(cmd), has_account) is Basic,
        cmd.command_id == 20 && !has_account ==> spec_route(Some(cmd), has_account) is OpenAccount,
        cmd.command_id == 20 && has_account ==> (spec_route(Some(cmd), has_account) matches
            RouteView::Reject(k, _, id) && k == ErrorType::Generic && id == cmd.invocation_id),
        cmd.command_id > 20 && has_account ==> spec_route(Some(cmd), has_account) is Account,
        cmd.command_id > 20 && !has_account ==> (spec_route(Some(cmd), has_account) matches
            RouteView::Reject(k, _, id) && k == ErrorType::NoContext && id == cmd.invocation_id),
{
}

} // verus!
