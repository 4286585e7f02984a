//! Waiting for the answer of the user, which the cancellation of the run cuts short.

use crate::permission::{Permission, PermissionConfirmation, PrincipalType};
use vstd::prelude::*;

verus! {

/// What the wait for an answer has come to.
#[derive(Clone, Copy, Debug, PartialEq, Eq, Structural)]
pub struct ConfirmationOutcome {
    pub confirmation: PermissionConfirmation,
    pub cancelled_by_token: bool,
}

/// What the channel through which the answer comes holds at a moment.
#[derive(Clone, Copy, Debug, PartialEq, Eq, Structural)]
pub enum Reception {
    Pending,
    Delivered(PermissionConfirmation),
    Closed,
}

/// The channel was closed before an answer had come.
pub struct ConfirmationClosed {
    pub request_id: String,
}

impl ConfirmationClosed {
    /// The error as a sentence.
    pub fn message(&self) -> (text: String)
        ensures
            text@ == "Confirmation channel closed for request "@ + self.request_id@,
    {
        "Confirmation channel closed for request ".to_owned().concat(self.request_id.as_str())
    }
}

/// The outcome of a wait that the cancellation of the run cut short.
pub open spec fn cancelled_outcome() -> ConfirmationOutcome {
    ConfirmationOutcome {
        confirmation: PermissionConfirmation {
            principal_type: PrincipalType::Tool,
            permission: Permission::Cancel,
        },
        cancelled_by_token: true,
    }
}

/// What the wait has come to at a moment, if to anything: the outcome, or, where the channel
/// is closed, the id of the request. Cancellation goes before whatever the channel holds.
pub open spec fn wait_result(
    request_id: Seq<char>,
    reception: Reception,
    cancelled: bool,
) -> Option<
    Result<ConfirmationOutcome, Seq<char>>,
> {
    if cancelled {
        Some(Ok(cancelled_outcome()))
    } else {
        match reception {
            Reception::Pending => None,
            Reception::Delivered(confirmation) => Some(
                Ok(ConfirmationOutcome { confirmation, cancelled_by_token: false }),
            ),
            Reception::Closed => Some(Err(request_id)),
        }
    }
}

/// How the wait for an answer ended, as a value.
pub open spec fn confirmation_view(
    confirmation: Result<ConfirmationOutcome, ConfirmationClosed>,
) -> Result<ConfirmationOutcome, Seq<char>> {
    match confirmation {
        Ok(outcome) => Ok(outcome),
        Err(closed) => Err(closed.request_id@),
    }
}

/// What the wait for an answer has come to, as a value.
pub open spec fn wait_view(
    result: Option<Result<ConfirmationOutcome, ConfirmationClosed>>,
) -> Option<Result<ConfirmationOutcome, Seq<char>>> {
    match result {
        Some(confirmation) => Some(confirmation_view(confirmation)),
        None => None,
    }
}

/// One look at the wait for the answer to the request `request_id`: what it has come to, or
/// `None` where it goes on. `cancelled` is whether the run's token has fired; it is false where
/// the run has no token.
pub fn await_confirmation_or_cancel(
    request_id: &str,
    reception: Reception,
    cancelled: bool,
) -> (result: Option<Result<ConfirmationOutcome, ConfirmationClosed>>)
    ensures
        wait_view(result) == wait_result(request_id@, reception, cancelled),
        result is None <==> !cancelled && reception is Pending,
        result matches Some(Err(closed)) ==> !cancelled && reception is Closed
            && closed.request_id@ == request_id@,
        result matches Some(Ok(outcome)) ==> outcome.cancelled_by_token == cancelled,
        result matches Some(Ok(outcome)) ==> cancelled ==> outcome.confirmation.permission
            == Permission::Cancel && outcome.confirmation.principal_type == PrincipalType::Tool,
        result matches Some(Ok(outcome)) ==> !cancelled ==> reception == Reception::Delivered(
            outcome.confirmation,
        ),
{
    if cancelled {
        return Some(
            Ok(
                ConfirmationOutcome {
                    confirmation: PermissionConfirmation {
                        principal_type: PrincipalType::Tool,
                        permission: Permission::Cancel,
                    },
                    cancelled_by_token: true,
                },
            ),
        );
    }
    match reception {
        Reception::Pending => None,
        Reception::Delivered(confirmation) => Some(
            Ok(ConfirmationOutcome { confirmation, cancelled_by_token: false }),
        ),
        Reception::Closed => Some(Err(ConfirmationClosed { request_id: request_id.to_owned() })),
    }
}

/// A cancelled run never gets the answer that lies in the channel: whatever the channel holds,
/// the wait ends, and it ends in a cancellation.
pub proof fn cancellation_goes_before_any_answer(request_id: Seq<char>, reception: Reception)
    ensures
        wait_result(request_id, reception, true) == Some(
            Ok::<ConfirmationOutcome, Seq<char>>(cancelled_outcome()),
        ),
        !cancelled_outcome().confirmation.permission.allows(),
{
}

/// A run that is not cancelled gets the answer as it was given, and only once it was given.
pub proof fn answer_is_passed_on_unchanged(
    request_id: Seq<char>,
    reception: Reception,
    outcome: ConfirmationOutcome,
)
    requires
        wait_result(request_id, reception, false) == Some(
            Ok::<ConfirmationOutcome, Seq<char>>(outcome),
        ),
    ensures
        reception == Reception::Delivered(outcome.confirmation),
        !outcome.cancelled_by_token,
{
}

/// Every answer ends the wait of a run that is not cancelled, whatever the answer says and
/// whatever it is about: the wait ends in that answer, and the token has no part in it.
pub proof fn every_answer_ends_the_wait(
    request_id: Seq<char>,
    confirmation: PermissionConfirmation,
)
    ensures
        wait_result(request_id, Reception::Delivered(confirmation), false) == Some(
            Ok::<ConfirmationOutcome, Seq<char>>(
                ConfirmationOutcome { confirmation, cancelled_by_token: false },
            ),
        ),
{
}

/// The wait ends in an error if and only if the channel is closed in a run that is not cancelled,
/// and the error names the request that was waited for.
pub proof fn wait_fails_only_on_a_closed_channel(
    request_id: Seq<char>,
    reception: Reception,
    cancelled: bool,
)
    ensures
        reception is Closed && !cancelled <==> wait_result(request_id, reception, cancelled)
            is Some && wait_result(request_id, reception, cancelled)->0 is Err,
        reception is Closed && !cancelled ==> wait_result(request_id, reception, cancelled)
            == Some(Err::<ConfirmationOutcome, Seq<char>>(request_id)),
{
}

/// The wait goes on exactly as long as no answer has come, the channel is open and the run is not
/// cancelled.
pub proof fn wait_goes_on_while_nothing_has_come(
    request_id: Seq<char>,
    reception: Reception,
    cancelled: bool,
)
    ensures
        wait_result(request_id, reception, cancelled) is None <==> reception is Pending
            && !cancelled,
{
}

/// A wait that cancellation cut short counts as the answer of a user who cancels the tool, and is
/// told apart from that answer by the token's part in it.
pub proof fn cut_short_wait_counts_as_cancelling(request_id: Seq<char>, reception: Reception)
    ensures
        wait_result(request_id, reception, true) matches Some(Ok(outcome))
            && outcome.confirmation.permission == Permission::Cancel
            && outcome.confirmation.principal_type == PrincipalType::Tool
            && outcome.cancelled_by_token,
{
}

/// The end of a wait is seen as it is: the outcome itself, or the id of the request whose channel
/// was closed.
pub proof fn end_of_the_wait_is_seen_as_it_is(
    outcome: ConfirmationOutcome,
    closed: ConfirmationClosed,
)
    ensures
        confirmation_view(Ok(outcome)) == Ok::<ConfirmationOutcome, Seq<char>>(outcome),
        confirmation_view(Err(closed)) == Err::<ConfirmationOutcome, Seq<char>>(
            closed.request_id@,
        ),
        wait_view(Some(Ok(outcome))) == Some(Ok::<ConfirmationOutcome, Seq<char>>(outcome)),
        wait_view(Some(Err(closed))) == Some(
            Err::<ConfirmationOutcome, Seq<char>>(closed.request_id@),
        ),
        wait_view(None) is None,
{
}

} // verus!
