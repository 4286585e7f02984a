use tokio::sync::oneshot;
use tokio::sync::oneshot::error::TryRecvError;
use tokio_util::sync::CancellationToken;
use tool_execution::confirmation::{
    await_confirmation_or_cancel, ConfirmationClosed, ConfirmationOutcome, Reception,
};
use tool_execution::interop::run_is_cancelled;
use tool_execution::permission::{Permission, PermissionConfirmation, PrincipalType};

fn allow_once() -> PermissionConfirmation {
    PermissionConfirmation {
        principal_type: PrincipalType::Tool,
        permission: Permission::AllowOnce,
    }
}

fn look(
    request_id: &str,
    receiver: &mut oneshot::Receiver<PermissionConfirmation>,
    cancellation: Option<&CancellationToken>,
) -> Option<Result<ConfirmationOutcome, ConfirmationClosed>> {
    let reception = match receiver.try_recv() {
        Ok(confirmation) => Reception::Delivered(confirmation),
        Err(TryRecvError::Empty) => Reception::Pending,
        Err(TryRecvError::Closed) => Reception::Closed,
    };
    await_confirmation_or_cancel(request_id, reception, run_is_cancelled(cancellation))
}

fn outcome(result: Option<Result<ConfirmationOutcome, ConfirmationClosed>>) -> ConfirmationOutcome {
    match result {
        Some(Ok(outcome)) => outcome,
        _ => panic!("the wait should end in an outcome"),
    }
}

#[test]
fn queued_allow_once_loses_to_already_cancelled_run() {
    let (sender, mut receiver) = oneshot::channel();
    sender.send(allow_once()).unwrap();
    let cancellation = CancellationToken::new();
    cancellation.cancel();

    let outcome = outcome(look("request", &mut receiver, Some(&cancellation)));

    assert_eq!(outcome.confirmation.permission, Permission::Cancel);
    assert!(outcome.cancelled_by_token);
    assert_eq!(outcome.confirmation.principal_type, PrincipalType::Tool);
}

#[test]
fn uncancelled_run_receives_queued_allow_once() {
    let (sender, mut receiver) = oneshot::channel();
    sender.send(allow_once()).unwrap();
    let cancellation = CancellationToken::new();

    let outcome = outcome(look("request", &mut receiver, Some(&cancellation)));

    assert_eq!(outcome.confirmation.permission, Permission::AllowOnce);
    assert!(!outcome.cancelled_by_token);
}

#[test]
fn wait_goes_on_without_an_answer() {
    let (sender, mut receiver) = oneshot::channel();
    assert!(look("request", &mut receiver, None).is_none());
    sender.send(allow_once()).unwrap();
    let outcome = outcome(look("request", &mut receiver, None));
    assert_eq!(outcome.confirmation, allow_once());
}

#[test]
fn closed_channel_is_an_error_that_names_the_request() {
    let (sender, mut receiver) = oneshot::channel::<PermissionConfirmation>();
    drop(sender);
    match look("request", &mut receiver, None) {
        Some(Err(closed)) => {
            assert_eq!(closed.request_id, "request");
            assert_eq!(
                closed.message(),
                "Confirmation channel closed for request request"
            );
        }
        _ => panic!("a closed channel should end the wait"),
    }
}

#[test]
fn cancellation_goes_before_a_closed_channel() {
    let result = await_confirmation_or_cancel("request", Reception::Closed, true);
    assert!(outcome(result).cancelled_by_token);
    let result = await_confirmation_or_cancel("request", Reception::Pending, true);
    assert!(outcome(result).cancelled_by_token);
}

#[test]
fn token_decides_whether_a_run_is_cancelled() {
    let cancellation = CancellationToken::new();
    assert!(!run_is_cancelled(None));
    assert!(!run_is_cancelled(Some(&cancellation)));
    cancellation.cancel();
    assert!(run_is_cancelled(Some(&cancellation)));
    assert!(!run_is_cancelled(None));
}
