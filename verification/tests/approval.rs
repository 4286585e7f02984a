use rmcp::model::{CallToolRequestParams, ErrorCode, ErrorData, JsonObject};
use serde_json::Value;
use tokio_util::sync::CancellationToken;
use tool_execution::approval::{
    judge, level_to_remember, ApprovalAction, ApprovalRun, Settlement, Verdict,
};
use tool_execution::confirmation::{
    await_confirmation_or_cancel, ConfirmationClosed, ConfirmationOutcome, Reception,
};
use tool_execution::message::{
    ControlNotice, Message, MessageContent, Role, ToolResponse, ToolResponseBody,
    ToolResponseProvenance,
};
use tool_execution::permission::{
    Permission, PermissionConfirmation, PermissionLevel, PrincipalType,
};
use tool_execution::request::{
    security_message, InspectionAction, InspectionResult, ToolCall, ToolRequest,
};
use tool_execution::responses::ResponseMap;

const ALL: [Permission; 5] = [
    Permission::AlwaysAllow,
    Permission::AllowOnce,
    Permission::Cancel,
    Permission::DenyOnce,
    Permission::AlwaysDeny,
];

fn answer(permission: Permission) -> PermissionConfirmation {
    PermissionConfirmation {
        principal_type: PrincipalType::Tool,
        permission,
    }
}

fn allow_once() -> PermissionConfirmation {
    answer(Permission::AllowOnce)
}

fn deny_once() -> PermissionConfirmation {
    answer(Permission::DenyOnce)
}

fn cancel_once() -> PermissionConfirmation {
    answer(Permission::Cancel)
}

fn answered(permission: Permission) -> Result<ConfirmationOutcome, ConfirmationClosed> {
    Ok(ConfirmationOutcome {
        confirmation: answer(permission),
        cancelled_by_token: false,
    })
}

fn request(id: &str, tool: &str) -> ToolRequest {
    ToolRequest {
        id: id.to_string(),
        tool_call: Ok(ToolCall::new(CallToolRequestParams::new(tool.to_string()))),
        metadata: None,
    }
}

fn unreadable(id: &str) -> ToolRequest {
    ToolRequest {
        id: id.to_string(),
        tool_call: Err(ErrorData::new(ErrorCode::INVALID_PARAMS, "unreadable", None)),
        metadata: None,
    }
}

fn slots(ids: &[&str]) -> ResponseMap {
    let mut responses = ResponseMap::new();
    for id in ids {
        responses.insert(id.to_string(), Message::user());
    }
    responses
}

fn object(key: &str, value: &str) -> JsonObject {
    let mut object = JsonObject::new();
    object.insert(key.to_string(), Value::String(value.to_string()));
    object
}

fn ask(
    run: &mut ApprovalRun,
    responses: &mut ResponseMap,
    token: Option<&CancellationToken>,
) -> (usize, String, Message) {
    match run.next_action(responses, token) {
        ApprovalAction::Ask {
            index,
            request_id,
            message,
        } => (index, request_id, message),
        _ => panic!("approval stream should request confirmation"),
    }
}

fn is_finished(
    run: &mut ApprovalRun,
    responses: &mut ResponseMap,
    token: Option<&CancellationToken>,
) -> bool {
    matches!(
        run.next_action(responses, token),
        ApprovalAction::Finished
    )
}

/// Ends the wait of a run as its caller does, with what lies in the channel.
fn conclude(
    run: &mut ApprovalRun,
    responses: &mut ResponseMap,
    id: &str,
    reception: Reception,
    token: &CancellationToken,
) -> Settlement {
    let confirmation = await_confirmation_or_cancel(id, reception, token.is_cancelled())
        .expect("the wait should be over");
    match run.settle(responses, confirmation, None, Some(token)) {
        Some(Ok(settlement)) => settlement,
        _ => panic!("approval request should be valid"),
    }
}

fn tool_responses<'a>(responses: &'a ResponseMap, id: &str) -> Vec<&'a ToolResponse> {
    let message = responses.get(&id.to_string()).expect("a message under the id");
    let mut found = Vec::new();
    for content in message.content.iter() {
        if let MessageContent::ToolResponse(response) = content {
            found.push(response);
        }
    }
    found
}

fn has_notice(responses: &ResponseMap, id: &str, notice: ControlNotice) -> bool {
    tool_responses(responses, id)
        .iter()
        .any(|response| matches!(response.body, ToolResponseBody::Notice(n) if n == notice))
}

fn names_provenance(responses: &ResponseMap, id: &str, name: &str) -> bool {
    tool_responses(responses, id)
        .iter()
        .any(|response| response.provenance.map(|provenance| provenance.as_str()) == Some(name))
}

#[test]
fn denied_approval_records_a_canonical_goose_control_response() {
    let id = "request".to_string();
    let token = CancellationToken::new();
    let mut responses = slots(&["request"]);
    let mut run = ApprovalRun::new(vec![request("request", "missing_extension__tool")], Vec::new());

    ask(&mut run, &mut responses, Some(&token));
    assert!(run.awaits(&id));
    let settlement = conclude(
        &mut run,
        &mut responses,
        "request",
        Reception::Delivered(deny_once()),
        &token,
    );
    assert!(is_finished(&mut run, &mut responses, Some(&token)));

    assert!(settlement.dispatch.is_none());
    let found = tool_responses(&responses, "request");
    let control = found.first().expect("denial should create a tool response");
    assert_eq!(
        control.provenance,
        Some(ToolResponseProvenance::GooseDeniedBeforeExecution)
    );
    assert!(control.is_canonical_goose_control_response());
}

#[test]
fn explicit_cancel_records_a_canonical_goose_cancellation_response() {
    let id = "request".to_string();
    let token = CancellationToken::new();
    let mut responses = slots(&["request"]);
    let mut run = ApprovalRun::new(vec![request("request", "missing_extension__tool")], Vec::new());

    ask(&mut run, &mut responses, Some(&token));
    assert!(run.awaits(&id));
    let settlement = conclude(
        &mut run,
        &mut responses,
        "request",
        Reception::Delivered(cancel_once()),
        &token,
    );
    assert!(is_finished(&mut run, &mut responses, Some(&token)));

    assert!(settlement.dispatch.is_none());
    let found = tool_responses(&responses, "request");
    let control = found
        .first()
        .expect("cancellation should create a tool response");
    assert_eq!(
        control.provenance,
        Some(ToolResponseProvenance::GooseCancelledBeforeExecution)
    );
    assert!(control.is_canonical_goose_control_response());
}

#[test]
fn cancelled_queued_approval_never_creates_a_tool_future() {
    let second = "second-request".to_string();
    let token = CancellationToken::new();
    let mut responses = slots(&["request", "second-request"]);
    let mut run = ApprovalRun::new(
        vec![
            request("request", "missing_extension__tool"),
            request("second-request", "missing_extension__second_tool"),
        ],
        Vec::new(),
    );

    let (_, _, action_required) = ask(&mut run, &mut responses, Some(&token));
    assert!(action_required
        .content
        .iter()
        .any(|content| matches!(content, MessageContent::ActionRequired(_))));
    assert!(run.awaits(&"request".to_string()));
    token.cancel();
    let settlement = conclude(
        &mut run,
        &mut responses,
        "request",
        Reception::Delivered(allow_once()),
        &token,
    );
    assert!(is_finished(&mut run, &mut responses, Some(&token)));

    assert!(
        settlement.dispatch.is_none(),
        "a cancelled queued approval must not reach tool dispatch"
    );
    assert!(has_notice(&responses, "request", ControlNotice::Cancelled));
    assert!(!has_notice(&responses, "request", ControlNotice::Declined));
    assert!(names_provenance(
        &responses,
        "request",
        "goose_cancelled_before_execution"
    ));
    assert!(has_notice(&responses, "second-request", ControlNotice::Cancelled));
    assert!(!has_notice(&responses, "second-request", ControlNotice::Declined));
    assert!(names_provenance(
        &responses,
        "second-request",
        "goose_cancelled_before_execution"
    ));
    assert!(
        !run.awaits(&second),
        "cancellation must not register a second confirmation"
    );
}

#[test]
fn cancellation_rejects_a_late_allow_once() {
    let id = "request".to_string();
    let token = CancellationToken::new();
    let mut responses = slots(&["request"]);
    let mut run = ApprovalRun::new(vec![request("request", "missing_extension__tool")], Vec::new());

    ask(&mut run, &mut responses, Some(&token));
    token.cancel();
    let settlement = conclude(&mut run, &mut responses, "request", Reception::Pending, &token);
    assert!(is_finished(&mut run, &mut responses, Some(&token)));

    assert!(settlement.dispatch.is_none());
    assert!(
        !run.awaits(&id),
        "a late approval must not revive a cancelled request"
    );
    assert!(run
        .settle(&mut responses, answered(Permission::AllowOnce), None, None)
        .is_none());
    assert!(has_notice(&responses, "request", ControlNotice::Cancelled));
    assert!(!has_notice(&responses, "request", ControlNotice::Declined));
    assert!(names_provenance(
        &responses,
        "request",
        "goose_cancelled_before_execution"
    ));
}

#[test]
fn question_names_the_tool_its_arguments_and_the_reason() {
    let mut asked = request("a", "files__write");
    asked.tool_call = Ok(ToolCall::new(
        CallToolRequestParams::new("files__write").with_arguments(object("path", "/tmp/x")),
    ));
    let inspections = vec![
        InspectionResult {
            tool_request_id: "b".to_string(),
            action: InspectionAction::RequireApproval(Some("other".to_string())),
        },
        InspectionResult {
            tool_request_id: "a".to_string(),
            action: InspectionAction::RequireApproval(Some("writes a file".to_string())),
        },
    ];
    let mut responses = slots(&["a"]);
    let mut run = ApprovalRun::new(vec![asked], inspections);
    let (index, request_id, message) = ask(&mut run, &mut responses, None);

    assert_eq!(index, 0);
    assert_eq!(request_id, "a");
    assert_eq!(message.role, Role::Assistant);
    assert!(message.user_visible);
    assert!(!message.agent_visible);
    assert_eq!(message.content.len(), 1);
    match &message.content[0] {
        MessageContent::ActionRequired(action) => {
            assert_eq!(action.id, "a");
            assert_eq!(action.tool_name, "files__write");
            assert_eq!(action.arguments, object("path", "/tmp/x"));
            assert_eq!(action.prompt, Some("writes a file".to_string()));
        }
        _ => panic!("the message should ask for approval"),
    }
}

#[test]
fn question_without_arguments_carries_an_empty_object() {
    let mut responses = slots(&["a"]);
    let mut run = ApprovalRun::new(vec![request("a", "tool")], Vec::new());
    let (_, _, message) = ask(&mut run, &mut responses, None);
    match &message.content[0] {
        MessageContent::ActionRequired(action) => {
            assert!(action.arguments.is_empty());
            assert_eq!(action.prompt, None);
        }
        _ => panic!("the message should ask for approval"),
    }
}

#[test]
fn only_the_first_inspection_of_a_request_counts() {
    let results = vec![
        InspectionResult {
            tool_request_id: "a".to_string(),
            action: InspectionAction::Allow,
        },
        InspectionResult {
            tool_request_id: "a".to_string(),
            action: InspectionAction::RequireApproval(Some("late".to_string())),
        },
        InspectionResult {
            tool_request_id: "b".to_string(),
            action: InspectionAction::RequireApproval(None),
        },
        InspectionResult {
            tool_request_id: "c".to_string(),
            action: InspectionAction::Deny,
        },
        InspectionResult {
            tool_request_id: "d".to_string(),
            action: InspectionAction::RequireApproval(Some("look".to_string())),
        },
    ];
    assert_eq!(security_message(&results, &"a".to_string()), None);
    assert_eq!(security_message(&results, &"b".to_string()), None);
    assert_eq!(security_message(&results, &"c".to_string()), None);
    assert_eq!(
        security_message(&results, &"d".to_string()),
        Some("look".to_string())
    );
    assert_eq!(security_message(&results, &"e".to_string()), None);
}

#[test]
fn allowed_requests_are_dispatched_in_order() {
    let mut responses = slots(&["a", "b"]);
    let mut run = ApprovalRun::new(
        vec![request("a", "one"), unreadable("x"), request("b", "two")],
        Vec::new(),
    );
    let (first, _, _) = ask(&mut run, &mut responses, None);
    assert_eq!(first, 0);
    assert!(matches!(
        run.next_action(&mut responses, None),
        ApprovalAction::Waiting
    ));
    match run.settle(&mut responses, answered(Permission::AllowOnce), None, None) {
        Some(Ok(settlement)) => {
            assert!(settlement.permission_update.is_none());
            assert!(settlement.decision.is_none());
            let dispatch = settlement.dispatch.expect("the tool should be run");
            assert_eq!(dispatch.request_id, "a");
            assert_eq!(dispatch.tool_call.params(), &CallToolRequestParams::new("one"));
        }
        _ => panic!("the answer should be taken"),
    }
    let (second, id, _) = ask(&mut run, &mut responses, None);
    assert_eq!(second, 2);
    assert_eq!(id, "b");
    match run.settle(&mut responses, answered(Permission::AlwaysAllow), None, None) {
        Some(Ok(settlement)) => {
            let dispatch = settlement.dispatch.expect("the tool should be run");
            assert_eq!(dispatch.request_id, "b");
            assert_eq!(dispatch.tool_call.name(), "two");
            let update = settlement.permission_update.expect("a standing approval");
            assert_eq!(update.tool_name, "two");
            assert_eq!(update.level, PermissionLevel::AlwaysAllow);
        }
        _ => panic!("the answer should be taken"),
    }
    assert!(is_finished(&mut run, &mut responses, None));
    assert!(tool_responses(&responses, "a").is_empty());
    assert!(tool_responses(&responses, "b").is_empty());
}

#[test]
fn standing_denial_is_remembered_and_answered() {
    let mut asked = request("a", "one");
    asked.metadata = Some(object("provider", "p"));
    let mut responses = slots(&["a"]);
    let mut run = ApprovalRun::new(vec![asked], Vec::new());
    ask(&mut run, &mut responses, None);
    match run.settle(&mut responses, answered(Permission::AlwaysDeny), None, None) {
        Some(Ok(settlement)) => {
            assert!(settlement.dispatch.is_none());
            let update = settlement.permission_update.expect("a standing denial");
            assert_eq!(update.tool_name, "one");
            assert_eq!(update.level, PermissionLevel::NeverAllow);
        }
        _ => panic!("the answer should be taken"),
    }
    let found = tool_responses(&responses, "a");
    assert_eq!(found.len(), 1);
    assert_eq!(found[0].id, "a");
    assert_eq!(found[0].metadata, Some(object("provider", "p")));
    assert_eq!(
        found[0].provenance,
        Some(ToolResponseProvenance::GooseDeniedBeforeExecution)
    );
}

#[test]
fn verdicts_for_every_answer() {
    let denied = Verdict::Refuse(ToolResponseProvenance::GooseDeniedBeforeExecution);
    let cancelled = Verdict::Refuse(ToolResponseProvenance::GooseCancelledBeforeExecution);
    assert_eq!(judge(Permission::AlwaysAllow, false), Verdict::Dispatch);
    assert_eq!(judge(Permission::AllowOnce, false), Verdict::Dispatch);
    assert_eq!(judge(Permission::Cancel, false), cancelled);
    assert_eq!(judge(Permission::DenyOnce, false), denied);
    assert_eq!(judge(Permission::AlwaysDeny, false), denied);
    for permission in ALL {
        assert_eq!(judge(permission, true), cancelled);
    }
}

#[test]
fn levels_remembered_for_every_answer() {
    for permission in ALL {
        for cancelled in [false, true] {
            let expected = match (permission, cancelled) {
                (Permission::AlwaysAllow, false) => Some(PermissionLevel::AlwaysAllow),
                (Permission::AlwaysDeny, _) => Some(PermissionLevel::NeverAllow),
                _ => None,
            };
            assert_eq!(level_to_remember(permission, cancelled), expected);
        }
    }
}

#[test]
fn user_decision_on_a_finding_is_reported() {
    for permission in ALL {
        let mut responses = slots(&["a"]);
        let mut run = ApprovalRun::new(vec![request("a", "one")], Vec::new());
        ask(&mut run, &mut responses, None);
        let finding = Some("finding-1".to_string());
        match run.settle(&mut responses, answered(permission), finding, None) {
            Some(Ok(settlement)) => {
                let decision = settlement.decision.expect("the decision should be reported");
                let allowed = permission == Permission::AllowOnce
                    || permission == Permission::AlwaysAllow;
                assert_eq!(decision.finding_id, "finding-1");
                assert_eq!(decision.request_id, "a");
                assert_eq!(decision.action, if allowed { "ALLOW" } else { "BLOCK" });
                assert_eq!(decision.permission, permission);
            }
            _ => panic!("the answer should be taken"),
        }
    }
}

#[test]
fn cancellation_is_not_reported_as_a_user_decision() {
    let mut responses = slots(&["a"]);
    let mut run = ApprovalRun::new(vec![request("a", "one")], Vec::new());
    ask(&mut run, &mut responses, None);
    let outcome = ConfirmationOutcome {
        confirmation: cancel_once(),
        cancelled_by_token: true,
    };
    match run.settle_with(&mut responses, Ok(outcome), Some("finding-1".to_string()), true) {
        Some(Ok(settlement)) => assert!(settlement.decision.is_none()),
        _ => panic!("the answer should be taken"),
    }
}

#[test]
fn run_cancelled_after_the_answer_reports_it_but_does_not_dispatch() {
    let token = CancellationToken::new();
    let mut responses = slots(&["a"]);
    let mut run = ApprovalRun::new(vec![request("a", "one")], Vec::new());
    ask(&mut run, &mut responses, Some(&token));
    token.cancel();
    let finding = Some("finding-1".to_string());
    match run.settle(&mut responses, answered(Permission::AlwaysAllow), finding, Some(&token)) {
        Some(Ok(settlement)) => {
            assert!(settlement.dispatch.is_none());
            assert!(settlement.permission_update.is_none());
            assert_eq!(settlement.decision.expect("a report").action, "ALLOW");
        }
        _ => panic!("the answer should be taken"),
    }
    assert!(has_notice(&responses, "a", ControlNotice::Cancelled));
}

#[test]
fn closed_channel_ends_the_run() {
    let mut responses = slots(&["a", "b"]);
    let mut run = ApprovalRun::new(vec![request("a", "one"), request("b", "two")], Vec::new());
    ask(&mut run, &mut responses, None);
    let closed = match await_confirmation_or_cancel("a", Reception::Closed, false) {
        Some(Err(closed)) => closed,
        _ => panic!("a closed channel should end the wait"),
    };
    match run.settle(&mut responses, Err(closed), None, None) {
        Some(Err(closed)) => assert_eq!(
            closed.message(),
            "Confirmation channel closed for request a"
        ),
        _ => panic!("the error should be passed on"),
    }
    assert!(is_finished(&mut run, &mut responses, None));
    assert!(tool_responses(&responses, "a").is_empty());
    assert!(tool_responses(&responses, "b").is_empty());
}

#[test]
fn cancelled_run_answers_every_readable_request_without_asking() {
    let token = CancellationToken::new();
    token.cancel();
    let mut responses = slots(&["a", "x", "other"]);
    let mut run = ApprovalRun::new(
        vec![request("a", "one"), unreadable("x"), request("no-slot", "two")],
        Vec::new(),
    );
    assert!(is_finished(&mut run, &mut responses, Some(&token)));
    assert_eq!(tool_responses(&responses, "a").len(), 1);
    assert!(has_notice(&responses, "a", ControlNotice::Cancelled));
    assert!(tool_responses(&responses, "x").is_empty());
    assert!(tool_responses(&responses, "other").is_empty());
    assert!(responses.get(&"no-slot".to_string()).is_none());
}

#[test]
fn message_under_the_id_of_an_unreadable_request_stays() {
    let mut responses = slots(&["x", "a"]);
    let mut run = ApprovalRun::new(vec![unreadable("x"), request("a", "one")], Vec::new());
    ask(&mut run, &mut responses, None);
    run.settle(&mut responses, answered(Permission::DenyOnce), None, None);
    assert!(is_finished(&mut run, &mut responses, None));
    assert!(responses.get(&"x".to_string()).unwrap().content.is_empty());
    assert_eq!(tool_responses(&responses, "a").len(), 1);
}

#[test]
fn token_is_asked_anew_for_each_request() {
    let token = CancellationToken::new();
    let mut responses = slots(&["a", "b"]);
    let mut run = ApprovalRun::new(vec![request("a", "one"), request("b", "two")], Vec::new());
    ask(&mut run, &mut responses, Some(&token));
    match run.settle(&mut responses, answered(Permission::AllowOnce), None, Some(&token)) {
        Some(Ok(settlement)) => {
            assert_eq!(settlement.dispatch.expect("the tool should be run").request_id, "a")
        }
        _ => panic!("the answer should be taken"),
    }
    token.cancel();
    assert!(is_finished(&mut run, &mut responses, Some(&token)));
    assert!(tool_responses(&responses, "a").is_empty());
    assert!(has_notice(&responses, "b", ControlNotice::Cancelled));
}

#[test]
fn looking_at_one_request_at_a_time() {
    let mut responses = slots(&["a"]);
    let mut run = ApprovalRun::new(vec![unreadable("x"), request("a", "one")], Vec::new());
    assert!(run.select_with(&mut responses, false).is_none());
    assert!(run.select_with(&mut responses, true).is_none());
    assert!(matches!(
        run.select_with(&mut responses, false),
        Some(ApprovalAction::Finished)
    ));
    assert_eq!(tool_responses(&responses, "a").len(), 1);
}

#[test]
fn answers_are_added_behind_what_a_message_holds() {
    let mut responses = ResponseMap::new();
    let mut message = Message::user();
    message.add_content(MessageContent::Text("before".to_string()));
    responses.insert("a".to_string(), message);
    let mut run = ApprovalRun::new(vec![request("a", "one")], Vec::new());
    ask(&mut run, &mut responses, None);
    run.settle(&mut responses, answered(Permission::DenyOnce), None, None);
    let message = responses.get(&"a".to_string()).expect("the message");
    assert_eq!(message.content.len(), 2);
    assert!(matches!(&message.content[0], MessageContent::Text(text) if text == "before"));
    assert!(matches!(&message.content[1], MessageContent::ToolResponse(_)));
}

#[test]
fn dispatched_call_is_the_whole_call_that_was_asked_about() {
    let params = CallToolRequestParams::new("files__write")
        .with_arguments(object("path", "/tmp/x"))
        .with_request_state("state");
    let mut asked = request("a", "other");
    asked.tool_call = Ok(ToolCall::new(params.clone()));
    let mut responses = slots(&["a"]);
    let mut run = ApprovalRun::new(vec![asked], Vec::new());
    let (_, request_id, message) = ask(&mut run, &mut responses, None);
    let dispatch = match run.settle(&mut responses, answered(Permission::AllowOnce), None, None) {
        Some(Ok(settlement)) => settlement.dispatch.expect("the tool should be run"),
        _ => panic!("the answer should be taken"),
    };
    assert_eq!(dispatch.request_id, request_id);
    assert_eq!(dispatch.tool_call.params(), &params);
    match &message.content[0] {
        MessageContent::ActionRequired(action) => {
            assert_eq!(&action.tool_name, dispatch.tool_call.name());
            assert_eq!(Some(&action.arguments), dispatch.tool_call.arguments().as_ref());
        }
        _ => panic!("the message should ask for approval"),
    }
}

#[test]
fn call_without_arguments_has_none() {
    let call = ToolCall::new(CallToolRequestParams::new("tool"));
    assert_eq!(call.name(), "tool");
    assert_eq!(call.arguments(), &None);
    assert_eq!(call.clone().params(), &CallToolRequestParams::new("tool"));
}

#[test]
fn removing_takes_a_message_out_and_leaves_the_others() {
    let mut responses = slots(&["a", "b", "c"]);
    responses.insert("b".to_string(), Message::assistant());
    let removed = responses.remove(&"b".to_string()).expect("the message");
    assert_eq!(removed.role, Role::Assistant);
    assert!(responses.get(&"b".to_string()).is_none());
    assert!(responses.remove(&"b".to_string()).is_none());
    assert!(responses.get(&"a".to_string()).is_some());
    assert!(responses.get(&"c".to_string()).is_some());
}

#[test]
fn inserting_under_the_same_id_replaces_the_message() {
    let mut responses = slots(&["a", "b"]);
    responses.insert("a".to_string(), Message::assistant());
    assert_eq!(responses.get(&"a".to_string()).unwrap().role, Role::Assistant);
    assert_eq!(responses.get(&"b".to_string()).unwrap().role, Role::User);
}
