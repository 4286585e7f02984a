//! Getting the user's approval for tool requests, one after the other.
//!
//! An [`ApprovalRun`] walks through the requests. It says which question to put to the user and,
//! once the answer has come, what follows from it: whether the tool is run, which response the
//! model is given if not, and which decision is to be remembered. Registering for the answer,
//! showing the question, waiting and running the tool are left to the caller.

use crate::confirmation::{confirmation_view, ConfirmationClosed, ConfirmationOutcome};
use crate::interop::{
    copy_json_or_default, is_answer, params_arguments, params_name, run_is_cancelled, JsonView,
};
use crate::message::{
    text_opt, Message, MessageContentView, MessageView, Role, ToolResponseProvenance,
};
use crate::permission::{Permission, PermissionLevel};
use crate::request::{
    inspections_view, reason_for, requests_view, security_message, InspectionResult,
    InspectionResultView, ToolCall, ToolRequest, ToolRequestView,
};
use crate::responses::{with_control_response, ResponseMap, ResponsesView};
use rmcp::model::CallToolRequestParams;
use tokio_util::sync::CancellationToken;
use vstd::prelude::*;

verus! {

/// Where a run stands.
#[derive(Clone, Copy, Debug, PartialEq, Eq, Structural)]
pub enum ApprovalPhase {
    /// The next request is to be looked at.
    Selecting,
    /// The user has been asked about the current request.
    Awaiting,
    /// Nothing more is to be done.
    Ended,
}

/// The approval of a list of tool requests.
pub struct ApprovalRun {
    requests: Vec<ToolRequest>,
    inspection_results: Vec<InspectionResult>,
    position: usize,
    phase: ApprovalPhase,
}

/// A run as a value.
pub struct ApprovalView {
    pub requests: Seq<ToolRequestView>,
    pub inspection_results: Seq<InspectionResultView>,
    pub position: int,
    pub phase: ApprovalPhase,
}

impl ApprovalView {
    /// The run stands at a request or behind the last one, and asks only about requests whose
    /// call could be read.
    pub open spec fn wf(self) -> bool {
        &&& 0 <= self.position <= self.requests.len()
        &&& self.phase == ApprovalPhase::Awaiting ==> self.position < self.requests.len()
            && self.current().tool_call is Ok
    }

    /// The request that the run stands at.
    pub open spec fn current(self) -> ToolRequestView {
        self.requests[self.position]
    }

    /// The run, standing at the next request.
    pub open spec fn advanced(self) -> ApprovalView {
        ApprovalView { position: self.position + 1, phase: ApprovalPhase::Selecting, ..self }
    }

    /// The run in another phase.
    pub open spec fn in_phase(self, phase: ApprovalPhase) -> ApprovalView {
        ApprovalView { phase, ..self }
    }
}

impl View for ApprovalRun {
    type V = ApprovalView;

    closed spec fn view(&self) -> ApprovalView {
        ApprovalView {
            requests: requests_view(self.requests@),
            inspection_results: inspections_view(self.inspection_results@),
            position: self.position as int,
            phase: self.phase,
        }
    }
}

/// What the caller of a run is to do next.
pub enum ApprovalAction {
    /// Register for the answer to `request_id`, then show `message` to the user and wait. The
    /// question is about the request at `index`.
    Ask { index: usize, request_id: String, message: Message },
    /// Go on waiting for the answer to the last question.
    Waiting,
    /// Stop.
    Finished,
}

/// What the caller of a run is to do next, as a value.
pub enum ApprovalActionView {
    Ask { index: int, request_id: Seq<char>, message: MessageView },
    Waiting,
    Finished,
}

impl View for ApprovalAction {
    type V = ApprovalActionView;

    open spec fn view(&self) -> ApprovalActionView {
        match *self {
            ApprovalAction::Ask { index, request_id, message } => ApprovalActionView::Ask {
                index: index as int,
                request_id: request_id@,
                message: message@,
            },
            ApprovalAction::Waiting => ApprovalActionView::Waiting,
            ApprovalAction::Finished => ApprovalActionView::Finished,
        }
    }
}

/// The message that asks the user whether the tool of a request may run.
pub open spec fn question(
    request: ToolRequestView,
    inspection_results: Seq<InspectionResultView>,
) -> MessageView {
    MessageView::empty(Role::Assistant).with_content(
        MessageContentView::ActionRequired {
            id: request.id,
            tool_name: params_name(request.tool_call->Ok_0),
            arguments: params_arguments(request.tool_call->Ok_0).unwrap_or(JsonView::empty()),
            prompt: reason_for(inspection_results, request.id),
        },
    ).for_user_only()
}

/// What becomes of the current request before the user is asked.
pub struct SelectStep {
    pub run: ApprovalView,
    pub responses: ResponsesView,
    pub action: Option<ApprovalActionView>,
}

/// A look at the current request: a request whose call could not be read is passed over, in a
/// cancelled run it is answered as cancelled, and otherwise the user is asked. Without an action
/// the next request is to be looked at.
pub open spec fn select_step(
    run: ApprovalView,
    responses: ResponsesView,
    cancelled: bool,
) -> SelectStep {
    match run.phase {
        ApprovalPhase::Awaiting => SelectStep {
            run,
            responses,
            action: Some(ApprovalActionView::Waiting),
        },
        ApprovalPhase::Ended => SelectStep {
            run,
            responses,
            action: Some(ApprovalActionView::Finished),
        },
        ApprovalPhase::Selecting => if run.position >= run.requests.len() {
            SelectStep {
                run: run.in_phase(ApprovalPhase::Ended),
                responses,
                action: Some(ApprovalActionView::Finished),
            }
        } else if run.current().tool_call is Err {
            SelectStep { run: run.advanced(), responses, action: None }
        } else if cancelled {
            SelectStep {
                run: run.advanced(),
                responses: with_control_response(
                    responses,
                    run.current().id,
                    ToolResponseProvenance::GooseCancelledBeforeExecution,
                    run.current().metadata,
                ),
                action: None,
            }
        } else {
            SelectStep {
                run: run.in_phase(ApprovalPhase::Awaiting),
                responses,
                action: Some(
                    ApprovalActionView::Ask {
                        index: run.position,
                        request_id: run.current().id,
                        message: question(run.current(), run.inspection_results),
                    },
                ),
            }
        },
    }
}

/// Looks at one request after the other until there is something for the caller to do. At each
/// look the next of `polls` says whether the run is cancelled.
pub open spec fn select_steps(
    run: ApprovalView,
    responses: ResponsesView,
    polls: Seq<bool>,
) -> SelectStep
    decreases polls.len(),
{
    if polls.len() == 0 {
        SelectStep { run, responses, action: None }
    } else {
        let step = select_step(run, responses, polls[0]);
        if step.action is Some {
            step
        } else {
            select_steps(step.run, step.responses, polls.drop_first())
        }
    }
}

/// Whether a request is run or refused, and for what reason it is refused.
#[derive(Clone, Copy, Debug, PartialEq, Eq, Structural)]
pub enum Verdict {
    Dispatch,
    Refuse(ToolResponseProvenance),
}

/// What follows from an answer: the tool runs if the answer allows it and the run is not
/// cancelled.
pub open spec fn verdict_on(permission: Permission, cancelled: bool) -> Verdict {
    if !cancelled && permission.allows() {
        Verdict::Dispatch
    } else if cancelled || permission == Permission::Cancel {
        Verdict::Refuse(ToolResponseProvenance::GooseCancelledBeforeExecution)
    } else {
        Verdict::Refuse(ToolResponseProvenance::GooseDeniedBeforeExecution)
    }
}

/// What follows from an answer: the tool runs if the answer allows it and the run is not
/// cancelled.
pub fn judge(permission: Permission, cancelled: bool) -> (verdict: Verdict)
    ensures
        verdict == verdict_on(permission, cancelled),
{
    if !cancelled && permission.permits() {
        Verdict::Dispatch
    } else if cancelled || permission == Permission::Cancel {
        Verdict::Refuse(ToolResponseProvenance::GooseCancelledBeforeExecution)
    } else {
        Verdict::Refuse(ToolResponseProvenance::GooseDeniedBeforeExecution)
    }
}

/// The decision on the tool that an answer makes for the time to come: to allow it always where
/// it is run now, never to allow it where it is refused now.
pub open spec fn remembered_level(permission: Permission, cancelled: bool) -> Option<
    PermissionLevel,
> {
    match verdict_on(permission, cancelled) {
        Verdict::Dispatch => if permission == Permission::AlwaysAllow {
            Some(PermissionLevel::AlwaysAllow)
        } else {
            None
        },
        Verdict::Refuse(_) => if permission == Permission::AlwaysDeny {
            Some(PermissionLevel::NeverAllow)
        } else {
            None
        },
    }
}

/// The decision on the tool that an answer makes for the time to come.
pub fn level_to_remember(permission: Permission, cancelled: bool) -> (level: Option<
    PermissionLevel,
>)
    ensures
        level == remembered_level(permission, cancelled),
{
    match judge(permission, cancelled) {
        Verdict::Dispatch => if permission == Permission::AlwaysAllow {
            Some(PermissionLevel::AlwaysAllow)
        } else {
            None
        },
        Verdict::Refuse(_) => if permission == Permission::AlwaysDeny {
            Some(PermissionLevel::NeverAllow)
        } else {
            None
        },
    }
}

/// What the user decided about a request with a security finding, to be reported.
pub struct SecurityDecision {
    pub finding_id: String,
    pub request_id: String,
    pub action: &'static str,
    pub permission: Permission,
}

/// A reported decision as a value.
pub struct SecurityDecisionView {
    pub finding_id: Seq<char>,
    pub request_id: Seq<char>,
    pub action: Seq<char>,
    pub permission: Permission,
}

impl View for SecurityDecision {
    type V = SecurityDecisionView;

    open spec fn view(&self) -> SecurityDecisionView {
        SecurityDecisionView {
            finding_id: self.finding_id@,
            request_id: self.request_id@,
            action: self.action@,
            permission: self.permission,
        }
    }
}

/// A decision on a tool to be remembered.
pub struct PermissionUpdate {
    pub tool_name: String,
    pub level: PermissionLevel,
}

/// A tool call to be dispatched, with the id of its request.
pub struct Dispatch {
    pub request_id: String,
    pub tool_call: ToolCall,
}

/// A tool call to be dispatched, as a value.
pub struct DispatchView {
    pub request_id: Seq<char>,
    pub tool_call: CallToolRequestParams,
}

impl View for Dispatch {
    type V = DispatchView;

    open spec fn view(&self) -> DispatchView {
        DispatchView { request_id: self.request_id@, tool_call: self.tool_call@ }
    }
}

/// What follows from the answer to a question. The caller reports `decision`, then dispatches
/// `dispatch`, then remembers `permission_update`, each where there is one.
pub struct Settlement {
    pub decision: Option<SecurityDecision>,
    pub dispatch: Option<Dispatch>,
    pub permission_update: Option<PermissionUpdate>,
}

/// What follows from the answer to a question, as a value.
pub struct SettlementView {
    pub decision: Option<SecurityDecisionView>,
    pub dispatch: Option<DispatchView>,
    pub permission_update: Option<(Seq<char>, PermissionLevel)>,
}

impl View for Settlement {
    type V = SettlementView;

    open spec fn view(&self) -> SettlementView {
        SettlementView {
            decision: match self.decision {
                Some(decision) => Some(decision@),
                None => None,
            },
            dispatch: match self.dispatch {
                Some(dispatch) => Some(dispatch@),
                None => None,
            },
            permission_update: match self.permission_update {
                Some(update) => Some((update.tool_name@, update.level)),
                None => None,
            },
        }
    }
}

/// What follows from an answer about a request. A decision is reported where the request has a
/// security finding and the answer is the user's own.
pub open spec fn settlement_of(
    request: ToolRequestView,
    outcome: ConfirmationOutcome,
    finding: Option<Seq<char>>,
    cancelled: bool,
) -> SettlementView {
    let permission = outcome.confirmation.permission;
    SettlementView {
        decision: match finding {
            Some(finding_id) => if outcome.cancelled_by_token {
                None
            } else {
                Some(
                    SecurityDecisionView {
                        finding_id,
                        request_id: request.id,
                        action: permission.decision_word(),
                        permission,
                    },
                )
            },
            None => None,
        },
        dispatch: if verdict_on(permission, cancelled) == Verdict::Dispatch {
            Some(DispatchView { request_id: request.id, tool_call: request.tool_call->Ok_0 })
        } else {
            None
        },
        permission_update: match remembered_level(permission, cancelled) {
            Some(level) => Some((params_name(request.tool_call->Ok_0), level)),
            None => None,
        },
    }
}

/// The messages after a verdict on a request: a refused one is answered with the reason.
pub open spec fn responses_after_verdict(
    responses: ResponsesView,
    request: ToolRequestView,
    verdict: Verdict,
) -> ResponsesView {
    match verdict {
        Verdict::Dispatch => responses,
        Verdict::Refuse(provenance) => with_control_response(
            responses,
            request.id,
            provenance,
            request.metadata,
        ),
    }
}

/// What becomes of the current request once the wait for the answer is over.
pub struct SettleStep {
    pub run: ApprovalView,
    pub responses: ResponsesView,
    pub settlement: Option<Result<SettlementView, Seq<char>>>,
}

/// The end of the wait for an answer. A run that is not waiting stays as it is. Where the channel
/// of the answer was closed, the run ends; else it goes on with the next request.
pub open spec fn settle_step(
    run: ApprovalView,
    responses: ResponsesView,
    confirmation: Result<ConfirmationOutcome, Seq<char>>,
    finding: Option<Seq<char>>,
    cancelled: bool,
) -> SettleStep {
    if run.phase != ApprovalPhase::Awaiting {
        SettleStep { run, responses, settlement: None }
    } else {
        match confirmation {
            Err(request_id) => SettleStep {
                run: run.in_phase(ApprovalPhase::Ended),
                responses,
                settlement: Some(Err(request_id)),
            },
            Ok(outcome) => SettleStep {
                run: run.advanced(),
                responses: responses_after_verdict(
                    responses,
                    run.current(),
                    verdict_on(outcome.confirmation.permission, cancelled),
                ),
                settlement: Some(
                    Ok(settlement_of(run.current(), outcome, finding, cancelled)),
                ),
            },
        }
    }
}

/// What came out of the end of a wait, as a value.
pub open spec fn settlement_view(
    settlement: Option<Result<Settlement, ConfirmationClosed>>,
) -> Option<Result<SettlementView, Seq<char>>> {
    match settlement {
        Some(Ok(settlement)) => Some(Ok(settlement@)),
        Some(Err(closed)) => Some(Err(closed.request_id@)),
        None => None,
    }
}

/// What the caller is to do, as a value.
pub open spec fn action_view(action: Option<ApprovalAction>) -> Option<ApprovalActionView> {
    match action {
        Some(action) => Some(action@),
        None => None,
    }
}

impl ApprovalRun {
    #[verifier::type_invariant]
    spec fn well_formed(self) -> bool {
        self@.wf()
    }

    /// A run that stands at the first of the requests.
    pub fn new(requests: Vec<ToolRequest>, inspection_results: Vec<InspectionResult>) -> (run:
        ApprovalRun)
        ensures
            run@ == (ApprovalView {
                requests: requests_view(requests@),
                inspection_results: inspections_view(inspection_results@),
                position: 0,
                phase: ApprovalPhase::Selecting,
            }),
            run@.wf(),
    {
        ApprovalRun { requests, inspection_results, position: 0, phase: ApprovalPhase::Selecting }
    }

    /// Whether the run waits for the answer to the request `id`.
    pub fn awaits(&self, id: &String) -> (awaits: bool)
        ensures
            awaits == (self@.phase == ApprovalPhase::Awaiting && self@.current().id == id@),
    {
        proof {
            use_type_invariant(self);
        }
        self.phase == ApprovalPhase::Awaiting && self.requests[self.position].id == *id
    }

    /// Looks at the current request. `cancelled` is whether the run is cancelled by now.
    pub fn select_with(&mut self, responses: &mut ResponseMap, cancelled: bool) -> (action: Option<
        ApprovalAction,
    >)
        ensures
            final(self)@ == select_step(old(self)@, old(responses)@, cancelled).run,
            final(responses)@ == select_step(old(self)@, old(responses)@, cancelled).responses,
            action_view(action) == select_step(old(self)@, old(responses)@, cancelled).action,
            old(self)@.wf(),
            final(self)@.wf(),
    {
        proof {
            use_type_invariant(&*self);
        }
        match self.phase {
            ApprovalPhase::Awaiting => Some(ApprovalAction::Waiting),
            ApprovalPhase::Ended => Some(ApprovalAction::Finished),
            ApprovalPhase::Selecting => {
                if self.position >= self.requests.len() {
                    self.phase = ApprovalPhase::Ended;
                    return Some(ApprovalAction::Finished);
                }
                let index = self.position;
                let request = &self.requests[index];
                assert(request@ == self@.current());
                match &request.tool_call {
                    Err(_) => {
                        self.position = index + 1;
                        None
                    },
                    Ok(tool_call) => {
                        if cancelled {
                            responses.add_control_response(
                                &request.id,
                                ToolResponseProvenance::GooseCancelledBeforeExecution,
                                request.metadata.as_ref(),
                            );
                            self.position = index + 1;
                            None
                        } else {
                            let message = Message::assistant().with_action_required(
                                request.id.clone(),
                                tool_call.name().clone(),
                                copy_json_or_default(tool_call.arguments()),
                                security_message(&self.inspection_results, &request.id),
                            ).user_only();
                            let request_id = request.id.clone();
                            self.phase = ApprovalPhase::Awaiting;
                            Some(ApprovalAction::Ask { index, request_id, message })
                        }
                    },
                }
            },
        }
    }

    /// Looks at one request after the other until there is something for the caller to do. The
    /// token is asked anew for each request.
    pub fn next_action(
        &mut self,
        responses: &mut ResponseMap,
        cancellation_token: Option<&CancellationToken>,
    ) -> (action: ApprovalAction)
        ensures
            exists|polls: Seq<bool>| #[trigger]
                select_steps(old(self)@, old(responses)@, polls) == (SelectStep {
                    run: final(self)@,
                    responses: final(responses)@,
                    action: Some(action@),
                }) && (forall|i: int|
                    0 <= i < polls.len() ==> is_answer(cancellation_token, #[trigger] polls[i])) && (
                cancellation_token is None ==> !polls.contains(true)),
            old(self)@.wf(),
            final(self)@.wf(),
    {
        proof {
            use_type_invariant(&*self);
        }
        let ghost run = self@;
        let ghost before = responses@;
        let ghost mut polls: Seq<bool> = Seq::empty();
        loop
            invariant
                run == old(self)@,
                before == old(responses)@,
                run.wf(),
                self@.wf(),
                self@.requests.len() == run.requests.len(),
                forall|i: int|
                    0 <= i < polls.len() ==> is_answer(cancellation_token, #[trigger] polls[i]),
                cancellation_token is None ==> !polls.contains(true),
                select_steps(run, before, polls) == (SelectStep {
                    run: self@,
                    responses: responses@,
                    action: None,
                }),
            decreases self@.requests.len() - self@.position,
        {
            let cancelled = run_is_cancelled(cancellation_token);
            let action = self.select_with(responses, cancelled);
            proof {
                select_steps_push(run, before, polls, cancelled);
                assert(cancellation_token is None ==> !polls.push(cancelled).contains(true));
                polls = polls.push(cancelled);
            }
            if let Some(action) = action {
                return action;
            }
        }
    }

    /// Ends the wait for the answer to the current question. `finding_id` is the security finding
    /// about the current request, where there is one, and `cancelled` is whether the run is
    /// cancelled by now. A run that is not waiting gives `None`.
    pub fn settle_with(
        &mut self,
        responses: &mut ResponseMap,
        confirmation: Result<ConfirmationOutcome, ConfirmationClosed>,
        finding_id: Option<String>,
        cancelled: bool,
    ) -> (settlement: Option<Result<Settlement, ConfirmationClosed>>)
        ensures
            ({
                let step = settle_step(
                    old(self)@,
                    old(responses)@,
                    confirmation_view(confirmation),
                    text_opt(finding_id),
                    cancelled,
                );
                &&& final(self)@ == step.run
                &&& final(responses)@ == step.responses
                &&& settlement_view(settlement) == step.settlement
            }),
            settlement matches Some(Err(closed)) ==> confirmation == Err::<
                ConfirmationOutcome,
                ConfirmationClosed,
            >(closed),
            old(self)@.wf(),
            final(self)@.wf(),
    {
        proof {
            use_type_invariant(&*self);
        }
        match self.phase {
            ApprovalPhase::Awaiting => {},
            _ => {
                return None;
            },
        }
        let outcome = match confirmation {
            Ok(outcome) => outcome,
            Err(closed) => {
                self.phase = ApprovalPhase::Ended;
                return Some(Err(closed));
            },
        };
        let permission = outcome.confirmation.permission;
        let index = self.position;
        let request = &self.requests[index];
        assert(request@ == self@.current() && index < self.requests.len());
        let tool_call = match &request.tool_call {
            Ok(tool_call) => tool_call,
            Err(_) => {
                assert(false);
                return None;
            },
        };
        let decision = match finding_id {
            Some(finding_id) => if outcome.cancelled_by_token {
                None
            } else {
                Some(
                    SecurityDecision {
                        finding_id,
                        request_id: request.id.clone(),
                        action: permission.security_action(),
                        permission,
                    },
                )
            },
            None => None,
        };
        let dispatch = match judge(permission, cancelled) {
            Verdict::Dispatch => Some(
                Dispatch { request_id: request.id.clone(), tool_call: tool_call.clone() },
            ),
            Verdict::Refuse(provenance) => {
                responses.add_control_response(
                    &request.id,
                    provenance,
                    request.metadata.as_ref(),
                );
                None
            },
        };
        let permission_update = match level_to_remember(permission, cancelled) {
            Some(level) => Some(PermissionUpdate { tool_name: tool_call.name().clone(), level }),
            None => None,
        };
        self.phase = ApprovalPhase::Selecting;
        self.position = index + 1;
        Some(Ok(Settlement { decision, dispatch, permission_update }))
    }

    /// Ends the wait for the answer to the current question, asking the token once more whether
    /// the run has been cancelled in the meantime.
    pub fn settle(
        &mut self,
        responses: &mut ResponseMap,
        confirmation: Result<ConfirmationOutcome, ConfirmationClosed>,
        finding_id: Option<String>,
        cancellation_token: Option<&CancellationToken>,
    ) -> (settlement: Option<Result<Settlement, ConfirmationClosed>>)
        ensures
            exists|cancelled: bool| #[trigger]
                settle_step(
                    old(self)@,
                    old(responses)@,
                    confirmation_view(confirmation),
                    text_opt(finding_id),
                    cancelled,
                ) == (SettleStep {
                    run: final(self)@,
                    responses: final(responses)@,
                    settlement: settlement_view(settlement),
                }) && is_answer(cancellation_token, cancelled) && (cancellation_token is None
                    ==> !cancelled),
            settlement matches Some(Err(closed)) ==> confirmation == Err::<
                ConfirmationOutcome,
                ConfirmationClosed,
            >(closed),
            old(self)@.wf(),
            final(self)@.wf(),
    {
        let cancelled = run_is_cancelled(cancellation_token);
        self.settle_with(responses, confirmation, finding_id, cancelled)
    }
}

/// One more look after a number of looks that left nothing for the caller to do.
proof fn select_steps_push(
    run: ApprovalView,
    responses: ResponsesView,
    polls: Seq<bool>,
    cancelled: bool,
)
    requires
        select_steps(run, responses, polls).action is None,
    ensures
        select_steps(run, responses, polls.push(cancelled)) == ({
            let reached = select_steps(run, responses, polls);
            select_step(reached.run, reached.responses, cancelled)
        }),
    decreases polls.len(),
{
    let extended = polls.push(cancelled);
    if polls.len() == 0 {
        let step = select_step(run, responses, cancelled);
        assert(extended.drop_first() =~= Seq::empty());
        assert(select_steps(step.run, step.responses, extended.drop_first()).action is None);
    } else {
        let step = select_step(run, responses, polls[0]);
        assert(extended.drop_first() =~= polls.drop_first().push(cancelled));
        select_steps_push(step.run, step.responses, polls.drop_first(), cancelled);
    }
}

} // verus!
