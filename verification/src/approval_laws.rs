//! What holds of the approval of tool requests as a whole.
//!
//! The laws speak of everything that a run sees while it handles its requests: for each request
//! whether the run is cancelled when the request comes up, how the wait for the answer ends, and
//! whether the run is cancelled when the answer is acted on.

use crate::approval::{
    action_view, question, remembered_level, select_step, select_steps, settle_step, settlement_of,
    settlement_view, verdict_on, ApprovalAction, ApprovalActionView, ApprovalPhase, ApprovalView,
    DispatchView, Settlement, SettlementView, Verdict,
};
use crate::confirmation::{wait_result, ConfirmationClosed, ConfirmationOutcome, Reception};
use crate::interop::{params_arguments, params_name, JsonView};
use crate::message::{
    control_response, ControlNotice, MessageContentView, MessageView, Role, ToolResponseBody,
    ToolResponseProvenance, ToolResponseView,
};
use crate::permission::{Permission, PermissionLevel};
use crate::request::{reason_for, InspectionResultView, ToolRequestView};
use crate::responses::{with_control_response, ResponsesView};
use vstd::prelude::*;

verus! {

/// What a run sees while it handles one request.
pub struct Observation {
    pub cancelled_before: bool,
    pub confirmation: Result<ConfirmationOutcome, Seq<char>>,
    pub finding: Option<Seq<char>>,
    pub cancelled_after: bool,
}

/// A run and its messages after a request has been handled, with what followed from the answer
/// where the user was asked.
pub struct Handled {
    pub run: ApprovalView,
    pub responses: ResponsesView,
    pub settlement: Option<Result<SettlementView, Seq<char>>>,
}

/// The handling of the current request: the look at it and, where that asks the user, the end of
/// the wait for the answer.
pub open spec fn handle_current(
    run: ApprovalView,
    responses: ResponsesView,
    seen: Observation,
) -> Handled {
    let step = select_step(run, responses, seen.cancelled_before);
    match step.action {
        Some(ApprovalActionView::Ask { index, request_id, message }) => {
            let end = settle_step(
                step.run,
                step.responses,
                seen.confirmation,
                seen.finding,
                seen.cancelled_after,
            );
            Handled { run: end.run, responses: end.responses, settlement: end.settlement }
        },
        _ => Handled { run: step.run, responses: step.responses, settlement: None },
    }
}

/// The run and its messages after `count` requests have been handled one after the other.
pub open spec fn handled(
    run: ApprovalView,
    responses: ResponsesView,
    seen: Seq<Observation>,
    count: nat,
) -> Handled
    decreases count,
{
    if count == 0 {
        Handled { run, responses, settlement: None }
    } else {
        let before = handled(run, responses, seen, (count - 1) as nat);
        handle_current(before.run, before.responses, seen[count - 1])
    }
}

/// What becomes of a request.
pub enum RequestEffect {
    /// Its call could not be read, and it is passed over.
    Skipped,
    /// It is answered as cancelled, without the user having been asked.
    CancelledUnasked,
    /// Its tool is run.
    Dispatched,
    /// It is refused after the user has been asked.
    Refused(ToolResponseProvenance),
    /// The answer never came, and the run ends.
    Closed,
}

/// What becomes of a request that comes up in a run.
pub open spec fn effect_on(request: ToolRequestView, seen: Observation) -> RequestEffect {
    if request.tool_call is Err {
        RequestEffect::Skipped
    } else if seen.cancelled_before {
        RequestEffect::CancelledUnasked
    } else {
        match seen.confirmation {
            Err(_) => RequestEffect::Closed,
            Ok(outcome) => match verdict_on(
                outcome.confirmation.permission,
                seen.cancelled_after,
            ) {
                Verdict::Dispatch => RequestEffect::Dispatched,
                Verdict::Refuse(provenance) => RequestEffect::Refused(provenance),
            },
        }
    }
}

/// The reason with which a request is answered in place of its tool, where it is.
pub open spec fn refusal(effect: RequestEffect) -> Option<ToolResponseProvenance> {
    match effect {
        RequestEffect::CancelledUnasked => Some(
            ToolResponseProvenance::GooseCancelledBeforeExecution,
        ),
        RequestEffect::Refused(provenance) => Some(provenance),
        _ => None,
    }
}

/// The messages after a request has met its effect.
pub open spec fn responses_after(
    responses: ResponsesView,
    request: ToolRequestView,
    effect: RequestEffect,
) -> ResponsesView {
    match refusal(effect) {
        Some(provenance) => with_control_response(
            responses,
            request.id,
            provenance,
            request.metadata,
        ),
        None => responses,
    }
}

/// Whether a run stands at its first request.
pub open spec fn is_fresh(run: ApprovalView) -> bool {
    run.position == 0 && run.phase == ApprovalPhase::Selecting
}

/// Whether the request at `index` comes up: no wait before it has ended without an answer.
pub open spec fn comes_up(run: ApprovalView, seen: Seq<Observation>, index: int) -> bool {
    forall|earlier: int|
        0 <= earlier < index ==> !(effect_on(run.requests[earlier], #[trigger] seen[earlier])
            is Closed)
}

/// Whether a message is another one with further parts at its end.
pub open spec fn extends(longer: MessageView, shorter: MessageView) -> bool {
    &&& longer.role == shorter.role
    &&& longer.user_visible == shorter.user_visible
    &&& longer.agent_visible == shorter.agent_visible
    &&& shorter.content.len() <= longer.content.len()
    &&& longer.content.take(shorter.content.len() as int) == shorter.content
}

/// Whether the messages under the same ids are the same or have grown.
pub open spec fn all_extend(later: ResponsesView, earlier: ResponsesView) -> bool {
    &&& later.dom() == earlier.dom()
    &&& forall|id: Seq<char>|
        earlier.contains_key(id) ==> extends(#[trigger] later[id], earlier[id])
}

/// A request is handled by its effect alone: the messages get what the effect says, its tool is
/// dispatched if and only if the effect says so, and the run goes on to the next request unless
/// the answer never came.
pub proof fn handling_follows_the_effect(
    run: ApprovalView,
    responses: ResponsesView,
    seen: Observation,
)
    requires
        run.wf(),
        run.phase == ApprovalPhase::Selecting,
        run.position < run.requests.len(),
    ensures
        ({
            let after = handle_current(run, responses, seen);
            let effect = effect_on(run.current(), seen);
            &&& after.run.wf()
            &&& after.responses == responses_after(responses, run.current(), effect)
            &&& after.run == if effect is Closed {
                run.in_phase(ApprovalPhase::Ended)
            } else {
                run.advanced()
            }
            &&& effect is Dispatched <==> (after.settlement matches Some(Ok(settlement))
                && settlement.dispatch == Some(
                DispatchView {
                    request_id: run.current().id,
                    tool_call: run.current().tool_call->Ok_0,
                },
            ))
            &&& after.settlement matches Some(Ok(settlement)) ==> settlement.dispatch is Some
                ==> effect is Dispatched
        }),
{
}

/// The call that is dispatched is the one that the user was asked about: the question had the id
/// that the call is dispatched with, and the tool's name and the arguments that the call has.
pub proof fn dispatched_call_is_the_one_asked_about(
    run: ApprovalView,
    responses: ResponsesView,
    seen: Observation,
    dispatch: DispatchView,
)
    requires
        run.wf(),
        run.phase == ApprovalPhase::Selecting,
        handle_current(run, responses, seen).settlement matches Some(Ok(settlement))
            && settlement.dispatch == Some(dispatch),
    ensures
        select_step(run, responses, seen.cancelled_before).action == Some(
            ApprovalActionView::Ask {
                index: run.position,
                request_id: dispatch.request_id,
                message: MessageView::empty(Role::Assistant).with_content(
                    MessageContentView::ActionRequired {
                        id: dispatch.request_id,
                        tool_name: params_name(dispatch.tool_call),
                        arguments: params_arguments(dispatch.tool_call).unwrap_or(
                            JsonView::empty(),
                        ),
                        prompt: reason_for(run.inspection_results, dispatch.request_id),
                    },
                ).for_user_only(),
            },
        ),
{
}

/// A tool runs only on the user's word: its request could be read, the run was cancelled neither
/// before the user was asked nor after the answer, and the answer allows the tool.
pub proof fn tool_runs_only_on_the_users_word(request: ToolRequestView, seen: Observation)
    requires
        effect_on(request, seen) is Dispatched,
    ensures
        request.tool_call is Ok,
        !seen.cancelled_before,
        !seen.cancelled_after,
        seen.confirmation matches Ok(outcome) && outcome.confirmation.permission.allows(),
{
}

/// The user's word is enough: a readable request that is asked about in a run that is not
/// cancelled is run if the answer allows it.
pub proof fn users_word_is_enough(
    request: ToolRequestView,
    seen: Observation,
    outcome: ConfirmationOutcome,
)
    requires
        request.tool_call is Ok,
        !seen.cancelled_before,
        !seen.cancelled_after,
        seen.confirmation == Ok::<ConfirmationOutcome, Seq<char>>(outcome),
        outcome.confirmation.permission.allows(),
    ensures
        effect_on(request, seen) is Dispatched,
{
}

/// A wait that cancellation cut short never lets a tool run, whatever answer lay ready: the
/// request is answered as cancelled.
pub proof fn cancelled_wait_never_dispatches(
    request: ToolRequestView,
    seen: Observation,
    reception: Reception,
)
    requires
        request.tool_call is Ok,
        wait_result(request.id, reception, true) == Some(seen.confirmation),
    ensures
        refusal(effect_on(request, seen)) == Some(
            ToolResponseProvenance::GooseCancelledBeforeExecution,
        ),
{
}

/// Why a request is refused: as cancelled where the run is cancelled or the user cancels, and as
/// denied where the user denies it in a run that goes on.
pub proof fn refusal_tells_cancelling_from_denying(permission: Permission, cancelled: bool)
    ensures
        verdict_on(permission, cancelled) == Verdict::Refuse(
            ToolResponseProvenance::GooseCancelledBeforeExecution,
        ) <==> cancelled || permission == Permission::Cancel,
        verdict_on(permission, cancelled) == Verdict::Refuse(
            ToolResponseProvenance::GooseDeniedBeforeExecution,
        ) <==> !cancelled && (permission == Permission::DenyOnce || permission
            == Permission::AlwaysDeny),
{
}

/// Only the answers that are to hold always are remembered. Cancelling the run keeps an approval
/// from being remembered, but not a denial.
pub proof fn only_standing_answers_are_remembered(permission: Permission, cancelled: bool)
    ensures
        remembered_level(permission, cancelled) == Some(PermissionLevel::AlwaysAllow) <==> !cancelled
            && permission == Permission::AlwaysAllow,
        remembered_level(permission, cancelled) == Some(PermissionLevel::NeverAllow) <==> permission
            == Permission::AlwaysDeny,
{
}

/// A decision is reported if and only if the request has a security finding and the answer is the
/// user's own, with the word that fits the answer, whether or not the tool is run.
pub proof fn only_the_users_own_answers_are_reported(
    request: ToolRequestView,
    outcome: ConfirmationOutcome,
    finding: Option<Seq<char>>,
    cancelled: bool,
)
    ensures
        ({
            let decision = settlement_of(request, outcome, finding, cancelled).decision;
            let permission = outcome.confirmation.permission;
            &&& decision is Some <==> finding is Some && !outcome.cancelled_by_token
            &&& decision matches Some(reported) ==> {
                &&& finding == Some(reported.finding_id)
                &&& reported.request_id == request.id
                &&& reported.permission == permission
                &&& reported.action == if permission.allows() {
                    "ALLOW"@
                } else {
                    "BLOCK"@
                }
            }
        }),
{
}

/// A run that has handled `count` of its requests stands at the next one, unless it has ended.
proof fn run_stands_at_next_request(
    run: ApprovalView,
    responses: ResponsesView,
    seen: Seq<Observation>,
    count: nat,
)
    requires
        is_fresh(run),
        seen.len() == run.requests.len(),
        count <= run.requests.len(),
    ensures
        ({
            let after = handled(run, responses, seen, count);
            &&& after.run.wf()
            &&& after.run.requests == run.requests
            &&& after.run.inspection_results == run.inspection_results
            &&& comes_up(run, seen, count as int) ==> after.run.position == count
                && after.run.phase == ApprovalPhase::Selecting
            &&& !comes_up(run, seen, count as int) ==> after.run.phase == ApprovalPhase::Ended
        }),
    decreases count,
{
    if count > 0 {
        let last = (count - 1) as nat;
        run_stands_at_next_request(run, responses, seen, last);
        let before = handled(run, responses, seen, last);
        if comes_up(run, seen, last as int) {
            handling_follows_the_effect(before.run, before.responses, seen[last as int]);
            if effect_on(run.requests[last as int], seen[last as int]) is Closed {
                assert(!comes_up(run, seen, count as int));
            }
        }
    }
}

/// Each request that comes up is handled once, in the order of the list, and meets its effect:
/// the messages after it are those before it with what the effect adds.
pub proof fn requests_are_handled_in_order(
    run: ApprovalView,
    responses: ResponsesView,
    seen: Seq<Observation>,
    index: int,
)
    requires
        is_fresh(run),
        seen.len() == run.requests.len(),
        0 <= index < run.requests.len(),
        comes_up(run, seen, index),
    ensures
        handled(run, responses, seen, index as nat).run == (ApprovalView {
            position: index,
            ..run
        }),
        handled(run, responses, seen, (index + 1) as nat).responses == responses_after(
            handled(run, responses, seen, index as nat).responses,
            run.requests[index],
            effect_on(run.requests[index], seen[index]),
        ),
{
    run_stands_at_next_request(run, responses, seen, index as nat);
    let before = handled(run, responses, seen, index as nat);
    handling_follows_the_effect(before.run, before.responses, seen[index]);
}

/// A run all of whose waits end in an answer gets through all its requests, and is finished then.
pub proof fn answered_run_handles_all_requests(
    run: ApprovalView,
    responses: ResponsesView,
    seen: Seq<Observation>,
    cancelled: bool,
)
    requires
        is_fresh(run),
        seen.len() == run.requests.len(),
        comes_up(run, seen, run.requests.len() as int),
    ensures
        ({
            let end = handled(run, responses, seen, run.requests.len());
            let look = select_step(end.run, end.responses, cancelled);
            &&& end.run.position == run.requests.len()
            &&& look.action == Some(ApprovalActionView::Finished)
            &&& look.responses == end.responses
        }),
{
    run_stands_at_next_request(run, responses, seen, run.requests.len());
}

/// A run whose wait ended without an answer has ended: nothing is asked, run or answered any
/// more.
pub proof fn closed_wait_ends_the_run(
    run: ApprovalView,
    responses: ResponsesView,
    seen: Seq<Observation>,
    index: int,
    count: nat,
)
    requires
        is_fresh(run),
        seen.len() == run.requests.len(),
        0 <= index < count <= run.requests.len(),
        comes_up(run, seen, index),
        effect_on(run.requests[index], seen[index]) is Closed,
    ensures
        handled(run, responses, seen, count).run.phase == ApprovalPhase::Ended,
        handled(run, responses, seen, count).responses == handled(
            run,
            responses,
            seen,
            index as nat,
        ).responses,
        count > index + 1 ==> handled(run, responses, seen, count).settlement is None,
    decreases count,
{
    run_stands_at_next_request(run, responses, seen, index as nat);
    let before = handled(run, responses, seen, index as nat);
    handling_follows_the_effect(before.run, before.responses, seen[index]);
    if count > index + 1 {
        closed_wait_ends_the_run(run, responses, seen, index, (count - 1) as nat);
    }
}

proof fn extends_is_transitive(longest: MessageView, longer: MessageView, shorter: MessageView)
    requires
        extends(longest, longer),
        extends(longer, shorter),
    ensures
        extends(longest, shorter),
{
    let n = shorter.content.len() as int;
    assert(longest.content.take(longer.content.len() as int).take(n) =~= longest.content.take(n));
}

proof fn with_control_response_extends(
    responses: ResponsesView,
    id: Seq<char>,
    provenance: ToolResponseProvenance,
    metadata: Option<JsonView>,
)
    ensures
        all_extend(with_control_response(responses, id, provenance, metadata), responses),
{
    let later = with_control_response(responses, id, provenance, metadata);
    assert(later.dom() =~= responses.dom());
    assert forall|other: Seq<char>| responses.contains_key(other) implies extends(
        #[trigger] later[other],
        responses[other],
    ) by {
        assert(later[other].content.take(responses[other].content.len() as int)
            =~= responses[other].content);
    }
}

/// No message is dropped or added, and none loses or changes a part: handling requests only adds
/// parts at the end of the messages that are there.
pub proof fn messages_only_grow(
    run: ApprovalView,
    responses: ResponsesView,
    seen: Seq<Observation>,
    from: nat,
    to: nat,
)
    requires
        is_fresh(run),
        seen.len() == run.requests.len(),
        from <= to <= run.requests.len(),
    ensures
        all_extend(
            handled(run, responses, seen, to).responses,
            handled(run, responses, seen, from).responses,
        ),
    decreases to - from,
{
    let earlier = handled(run, responses, seen, from).responses;
    if from == to {
        assert forall|id: Seq<char>| earlier.contains_key(id) implies extends(
            #[trigger] earlier[id],
            earlier[id],
        ) by {
            assert(earlier[id].content.take(earlier[id].content.len() as int)
                =~= earlier[id].content);
        }
    } else {
        let last = (to - 1) as nat;
        messages_only_grow(run, responses, seen, from, last);
        run_stands_at_next_request(run, responses, seen, last);
        let before = handled(run, responses, seen, last);
        let later = handled(run, responses, seen, to).responses;
        if comes_up(run, seen, last as int) {
            let request = run.requests[last as int];
            let effect = effect_on(request, seen[last as int]);
            handling_follows_the_effect(before.run, before.responses, seen[last as int]);
            if let Some(provenance) = refusal(effect) {
                with_control_response_extends(
                    before.responses,
                    request.id,
                    provenance,
                    request.metadata,
                );
                assert forall|id: Seq<char>| earlier.contains_key(id) implies extends(
                    #[trigger] later[id],
                    earlier[id],
                ) by {
                    extends_is_transitive(later[id], before.responses[id], earlier[id]);
                }
            }
        }
    }
}

/// A message stays as it is where no request whose call could be read has its id.
pub proof fn other_messages_stay(
    run: ApprovalView,
    responses: ResponsesView,
    seen: Seq<Observation>,
    id: Seq<char>,
    count: nat,
)
    requires
        is_fresh(run),
        seen.len() == run.requests.len(),
        count <= run.requests.len(),
        responses.contains_key(id),
        forall|i: int|
            0 <= i < run.requests.len() ==> (#[trigger] run.requests[i]).id == id
                ==> run.requests[i].tool_call is Err,
    ensures
        handled(run, responses, seen, count).responses.contains_key(id),
        handled(run, responses, seen, count).responses[id] == responses[id],
    decreases count,
{
    if count > 0 {
        let last = (count - 1) as nat;
        other_messages_stay(run, responses, seen, id, last);
        run_stands_at_next_request(run, responses, seen, last);
        if comes_up(run, seen, last as int) {
            let before = handled(run, responses, seen, last);
            handling_follows_the_effect(before.run, before.responses, seen[last as int]);
            assert(run.requests[last as int].id == id ==> run.requests[last as int].tool_call
                is Err);
        }
    }
}

/// A request that is refused is answered: in the end the message under its id holds the response
/// that says that the tool has not run and why, in the notice that belongs to the reason. The
/// response has the id and the metadata of the request.
pub proof fn refused_request_is_answered(
    run: ApprovalView,
    responses: ResponsesView,
    seen: Seq<Observation>,
    index: int,
    provenance: ToolResponseProvenance,
)
    requires
        is_fresh(run),
        seen.len() == run.requests.len(),
        0 <= index < run.requests.len(),
        comes_up(run, seen, index),
        refusal(effect_on(run.requests[index], seen[index])) == Some(provenance),
        responses.contains_key(run.requests[index].id),
    ensures
        ({
            let request = run.requests[index];
            let answer = control_response(request.id, provenance, request.metadata);
            let end = handled(run, responses, seen, run.requests.len()).responses;
            &&& end.contains_key(request.id)
            &&& end[request.id].content.contains(MessageContentView::ToolResponse(answer))
            &&& answer.is_canonical()
            &&& exists|place: int|
                0 <= place < end[request.id].content.len() && (
                #[trigger] end[request.id].content[place] matches
                    MessageContentView::ToolResponse(given) && given.id == request.id
                    && given.provenance == Some(provenance) && given.metadata == request.metadata
                    && (provenance is GooseDeniedBeforeExecution ==> given.body
                    == ToolResponseBody::Notice(ControlNotice::Declined)) && (
                provenance is GooseCancelledBeforeExecution ==> given.body
                    == ToolResponseBody::Notice(ControlNotice::Cancelled)))
        }),
{
    let request = run.requests[index];
    let answer = control_response(request.id, provenance, request.metadata);
    let part = MessageContentView::ToolResponse(answer);
    let after = handled(run, responses, seen, (index + 1) as nat).responses;
    let end = handled(run, responses, seen, run.requests.len()).responses;
    messages_only_grow(run, responses, seen, 0, index as nat);
    requests_are_handled_in_order(run, responses, seen, index);
    messages_only_grow(run, responses, seen, (index + 1) as nat, run.requests.len());
    assert(after.contains_key(request.id));
    let place = after[request.id].content.len() - 1;
    assert(after[request.id].content[place] == part);
    assert(extends(end[request.id], after[request.id]));
    assert(end[request.id].content[place] == end[request.id].content.take(
        after[request.id].content.len() as int,
    )[place]);
}

/// With no two requests of the same id, a message gets at most one answer in place of a tool: one
/// where its request is refused, and none where its request is run, passed over or never comes
/// up.
pub proof fn request_is_answered_at_most_once(
    run: ApprovalView,
    responses: ResponsesView,
    seen: Seq<Observation>,
    index: int,
    count: nat,
)
    requires
        is_fresh(run),
        seen.len() == run.requests.len(),
        0 <= index < run.requests.len(),
        count <= run.requests.len(),
        responses.contains_key(run.requests[index].id),
        forall|i: int, j: int|
            0 <= i < j < run.requests.len() ==> (#[trigger] run.requests[i]).id != (
            #[trigger] run.requests[j]).id,
    ensures
        ({
            let request = run.requests[index];
            let before = responses[request.id];
            let after = handled(run, responses, seen, count).responses;
            &&& after.contains_key(request.id)
            &&& after[request.id] == if index < count && comes_up(run, seen, index) {
                match refusal(effect_on(request, seen[index])) {
                    Some(provenance) => before.with_content(
                        MessageContentView::ToolResponse(
                            control_response(request.id, provenance, request.metadata),
                        ),
                    ),
                    None => before,
                }
            } else {
                before
            }
        }),
    decreases count,
{
    if count > 0 {
        let last = (count - 1) as nat;
        request_is_answered_at_most_once(run, responses, seen, index, last);
        run_stands_at_next_request(run, responses, seen, last);
        if comes_up(run, seen, last as int) {
            let before = handled(run, responses, seen, last);
            handling_follows_the_effect(before.run, before.responses, seen[last as int]);
            if last < index {
                assert(run.requests[last as int].id != run.requests[index].id);
            } else if index < last {
                assert(run.requests[index].id != run.requests[last as int].id);
            }
        }
    }
}

/// Once a run is cancelled, whether while the request at `since` waits for its answer or later,
/// no tool of that request or a later one is run, nothing more is asked, and each of these
/// requests that could be read is answered as cancelled, unless its wait ends without an answer.
pub proof fn cancelled_run_runs_nothing_more(
    run: ApprovalView,
    responses: ResponsesView,
    seen: Seq<Observation>,
    since: int,
    index: int,
)
    requires
        is_fresh(run),
        seen.len() == run.requests.len(),
        0 <= since <= index < run.requests.len(),
        seen[since].cancelled_before || seen[since].cancelled_after,
        forall|i: int| since < i < run.requests.len() ==> (#[trigger] seen[i]).cancelled_before,
        comes_up(run, seen, index),
    ensures
        ({
            let effect = effect_on(run.requests[index], seen[index]);
            let before = handled(run, responses, seen, index as nat);
            let asked = select_step(before.run, before.responses, seen[index].cancelled_before);
            &&& !(effect is Dispatched)
            &&& run.requests[index].tool_call is Ok && !(effect is Closed) ==> refusal(effect)
                == Some(ToolResponseProvenance::GooseCancelledBeforeExecution)
            &&& since < index ==> asked.action is None
        }),
{
    run_stands_at_next_request(run, responses, seen, index as nat);
    if since < index {
        assert(seen[index].cancelled_before);
    }
}

/// The question that comes up is about the first request that could be read and before which the
/// run was not cancelled; all requests before it have been passed over or answered as cancelled.
pub proof fn question_is_about_first_open_request(
    run: ApprovalView,
    responses: ResponsesView,
    polls: Seq<bool>,
)
    requires
        run.wf(),
        run.phase == ApprovalPhase::Selecting,
        select_steps(run, responses, polls).action matches Some(
            ApprovalActionView::Ask { index, request_id, message },
        ),
    ensures
        ({
            let step = select_steps(run, responses, polls);
            let index = step.action->0->Ask_index;
            &&& step.run == (ApprovalView {
                position: index,
                phase: ApprovalPhase::Awaiting,
                ..run
            })
            &&& run.position <= index < run.requests.len()
            &&& index - run.position < polls.len()
            &&& run.requests[index].tool_call is Ok
            &&& !polls[index - run.position]
            &&& forall|i: int|
                run.position <= i < index ==> (#[trigger] run.requests[i]).tool_call is Err
                    || polls[i - run.position]
            &&& !polls.contains(true) ==> step.responses == responses
        }),
    decreases polls.len(),
{
    let step = select_step(run, responses, polls[0]);
    if step.action is None {
        let rest = polls.drop_first();
        question_is_about_first_open_request(step.run, step.responses, rest);
        let index = select_steps(run, responses, polls).action->0->Ask_index;
        assert forall|i: int| run.position <= i < index implies (
        #[trigger] run.requests[i]).tool_call is Err || polls[i - run.position] by {
            if i > run.position {
                assert(step.run.requests[i].tool_call is Err || rest[i - step.run.position]);
            }
        }
        if !polls.contains(true) {
            assert(!polls[0]) by {
                if polls[0] {
                    assert(polls.contains(true));
                }
            }
            assert(!rest.contains(true)) by {
                if rest.contains(true) {
                    let i = choose|i: int| 0 <= i < rest.len() && rest[i];
                    assert(polls[i + 1]);
                    assert(polls.contains(true));
                }
            }
        }
    }
}

/// Handling requests goes on where it stopped: to handle `first` requests and then `more` is to
/// handle them all.
pub proof fn handling_goes_on_where_it_stopped(
    run: ApprovalView,
    responses: ResponsesView,
    seen: Seq<Observation>,
    first: nat,
    more: nat,
)
    requires
        first + more <= seen.len(),
    ensures
        ({
            let reached = handled(run, responses, seen, first);
            let later = handled(reached.run, reached.responses, seen.skip(first as int), more);
            let all = handled(run, responses, seen, first + more);
            &&& all.run == later.run
            &&& all.responses == later.responses
            &&& more > 0 ==> all.settlement == later.settlement
        }),
    decreases more,
{
    if more > 0 {
        handling_goes_on_where_it_stopped(run, responses, seen, first, (more - 1) as nat);
        assert(seen.skip(first as int)[more - 1] == seen[first + more - 1]);
    }
}

/// Looks at requests that leave the caller nothing to do are the handling of those requests.
pub proof fn looks_without_action_handle_requests(
    run: ApprovalView,
    responses: ResponsesView,
    polls: Seq<bool>,
    seen: Seq<Observation>,
)
    requires
        select_steps(run, responses, polls).action is None,
        polls.len() <= seen.len(),
        forall|i: int| 0 <= i < polls.len() ==> (#[trigger] seen[i]).cancelled_before == polls[i],
    ensures
        handled(run, responses, seen, polls.len()).run == select_steps(run, responses, polls).run,
        handled(run, responses, seen, polls.len()).responses == select_steps(
            run,
            responses,
            polls,
        ).responses,
    decreases polls.len(),
{
    if polls.len() > 0 {
        let step = select_step(run, responses, polls[0]);
        let rest = polls.drop_first();
        let later = seen.skip(1);
        assert forall|i: int| 0 <= i < rest.len() implies (#[trigger] later[i]).cancelled_before
            == rest[i] by {
            assert(seen[i + 1].cancelled_before == polls[i + 1]);
        }
        looks_without_action_handle_requests(step.run, step.responses, rest, later);
        assert(handled(run, responses, seen, 0).run == run);
        handling_goes_on_where_it_stopped(run, responses, seen, 1, rest.len());
    }
}

/// A round is the handling of the requests up to the one asked about: looking for the next
/// question and acting on its answer leave the run and its messages as handling these requests
/// does, and the same follows from the answer.
pub proof fn round_handles_requests(
    run: ApprovalView,
    responses: ResponsesView,
    polls: Seq<bool>,
    seen: Seq<Observation>,
)
    requires
        run.wf(),
        run.phase == ApprovalPhase::Selecting,
        select_steps(run, responses, polls).action matches Some(
            ApprovalActionView::Ask { index, request_id, message },
        ),
        ({
            let last = select_steps(run, responses, polls).run.position - run.position;
            &&& last < seen.len()
            &&& forall|i: int|
                0 <= i <= last ==> (#[trigger] seen[i]).cancelled_before == polls[i]
        }),
    ensures
        ({
            let asked = select_steps(run, responses, polls);
            let last = asked.run.position - run.position;
            let settled = settle_step(
                asked.run,
                asked.responses,
                seen[last].confirmation,
                seen[last].finding,
                seen[last].cancelled_after,
            );
            &&& 0 <= last
            &&& handled(run, responses, seen, (last + 1) as nat) == (Handled {
                run: settled.run,
                responses: settled.responses,
                settlement: settled.settlement,
            })
        }),
    decreases polls.len(),
{
    question_is_about_first_open_request(run, responses, polls);
    let asked = select_steps(run, responses, polls);
    let last = asked.run.position - run.position;
    let step = select_step(run, responses, polls[0]);
    assert(seen[0].cancelled_before == polls[0]);
    assert(handled(run, responses, seen, 0).run == run);
    assert(handled(run, responses, seen, 1) == handle_current(run, responses, seen[0]));
    if step.action is None {
        let rest = polls.drop_first();
        let later = seen.skip(1);
        question_is_about_first_open_request(step.run, step.responses, rest);
        assert forall|i: int| 0 <= i <= last - 1 implies (#[trigger] later[i]).cancelled_before
            == rest[i] by {
            assert(seen[i + 1].cancelled_before == polls[i + 1]);
        }
        round_handles_requests(step.run, step.responses, rest, later);
        assert(later[last - 1] == seen[last]);
        handling_goes_on_where_it_stopped(run, responses, seen, 1, last as nat);
    }
}

/// The last look, which finds nothing more to ask, is the handling of the requests that are left:
/// it leaves the messages as handling them does, and the run has ended.
pub proof fn last_look_handles_what_is_left(
    run: ApprovalView,
    responses: ResponsesView,
    polls: Seq<bool>,
    seen: Seq<Observation>,
)
    requires
        run.wf(),
        run.phase == ApprovalPhase::Selecting,
        select_steps(run, responses, polls).action == Some(ApprovalActionView::Finished),
        seen.len() == run.requests.len() - run.position,
        forall|i: int|
            0 <= i < seen.len() && i < polls.len() ==> (#[trigger] seen[i]).cancelled_before
                == polls[i],
    ensures
        ({
            let end = handled(run, responses, seen, seen.len());
            let look = select_steps(run, responses, polls);
            &&& look.responses == end.responses
            &&& look.run == end.run.in_phase(ApprovalPhase::Ended)
            &&& end.run.position == run.requests.len()
        }),
    decreases polls.len(),
{
    let step = select_step(run, responses, polls[0]);
    if step.action is None {
        let rest = polls.drop_first();
        let later = seen.skip(1);
        assert(seen[0].cancelled_before == polls[0]);
        assert forall|i: int| 0 <= i < later.len() && i < rest.len() implies (
        #[trigger] later[i]).cancelled_before == rest[i] by {
            assert(seen[i + 1].cancelled_before == polls[i + 1]);
        }
        last_look_handles_what_is_left(step.run, step.responses, rest, later);
        assert(handled(run, responses, seen, 0).run == run);
        assert(handled(run, responses, seen, 1) == handle_current(run, responses, seen[0]));
        handling_goes_on_where_it_stopped(run, responses, seen, 1, later.len());
    }
}

/// A tool is run on an answer that allows it, once or always, in a run that is not cancelled, and
/// on no other.
pub proof fn only_allowing_answers_run_a_tool(permission: Permission, cancelled: bool)
    ensures
        verdict_on(permission, cancelled) == Verdict::Dispatch <==> !cancelled && (
        permission == Permission::AllowOnce || permission == Permission::AlwaysAllow),
{
}

/// What is remembered of an answer about a request: never to allow its tool where the user denies
/// it for good, always to allow it where the user allows it for good in a run that is not
/// cancelled, and nothing else. A security finding and the token's part in the answer have no say
/// in it.
pub proof fn update_follows_the_answer_alone(
    request: ToolRequestView,
    outcome: ConfirmationOutcome,
    finding: Option<Seq<char>>,
    cancelled: bool,
)
    ensures
        ({
            let update = settlement_of(request, outcome, finding, cancelled).permission_update;
            let permission = outcome.confirmation.permission;
            let tool_name = params_name(request.tool_call->Ok_0);
            &&& permission == Permission::AlwaysDeny ==> update == Some(
                (tool_name, PermissionLevel::NeverAllow),
            )
            &&& permission == Permission::AlwaysAllow && !cancelled ==> update == Some(
                (tool_name, PermissionLevel::AlwaysAllow),
            )
            &&& update is Some ==> permission == Permission::AlwaysDeny || (permission
                == Permission::AlwaysAllow && !cancelled)
        }),
{
}

/// The call of a request is dispatched, under the id of the request, on an answer that allows it
/// in a run that is not cancelled, and otherwise nothing is. A security finding and the token's
/// part in the answer have no say in it.
pub proof fn dispatch_follows_the_answer_alone(
    request: ToolRequestView,
    outcome: ConfirmationOutcome,
    finding: Option<Seq<char>>,
    cancelled: bool,
)
    ensures
        ({
            let dispatch = settlement_of(request, outcome, finding, cancelled).dispatch;
            let permission = outcome.confirmation.permission;
            &&& dispatch is Some <==> !cancelled && (permission == Permission::AllowOnce
                || permission == Permission::AlwaysAllow)
            &&& dispatch matches Some(call) ==> call.request_id == request.id && call.tool_call
                == request.tool_call->Ok_0
        }),
{
}

/// What is reported of an answer about a request with a security finding: the finding, the id of
/// the request, the answer, and that the tool was allowed or blocked by it. An answer that is not
/// the user's own is not reported, and neither is one about a request without a finding. Whether
/// the run is cancelled has no say in it.
pub proof fn report_gives_the_answer(
    request: ToolRequestView,
    outcome: ConfirmationOutcome,
    finding: Option<Seq<char>>,
    cancelled: bool,
)
    ensures
        ({
            let decision = settlement_of(request, outcome, finding, cancelled).decision;
            let permission = outcome.confirmation.permission;
            &&& finding is None || outcome.cancelled_by_token ==> decision is None
            &&& finding is Some && !outcome.cancelled_by_token ==> {
                &&& decision is Some
                &&& Some(decision->0.finding_id) == finding
                &&& decision->0.request_id == request.id
                &&& decision->0.permission == permission
                &&& permission is AllowOnce || permission is AlwaysAllow ==> decision->0.action
                    == "ALLOW"@
                &&& permission is Cancel || permission is DenyOnce || permission is AlwaysDeny
                    ==> decision->0.action == "BLOCK"@
            }
        }),
{
}

/// What follows from an answer is seen as it is, field by field.
pub proof fn settlement_is_seen_as_it_is(settlement: Settlement, closed: ConfirmationClosed)
    ensures
        settlement_view(None) is None,
        settlement_view(Some(Err(closed))) == Some(
            Err::<SettlementView, Seq<char>>(closed.request_id@),
        ),
        settlement_view(Some(Ok(settlement))) == Some(
            Ok::<SettlementView, Seq<char>>(settlement@),
        ),
        settlement@.decision is Some <==> settlement.decision is Some,
        settlement.decision matches Some(decision) ==> {
            &&& settlement@.decision->0.finding_id == decision.finding_id@
            &&& settlement@.decision->0.request_id == decision.request_id@
            &&& settlement@.decision->0.action == decision.action@
            &&& settlement@.decision->0.permission == decision.permission
        },
        settlement@.dispatch is Some <==> settlement.dispatch is Some,
        settlement.dispatch matches Some(dispatch) ==> {
            &&& settlement@.dispatch->0.request_id == dispatch.request_id@
            &&& settlement@.dispatch->0.tool_call == dispatch.tool_call@
        },
        settlement@.permission_update is Some <==> settlement.permission_update is Some,
        settlement.permission_update matches Some(update) ==> settlement@.permission_update
            == Some((update.tool_name@, update.level)),
{
}

/// What the caller is to do is seen as it is, a question with the place and the id of its request
/// and the message that asks it.
pub proof fn action_is_seen_as_it_is(action: ApprovalAction)
    ensures
        action_view(None) is None,
        action_view(Some(action)) == Some(action@),
        action@ is Waiting <==> action is Waiting,
        action@ is Finished <==> action is Finished,
        action matches ApprovalAction::Ask { index, request_id, message } ==> action@ == (
        ApprovalActionView::Ask { index: index as int, request_id: request_id@, message: message@ }),
{
}

/// The user is asked in a message of the assistant that the model is not shown. Its one part has
/// the id of the request, the name of the tool, the arguments of the call, none where the call has
/// none, and the reason why the user is asked.
pub proof fn question_shows_the_call(
    request: ToolRequestView,
    inspection_results: Seq<InspectionResultView>,
)
    ensures
        ({
            let message = question(request, inspection_results);
            &&& message.role == Role::Assistant
            &&& message.user_visible
            &&& !message.agent_visible
            &&& message.content.len() == 1
            &&& message.content[0] matches MessageContentView::ActionRequired {
                id,
                tool_name,
                arguments,
                prompt,
            }
            &&& id == request.id
            &&& tool_name == params_name(request.tool_call->Ok_0)
            &&& params_arguments(request.tool_call->Ok_0) matches Some(given) ==> arguments
                == given
            &&& params_arguments(request.tool_call->Ok_0) is None ==> arguments
                == JsonView::empty()
            &&& prompt == reason_for(inspection_results, request.id)
        }),
{
}

/// A look at a request does one of four things. Where no request is left, the run ends. A request
/// whose call could not be read is passed over. In a cancelled run the request is passed over too,
/// and its message gets the response that it was cancelled. Otherwise the user is asked about that
/// very request, and the messages stay as they are. A run that waits or has ended stays as it is.
pub proof fn look_does_one_thing(run: ApprovalView, responses: ResponsesView, cancelled: bool)
    requires
        0 <= run.position <= run.requests.len(),
    ensures
        ({
            let step = select_step(run, responses, cancelled);
            let request = run.requests[run.position];
            let left = run.position < run.requests.len();
            &&& step.run.requests == run.requests
            &&& step.run.inspection_results == run.inspection_results
            &&& run.phase is Awaiting ==> step.run == run && step.responses == responses
                && step.action == Some(ApprovalActionView::Waiting)
            &&& run.phase is Ended ==> step.run == run && step.responses == responses
                && step.action == Some(ApprovalActionView::Finished)
            &&& run.phase is Selecting && !left ==> {
                &&& step.run.phase is Ended
                &&& step.run.position == run.position
                &&& step.responses == responses
                &&& step.action == Some(ApprovalActionView::Finished)
            }
            &&& run.phase is Selecting && left && request.tool_call is Err ==> {
                &&& step.run.phase is Selecting
                &&& step.run.position == run.position + 1
                &&& step.responses == responses
                &&& step.action is None
            }
            &&& run.phase is Selecting && left && request.tool_call is Ok && cancelled ==> {
                &&& step.run.phase is Selecting
                &&& step.run.position == run.position + 1
                &&& step.responses == with_control_response(
                    responses,
                    request.id,
                    ToolResponseProvenance::GooseCancelledBeforeExecution,
                    request.metadata,
                )
                &&& step.action is None
            }
            &&& run.phase is Selecting && left && request.tool_call is Ok && !cancelled ==> {
                &&& step.run.phase is Awaiting
                &&& step.run.position == run.position
                &&& step.responses == responses
                &&& step.action == Some(
                    ApprovalActionView::Ask {
                        index: run.position,
                        request_id: request.id,
                        message: question(request, run.inspection_results),
                    },
                )
            }
        }),
{
}

/// The end of a wait does one thing. A channel that was closed ends the run with the id that it
/// was closed for, and the messages stay as they are. An answer takes the run on to the next
/// request; the message of the request gets the response that it was cancelled where the run is
/// cancelled or the user cancels, the response that it was denied where the user denies it, and
/// none where its tool is run. A run that is not waiting stays as it is.
pub proof fn end_of_a_wait_does_one_thing(
    run: ApprovalView,
    responses: ResponsesView,
    confirmation: Result<ConfirmationOutcome, Seq<char>>,
    finding: Option<Seq<char>>,
    cancelled: bool,
)
    ensures
        ({
            let step = settle_step(run, responses, confirmation, finding, cancelled);
            let request = run.requests[run.position];
            &&& step.run.requests == run.requests
            &&& step.run.inspection_results == run.inspection_results
            &&& !(run.phase is Awaiting) ==> step.run == run && step.responses == responses
                && step.settlement is None
            &&& run.phase is Awaiting && confirmation is Err ==> {
                &&& step.run.phase is Ended
                &&& step.run.position == run.position
                &&& step.responses == responses
                &&& step.settlement == Some(
                    Err::<SettlementView, Seq<char>>(confirmation->Err_0),
                )
            }
            &&& run.phase is Awaiting && confirmation is Ok ==> {
                let permission = confirmation->Ok_0.confirmation.permission;
                &&& step.run.phase is Selecting
                &&& step.run.position == run.position + 1
                &&& step.settlement == Some(
                    Ok::<SettlementView, Seq<char>>(
                        settlement_of(request, confirmation->Ok_0, finding, cancelled),
                    ),
                )
                &&& cancelled || permission is Cancel ==> step.responses == with_control_response(
                    responses,
                    request.id,
                    ToolResponseProvenance::GooseCancelledBeforeExecution,
                    request.metadata,
                )
                &&& !cancelled && (permission is DenyOnce || permission is AlwaysDeny)
                    ==> step.responses == with_control_response(
                    responses,
                    request.id,
                    ToolResponseProvenance::GooseDeniedBeforeExecution,
                    request.metadata,
                )
                &&& !cancelled && (permission is AllowOnce || permission is AlwaysAllow)
                    ==> step.responses == responses
            }
        }),
{
}

/// What becomes of a request rests on whether it could be read, on the cancellation of the run
/// before the user is asked and after the answer, and on the answer, and on nothing else.
pub proof fn effect_rests_on_cancellation_and_answer(request: ToolRequestView, seen: Observation)
    ensures
        ({
            let effect = effect_on(request, seen);
            let asked = request.tool_call is Ok && !seen.cancelled_before;
            let answered = asked && seen.confirmation is Ok;
            let permission = seen.confirmation->Ok_0.confirmation.permission;
            &&& effect is Skipped <==> request.tool_call is Err
            &&& effect is CancelledUnasked <==> request.tool_call is Ok && seen.cancelled_before
            &&& effect is Closed <==> asked && seen.confirmation is Err
            &&& effect is Dispatched <==> answered && !seen.cancelled_after && (
            permission is AllowOnce || permission is AlwaysAllow)
            &&& effect == RequestEffect::Refused(
                ToolResponseProvenance::GooseCancelledBeforeExecution,
            ) <==> answered && (seen.cancelled_after || permission is Cancel)
            &&& effect == RequestEffect::Refused(
                ToolResponseProvenance::GooseDeniedBeforeExecution,
            ) <==> answered && !seen.cancelled_after && (permission is DenyOnce
                || permission is AlwaysDeny)
            &&& refusal(effect) is None <==> effect is Skipped || effect is Dispatched
                || effect is Closed
            &&& effect is CancelledUnasked ==> refusal(effect) == Some(
                ToolResponseProvenance::GooseCancelledBeforeExecution,
            )
            &&& effect matches RequestEffect::Refused(reason) ==> refusal(effect) == Some(reason)
        }),
{
}

/// Looking for something to do passes over the requests that could not be read or before which the
/// run was cancelled, one for each look, and stops at the first other one, about which it asks, or
/// behind the last one, where the run ends. With no looks left it stands at the next request.
pub proof fn looks_stop_where_there_is_something_to_do(
    run: ApprovalView,
    responses: ResponsesView,
    polls: Seq<bool>,
)
    requires
        run.phase == ApprovalPhase::Selecting,
        0 <= run.position <= run.requests.len(),
    ensures
        ({
            let end = select_steps(run, responses, polls);
            let reached = end.run.position;
            &&& end.run.requests == run.requests
            &&& end.run.inspection_results == run.inspection_results
            &&& run.position <= reached <= run.requests.len()
            &&& reached - run.position <= polls.len()
            &&& forall|i: int|
                run.position <= i < reached ==> (#[trigger] run.requests[i]).tool_call is Err
                    || polls[i - run.position]
            &&& end.action is None <==> reached - run.position == polls.len()
            &&& end.action is None ==> end.run.phase is Selecting
            &&& end.action is Some && reached == run.requests.len() ==> end.run.phase is Ended
                && end.action == Some(ApprovalActionView::Finished)
            &&& end.action is Some && reached < run.requests.len() ==> {
                &&& end.run.phase is Awaiting
                &&& run.requests[reached].tool_call is Ok
                &&& !polls[reached - run.position]
                &&& end.action == Some(
                    ApprovalActionView::Ask {
                        index: reached,
                        request_id: run.requests[reached].id,
                        message: question(run.requests[reached], run.inspection_results),
                    },
                )
            }
        }),
    decreases polls.len(),
{
    if polls.len() > 0 {
        look_does_one_thing(run, responses, polls[0]);
        let step = select_step(run, responses, polls[0]);
        if step.action is None {
            let rest = polls.drop_first();
            looks_stop_where_there_is_something_to_do(step.run, step.responses, rest);
            let reached = select_steps(run, responses, polls).run.position;
            assert forall|i: int| run.position <= i < reached implies (
            #[trigger] run.requests[i]).tool_call is Err || polls[i - run.position] by {
                if i > run.position {
                    assert(step.run.requests[i].tool_call is Err || rest[i - step.run.position]);
                }
            }
        }
    }
}

/// With no two requests of the same id, looking for something to do adds to the message of each
/// readable request that it passes over the one response that the request was cancelled, and
/// leaves all other messages as they are.
pub proof fn looks_answer_the_requests_they_pass_over(
    run: ApprovalView,
    responses: ResponsesView,
    polls: Seq<bool>,
    index: int,
)
    requires
        run.phase == ApprovalPhase::Selecting,
        0 <= run.position <= run.requests.len(),
        0 <= index < run.requests.len(),
        responses.contains_key(run.requests[index].id),
        forall|i: int, j: int|
            0 <= i < j < run.requests.len() ==> (#[trigger] run.requests[i]).id != (
            #[trigger] run.requests[j]).id,
    ensures
        ({
            let end = select_steps(run, responses, polls);
            let request = run.requests[index];
            let before = responses[request.id];
            let after = end.responses[request.id];
            let passed = run.position <= index < end.run.position && request.tool_call is Ok;
            &&& end.responses.dom() == responses.dom()
            &&& !passed ==> after == before
            &&& passed ==> {
                &&& after.role == before.role
                &&& after.user_visible == before.user_visible
                &&& after.agent_visible == before.agent_visible
                &&& after.content == before.content.push(
                    MessageContentView::ToolResponse(
                        ToolResponseView {
                            id: request.id,
                            body: ToolResponseBody::Notice(ControlNotice::Cancelled),
                            provenance: Some(
                                ToolResponseProvenance::GooseCancelledBeforeExecution,
                            ),
                            metadata: request.metadata,
                        },
                    ),
                )
            }
        }),
    decreases polls.len(),
{
    if polls.len() > 0 {
        look_does_one_thing(run, responses, polls[0]);
        let step = select_step(run, responses, polls[0]);
        if step.action is None {
            let rest = polls.drop_first();
            let current = run.requests[run.position];
            assert(step.responses.dom() =~= responses.dom());
            looks_answer_the_requests_they_pass_over(step.run, step.responses, rest, index);
            looks_stop_where_there_is_something_to_do(step.run, step.responses, rest);
            if index < run.position {
                assert(run.requests[index].id != current.id);
            } else if run.position < index {
                assert(current.id != run.requests[index].id);
            }
        }
    }
}

/// With no two requests of the same id, a run leaves in the message of a request that came up the
/// one response that its tool was cancelled or denied, whichever it was, and nothing where the
/// tool is run, the call could not be read or the answer never came.
pub proof fn each_request_gets_the_answer_it_is_due(
    run: ApprovalView,
    responses: ResponsesView,
    seen: Seq<Observation>,
    index: int,
)
    requires
        is_fresh(run),
        seen.len() == run.requests.len(),
        0 <= index < run.requests.len(),
        comes_up(run, seen, index),
        responses.contains_key(run.requests[index].id),
        forall|i: int, j: int|
            0 <= i < j < run.requests.len() ==> (#[trigger] run.requests[i]).id != (
            #[trigger] run.requests[j]).id,
    ensures
        ({
            let request = run.requests[index];
            let before = responses[request.id];
            let after = handled(run, responses, seen, run.requests.len()).responses[request.id];
            let asked = request.tool_call is Ok && !seen[index].cancelled_before;
            let answered = asked && seen[index].confirmation is Ok;
            let permission = seen[index].confirmation->Ok_0.confirmation.permission;
            let cancelled = request.tool_call is Ok && (seen[index].cancelled_before || (answered
                && (seen[index].cancelled_after || permission is Cancel)));
            let denied = answered && !seen[index].cancelled_after && (permission is DenyOnce
                || permission is AlwaysDeny);
            &&& after.role == before.role
            &&& after.user_visible == before.user_visible
            &&& after.agent_visible == before.agent_visible
            &&& cancelled ==> after.content == before.content.push(
                MessageContentView::ToolResponse(
                    ToolResponseView {
                        id: request.id,
                        body: ToolResponseBody::Notice(ControlNotice::Cancelled),
                        provenance: Some(ToolResponseProvenance::GooseCancelledBeforeExecution),
                        metadata: request.metadata,
                    },
                ),
            )
            &&& denied ==> after.content == before.content.push(
                MessageContentView::ToolResponse(
                    ToolResponseView {
                        id: request.id,
                        body: ToolResponseBody::Notice(ControlNotice::Declined),
                        provenance: Some(ToolResponseProvenance::GooseDeniedBeforeExecution),
                        metadata: request.metadata,
                    },
                ),
            )
            &&& !cancelled && !denied ==> after.content == before.content
        }),
{
    request_is_answered_at_most_once(run, responses, seen, index, run.requests.len());
    effect_rests_on_cancellation_and_answer(run.requests[index], seen[index]);
}

} // verus!
