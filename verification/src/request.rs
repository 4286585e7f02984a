//! Requests of a model to call a tool, and what inspecting them has found.

use crate::interop::{
    copy_json, json_members, json_opt, params_arguments, params_clone, params_name, read_arguments, read_name,
    JsonView, ToolResult,
};
use rmcp::model::{CallToolRequestParams, ErrorData, JsonObject};
use vstd::prelude::*;

verus! {

/// A call of a tool: the call as the protocol carries it, with the tool's name and the arguments,
/// where there are any, read from it.
pub struct ToolCall {
    name: String,
    arguments: Option<JsonObject>,
    params: CallToolRequestParams,
}

impl View for ToolCall {
    type V = CallToolRequestParams;

    closed spec fn view(&self) -> CallToolRequestParams {
        self.params
    }
}

impl Clone for ToolCall {
    fn clone(&self) -> (copy: Self)
        ensures
            copy@ == self@,
    {
        proof {
            use_type_invariant(self);
        }
        ToolCall {
            name: self.name.clone(),
            arguments: copy_json(self.arguments.as_ref()),
            params: params_clone(&self.params),
        }
    }
}

impl ToolCall {
    /// The name and the arguments are those of the call.
    #[verifier::type_invariant]
    spec fn read_from_params(self) -> bool {
        &&& self.name@ == params_name(self.params)
        &&& json_opt(self.arguments) == params_arguments(self.params)
    }

    /// The tool call that the protocol carries as `params`.
    pub fn new(params: CallToolRequestParams) -> (call: ToolCall)
        ensures
            call@ == params,
    {
        ToolCall { name: read_name(&params), arguments: read_arguments(&params), params }
    }

    /// The name of the tool.
    pub fn name(&self) -> (name: &String)
        ensures
            name@ == params_name(self@),
    {
        proof {
            use_type_invariant(self);
        }
        &self.name
    }

    /// The arguments, where there are any.
    pub fn arguments(&self) -> (arguments: &Option<JsonObject>)
        ensures
            json_opt(*arguments) == params_arguments(self@),
    {
        proof {
            use_type_invariant(self);
        }
        &self.arguments
    }

    /// The call as the protocol carries it.
    pub fn params(&self) -> (params: &CallToolRequestParams)
        ensures
            *params == self@,
    {
        &self.params
    }
}

/// A request to call a tool. A request whose call could not be read carries the error instead.
pub struct ToolRequest {
    pub id: String,
    pub tool_call: ToolResult<ToolCall>,
    pub metadata: Option<JsonObject>,
}

/// A tool request as a value.
pub struct ToolRequestView {
    pub id: Seq<char>,
    pub tool_call: Result<CallToolRequestParams, ErrorData>,
    pub metadata: Option<JsonView>,
}

/// The outcome of reading a tool call as a value.
pub open spec fn call_view(tool_call: ToolResult<ToolCall>) -> Result<
    CallToolRequestParams,
    ErrorData,
> {
    match tool_call {
        Ok(call) => Ok(call@),
        Err(error) => Err(error),
    }
}

impl View for ToolRequest {
    type V = ToolRequestView;

    open spec fn view(&self) -> ToolRequestView {
        ToolRequestView {
            id: self.id@,
            tool_call: call_view(self.tool_call),
            metadata: json_opt(self.metadata),
        }
    }
}

/// The values of a list of tool requests.
pub open spec fn requests_view(requests: Seq<ToolRequest>) -> Seq<ToolRequestView> {
    requests.map_values(|request: ToolRequest| request@)
}

/// What an inspector wants done with a tool request. An inspector that wants the user asked may
/// say why.
pub enum InspectionAction {
    Allow,
    Deny,
    RequireApproval(Option<String>),
}

/// What an inspector found about the tool request of the given id.
pub struct InspectionResult {
    pub tool_request_id: String,
    pub action: InspectionAction,
}

/// What an inspector wants done, as a value.
pub enum InspectionActionView {
    Allow,
    Deny,
    RequireApproval(Option<Seq<char>>),
}

impl View for InspectionAction {
    type V = InspectionActionView;

    open spec fn view(&self) -> InspectionActionView {
        match *self {
            InspectionAction::Allow => InspectionActionView::Allow,
            InspectionAction::Deny => InspectionActionView::Deny,
            InspectionAction::RequireApproval(reason) => InspectionActionView::RequireApproval(
                match reason {
                    Some(reason) => Some(reason@),
                    None => None,
                },
            ),
        }
    }
}

/// An inspection result as a value.
pub struct InspectionResultView {
    pub tool_request_id: Seq<char>,
    pub action: InspectionActionView,
}

impl InspectionResultView {
    /// The reason that the user is to be given, where the inspector wants the user asked and says
    /// why.
    pub open spec fn reason(self) -> Option<Seq<char>> {
        match self.action {
            InspectionActionView::RequireApproval(reason) => reason,
            _ => None,
        }
    }
}

impl View for InspectionResult {
    type V = InspectionResultView;

    open spec fn view(&self) -> InspectionResultView {
        InspectionResultView {
            tool_request_id: self.tool_request_id@,
            action: self.action@,
        }
    }
}

/// The values of a list of inspection results.
pub open spec fn inspections_view(results: Seq<InspectionResult>) -> Seq<InspectionResultView> {
    results.map_values(|result: InspectionResult| result@)
}

/// Whether the result at `index` is the first one about the request `id`.
pub open spec fn is_first_about(
    results: Seq<InspectionResultView>,
    id: Seq<char>,
    index: int,
) -> bool {
    &&& 0 <= index < results.len()
    &&& results[index].tool_request_id == id
    &&& forall|earlier: int|
        0 <= earlier < index ==> (#[trigger] results[earlier]).tool_request_id != id
}

/// The reason with which the user is asked about the request `id`: that of the first result about
/// the request. Later results about the same request are not looked at.
pub open spec fn reason_for(results: Seq<InspectionResultView>, id: Seq<char>) -> Option<Seq<char>> {
    if exists|index: int| is_first_about(results, id, index) {
        results[choose|index: int| is_first_about(results, id, index)].reason()
    } else {
        None
    }
}

/// Results about other requests have no say in the reason: where a result is the first about the
/// request, its reason is the reason, and where no result is about the request there is none.
pub proof fn reason_is_that_of_first_result(results: Seq<InspectionResultView>, id: Seq<char>)
    ensures
        forall|index: int| #[trigger]
            is_first_about(results, id, index) ==> reason_for(results, id) == results[index].reason(),
        (forall|index: int|
            0 <= index < results.len() ==> (#[trigger] results[index]).tool_request_id != id)
            ==> reason_for(results, id) is None,
{
    assert forall|index: int| #[trigger] is_first_about(results, id, index) implies reason_for(
        results,
        id,
    ) == results[index].reason() by {
        let chosen = choose|i: int| is_first_about(results, id, i);
        assert(is_first_about(results, id, chosen));
        if chosen < index {
            assert(results[chosen].tool_request_id != id);
        } else if index < chosen {
            assert(results[index].tool_request_id != id);
        }
    }
}

/// The reason that the user is given when asked about the request `id`.
pub fn security_message(results: &Vec<InspectionResult>, id: &String) -> (message: Option<String>)
    ensures
        reason_for(inspections_view(results@), id@) == match message {
            Some(text) => Some(text@),
            None => None,
        },
{
    let ghost views = inspections_view(results@);
    for i in 0..results.len()
        invariant
            views == inspections_view(results@),
            forall|j: int| 0 <= j < i ==> (#[trigger] views[j]).tool_request_id != id@,
    {
        assert(views[i as int] == results@[i as int]@);
        if results[i].tool_request_id == *id {
            proof {
                assert(is_first_about(views, id@, i as int));
                reason_is_that_of_first_result(views, id@);
            }
            return match &results[i].action {
                InspectionAction::RequireApproval(Some(reason)) => Some(reason.clone()),
                _ => None,
            };
        }
    }
    proof {
        reason_is_that_of_first_result(views, id@);
    }
    None
}

/// The reason that the user is given is the one that the first result about the request gives,
/// where that result wants the user asked and says why. Where it does not, no reason is given,
/// whatever later results say.
pub proof fn first_result_about_a_request_decides(
    results: Seq<InspectionResult>,
    id: Seq<char>,
    index: int,
)
    requires
        0 <= index < results.len(),
        results[index].tool_request_id@ == id,
        forall|earlier: int|
            0 <= earlier < index ==> (#[trigger] results[earlier]).tool_request_id@ != id,
    ensures
        results[index].action matches InspectionAction::RequireApproval(Some(reason))
            ==> reason_for(inspections_view(results), id) == Some(reason@),
        results[index].action == InspectionAction::RequireApproval(None) || results[index].action
            is Allow || results[index].action is Deny ==> reason_for(inspections_view(results), id)
            is None,
{
    let views = inspections_view(results);
    assert forall|earlier: int| 0 <= earlier < index implies (
    #[trigger] views[earlier]).tool_request_id != id by {
        assert(results[earlier].tool_request_id@ != id);
    }
    assert(is_first_about(views, id, index));
    reason_is_that_of_first_result(views, id);
}

/// Without a result about the request the user is given no reason.
pub proof fn request_without_results_has_no_reason(results: Seq<InspectionResult>, id: Seq<char>)
    requires
        forall|i: int| 0 <= i < results.len() ==> (#[trigger] results[i]).tool_request_id@ != id,
    ensures
        reason_for(inspections_view(results), id) is None,
{
    let views = inspections_view(results);
    assert forall|i: int| 0 <= i < views.len() implies (#[trigger] views[i]).tool_request_id
        != id by {
        assert(results[i].tool_request_id@ != id);
    }
    reason_is_that_of_first_result(views, id);
}

/// A list of requests is seen as it is: each request in its place, with its id, its call or the
/// error in place of it, and its metadata.
pub proof fn requests_are_seen_as_they_are(requests: Seq<ToolRequest>, index: int)
    requires
        0 <= index < requests.len(),
    ensures
        requests_view(requests).len() == requests.len(),
        ({
            let seen = requests_view(requests)[index];
            let request = requests[index];
            &&& seen == request@
            &&& seen.id == request.id@
            &&& request.tool_call matches Ok(call) ==> seen.tool_call == Ok::<
                CallToolRequestParams,
                ErrorData,
            >(call@)
            &&& request.tool_call matches Err(error) ==> seen.tool_call == Err::<
                CallToolRequestParams,
                ErrorData,
            >(error)
            &&& seen.metadata is Some <==> request.metadata is Some
            &&& request.metadata matches Some(metadata) ==> seen.metadata == Some(
                json_members(metadata),
            )
        }),
{
}

/// A list of inspection results is seen as it is: each result in its place, with the request that
/// it is about and what it wants done.
pub proof fn inspections_are_seen_as_they_are(results: Seq<InspectionResult>, index: int)
    requires
        0 <= index < results.len(),
    ensures
        inspections_view(results).len() == results.len(),
        ({
            let seen = inspections_view(results)[index];
            let result = results[index];
            &&& seen.tool_request_id == result.tool_request_id@
            &&& seen.action is Allow <==> result.action is Allow
            &&& seen.action is Deny <==> result.action is Deny
            &&& result.action matches InspectionAction::RequireApproval(Some(reason))
                ==> seen.action == InspectionActionView::RequireApproval(Some(reason@))
            &&& result.action == InspectionAction::RequireApproval(None) ==> seen.action
                == InspectionActionView::RequireApproval(None)
        }),
{
}

} // verus!
