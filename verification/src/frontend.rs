//! Having the frontend run a tool of its own.
//!
//! A [`FrontendRun`] is about one tool request. The caller looks up whether the tool is one of
//! the frontend's, shows the request to the frontend if so, and waits for what comes back.

use crate::interop::{params_name, ToolResult};
use crate::message::{
    Message, MessageContentView, MessageView, Role, ToolResponseBody, ToolResponseView,
};
use crate::request::{ToolRequest, ToolRequestView};
use rmcp::model::CallToolResult;
use vstd::prelude::*;

verus! {

/// Where a run stands.
#[derive(Clone, Copy, Debug, PartialEq, Eq, Structural)]
pub enum FrontendPhase {
    /// Whether the tool is one of the frontend's is to be looked up.
    Unchecked,
    /// The frontend has been shown the request.
    Awaiting,
    /// Nothing more is to be done.
    Ended,
}

/// The handling of a tool request that may be for the frontend.
pub struct FrontendRun {
    request: ToolRequest,
    phase: FrontendPhase,
}

/// A run as a value.
pub struct FrontendView {
    pub request: ToolRequestView,
    pub phase: FrontendPhase,
}

impl FrontendView {
    /// There is something left to do only for a request whose call could be read.
    pub open spec fn wf(self) -> bool {
        self.phase != FrontendPhase::Ended ==> self.request.tool_call is Ok
    }

    /// The run in another phase.
    pub open spec fn in_phase(self, phase: FrontendPhase) -> FrontendView {
        FrontendView { phase, ..self }
    }
}

impl View for FrontendRun {
    type V = FrontendView;

    closed spec fn view(&self) -> FrontendView {
        FrontendView { request: self.request@, phase: self.phase }
    }
}

/// The message that shows a tool request to the frontend.
pub open spec fn frontend_message(request: ToolRequestView) -> MessageView {
    MessageView::empty(Role::Assistant).with_content(
        MessageContentView::FrontendToolRequest { id: request.id, tool_call: request.tool_call },
    )
}

/// The message with what the frontend sent back, under the id that it was sent with and with the
/// metadata of the request.
pub open spec fn with_frontend_result(
    message: MessageView,
    request: ToolRequestView,
    id: Seq<char>,
    result: ToolResult<CallToolResult>,
) -> MessageView {
    message.with_content(
        MessageContentView::ToolResponse(
            ToolResponseView {
                id,
                body: ToolResponseBody::Returned(result),
                provenance: None,
                metadata: request.metadata,
            },
        ),
    )
}

/// The run about a request at its start. It has ended at once where the call could not be read.
pub open spec fn start_of(request: ToolRequestView) -> FrontendView {
    FrontendView {
        request,
        phase: if request.tool_call is Ok {
            FrontendPhase::Unchecked
        } else {
            FrontendPhase::Ended
        },
    }
}

/// The run once the tool has been looked up.
pub open spec fn after_check(run: FrontendView, is_frontend_tool: bool) -> FrontendView {
    if run.phase != FrontendPhase::Unchecked {
        run
    } else if is_frontend_tool {
        run.in_phase(FrontendPhase::Awaiting)
    } else {
        run.in_phase(FrontendPhase::Ended)
    }
}

/// What the frontend is shown once the tool has been looked up.
pub open spec fn shown_after_check(run: FrontendView, is_frontend_tool: bool) -> Option<
    MessageView,
> {
    if run.phase == FrontendPhase::Unchecked && is_frontend_tool {
        Some(frontend_message(run.request))
    } else {
        None
    }
}

/// The run once the wait for the frontend is over.
pub open spec fn after_wait(run: FrontendView) -> FrontendView {
    if run.phase == FrontendPhase::Awaiting {
        run.in_phase(FrontendPhase::Ended)
    } else {
        run
    }
}

/// The message of the response once the wait for the frontend is over.
pub open spec fn message_after_wait(
    run: FrontendView,
    message: MessageView,
    received: Option<(Seq<char>, ToolResult<CallToolResult>)>,
) -> MessageView {
    match received {
        Some((id, result)) => if run.phase == FrontendPhase::Awaiting {
            with_frontend_result(message, run.request, id, result)
        } else {
            message
        },
        None => message,
    }
}

/// What the frontend sent, as a value.
pub open spec fn received_view(received: Option<(String, ToolResult<CallToolResult>)>) -> Option<
    (Seq<char>, ToolResult<CallToolResult>),
> {
    match received {
        Some((id, result)) => Some((id@, result)),
        None => None,
    }
}

/// A response is added if and only if the call could be read, the tool is one of the frontend's
/// and the frontend sent a result; the frontend is shown the request in the first two cases
/// alone. The run has ended then, and adds no second response.
pub proof fn only_a_shown_request_gets_a_response(
    request: ToolRequestView,
    is_frontend_tool: bool,
    message: MessageView,
    received: Option<(Seq<char>, ToolResult<CallToolResult>)>,
    later: Option<(Seq<char>, ToolResult<CallToolResult>)>,
)
    ensures
        ({
            let run = after_check(start_of(request), is_frontend_tool);
            let shown = request.tool_call is Ok && is_frontend_tool;
            let response = message_after_wait(run, message, received);
            &&& shown_after_check(start_of(request), is_frontend_tool) == if shown {
                Some(frontend_message(request))
            } else {
                None
            }
            &&& response == match received {
                Some((id, result)) => if shown {
                    with_frontend_result(message, request, id, result)
                } else {
                    message
                },
                None => message,
            }
            &&& after_wait(run).phase == FrontendPhase::Ended
            &&& message_after_wait(after_wait(run), response, later) == response
        }),
{
}

impl FrontendRun {
    #[verifier::type_invariant]
    spec fn well_formed(self) -> bool {
        self@.wf()
    }

    /// A run about a request. It has ended at once where the request's call could not be read.
    pub fn new(request: ToolRequest) -> (run: FrontendRun)
        ensures
            run@ == start_of(request@),
            run@.wf(),
    {
        let phase = if request.tool_call.is_ok() {
            FrontendPhase::Unchecked
        } else {
            FrontendPhase::Ended
        };
        FrontendRun { request, phase }
    }

    /// The name of the tool that is to be looked up.
    pub fn tool_to_check(&self) -> (name: Option<&String>)
        ensures
            name is Some <==> self@.phase == FrontendPhase::Unchecked,
            name matches Some(name) ==> name@ == params_name(
                self@.request.tool_call->Ok_0,
            ),
    {
        proof {
            use_type_invariant(self);
        }
        match (self.phase, &self.request.tool_call) {
            (FrontendPhase::Unchecked, Ok(tool_call)) => Some(tool_call.name()),
            _ => None,
        }
    }

    /// Goes on once the tool has been looked up: a tool of the frontend's gives the message that
    /// shows it the request, and any other tool ends the run. A run that has nothing to look up
    /// stays as it is.
    pub fn checked(&mut self, is_frontend_tool: bool) -> (message: Option<Message>)
        ensures
            final(self)@ == after_check(old(self)@, is_frontend_tool),
            shown_after_check(old(self)@, is_frontend_tool) == match message {
                Some(message) => Some(message@),
                None => None,
            },
            old(self)@.wf(),
            final(self)@.wf(),
    {
        proof {
            use_type_invariant(&*self);
        }
        match (self.phase, &self.request.tool_call) {
            (FrontendPhase::Unchecked, Ok(tool_call)) => {
                if !is_frontend_tool {
                    self.phase = FrontendPhase::Ended;
                    return None;
                }
                let message = Message::assistant().with_frontend_tool_request(
                    self.request.id.clone(),
                    Ok(tool_call.clone()),
                );
                self.phase = FrontendPhase::Awaiting;
                Some(message)
            },
            _ => None,
        }
    }

    /// Ends the wait for the frontend. `received` is what it sent, an id and a result, or `None`
    /// where the channel was closed. A run that is not waiting stays as it is.
    pub fn received(
        &mut self,
        message_tool_response: &mut Message,
        received: Option<(String, ToolResult<CallToolResult>)>,
    )
        ensures
            final(self)@ == after_wait(old(self)@),
            final(message_tool_response)@ == message_after_wait(
                old(self)@,
                old(message_tool_response)@,
                received_view(received),
            ),
            old(self)@.wf(),
            final(self)@.wf(),
    {
        proof {
            use_type_invariant(&*self);
        }
        if let FrontendPhase::Awaiting = self.phase {
            self.phase = FrontendPhase::Ended;
            if let Some((id, result)) = received {
                message_tool_response.add_tool_response_with_metadata(
                    id,
                    result,
                    self.request.metadata.as_ref(),
                );
            }
        }
    }
}

/// Whatever the frontend sends back is the response, a value or an error alike: it comes last in
/// the message, under the id that it was sent with and with the metadata of the request, and as
/// what a tool gave back. The message is otherwise as it was.
pub proof fn what_the_frontend_sends_is_the_response(
    run: FrontendView,
    message: MessageView,
    id: Seq<char>,
    result: ToolResult<CallToolResult>,
)
    requires
        run.phase == FrontendPhase::Awaiting,
    ensures
        ({
            let after = message_after_wait(run, message, Some((id, result)));
            &&& after.content == message.content.push(
                MessageContentView::ToolResponse(
                    ToolResponseView {
                        id,
                        body: ToolResponseBody::Returned(result),
                        provenance: None,
                        metadata: run.request.metadata,
                    },
                ),
            )
            &&& after.role == message.role
            &&& after.user_visible == message.user_visible
            &&& after.agent_visible == message.agent_visible
        }),
{
}

/// Where the frontend sent nothing, or was not waited for, the message of the response stays as it
/// is.
pub proof fn without_a_result_the_message_stays(
    run: FrontendView,
    message: MessageView,
    received: Option<(Seq<char>, ToolResult<CallToolResult>)>,
)
    requires
        received is None || run.phase != FrontendPhase::Awaiting,
    ensures
        message_after_wait(run, message, received) == message,
{
}

/// The frontend is shown the request as it is: a message of the assistant for everybody, whose one
/// part has the id and the call of the request. It is shown that only where the tool is to be
/// looked up and turns out to be the frontend's.
pub proof fn frontend_is_shown_the_request(run: FrontendView, is_frontend_tool: bool)
    ensures
        shown_after_check(run, is_frontend_tool) is Some <==> run.phase == FrontendPhase::Unchecked
            && is_frontend_tool,
        shown_after_check(run, is_frontend_tool) matches Some(message) ==> {
            &&& message.role == Role::Assistant
            &&& message.user_visible
            &&& message.agent_visible
            &&& message.content.len() == 1
            &&& message.content[0] == (MessageContentView::FrontendToolRequest {
                id: run.request.id,
                tool_call: run.request.tool_call,
            })
        },
{
}

/// A run takes its steps in order: a tool is looked up only where the call could be read, the
/// frontend is waited for only where the tool is the frontend's, and the run has ended after the
/// wait. A step at another time changes nothing, and the request stays the same throughout.
pub proof fn run_takes_its_steps_in_order(
    request: ToolRequestView,
    run: FrontendView,
    is_frontend_tool: bool,
)
    ensures
        start_of(request).request == request,
        start_of(request).phase == FrontendPhase::Unchecked <==> request.tool_call is Ok,
        start_of(request).phase == FrontendPhase::Ended <==> request.tool_call is Err,
        after_check(run, is_frontend_tool).request == run.request,
        run.phase != FrontendPhase::Unchecked ==> after_check(run, is_frontend_tool) == run,
        run.phase == FrontendPhase::Unchecked && is_frontend_tool ==> after_check(
            run,
            is_frontend_tool,
        ).phase == FrontendPhase::Awaiting,
        run.phase == FrontendPhase::Unchecked && !is_frontend_tool ==> after_check(
            run,
            is_frontend_tool,
        ).phase == FrontendPhase::Ended,
        after_wait(run).request == run.request,
        run.phase != FrontendPhase::Awaiting ==> after_wait(run) == run,
        run.phase == FrontendPhase::Awaiting ==> after_wait(run).phase == FrontendPhase::Ended,
{
}

/// What the frontend sent is seen as it is, the id and the result.
pub proof fn what_was_received_is_seen_as_it_is(id: String, result: ToolResult<CallToolResult>)
    ensures
        received_view(Some((id, result))) == Some((id@, result)),
        received_view(None) is None,
{
}

} // verus!
