//! The messages of a conversation, as far as running tools has to do with them.

use crate::interop::{copy_json, json_members, json_opt, JsonView, ToolResult};
use crate::request::{call_view, ToolCall};
use rmcp::model::{CallToolRequestParams, CallToolResult, ErrorData, JsonObject};
use vstd::prelude::*;

verus! {

/// Who speaks in a message.
#[derive(Clone, Copy, Debug, PartialEq, Eq, Structural)]
pub enum Role {
    User,
    Assistant,
}

/// Why a tool request was answered without the tool having run.
#[derive(Clone, Copy, Debug, PartialEq, Eq, Structural)]
pub enum ToolResponseProvenance {
    GooseDeniedBeforeExecution,
    GooseCancelledBeforeExecution,
}

/// Which of the fixed notices a model is given in place of a tool's result.
#[derive(Clone, Copy, Debug, PartialEq, Eq, Structural)]
pub enum ControlNotice {
    Declined,
    Cancelled,
}

impl ToolResponseProvenance {
    /// The notice that belongs to the provenance.
    pub open spec fn canonical_notice(self) -> ControlNotice {
        match self {
            ToolResponseProvenance::GooseDeniedBeforeExecution => ControlNotice::Declined,
            ToolResponseProvenance::GooseCancelledBeforeExecution => ControlNotice::Cancelled,
        }
    }

    /// The notice that belongs to the provenance.
    pub fn notice(self) -> (notice: ControlNotice)
        ensures
            notice == self.canonical_notice(),
            self is GooseDeniedBeforeExecution <==> notice is Declined,
            self is GooseCancelledBeforeExecution <==> notice is Cancelled,
    {
        match self {
            ToolResponseProvenance::GooseDeniedBeforeExecution => ControlNotice::Declined,
            ToolResponseProvenance::GooseCancelledBeforeExecution => ControlNotice::Cancelled,
        }
    }

    /// The name under which the provenance is stored.
    pub fn as_str(self) -> (name: &'static str)
        ensures
            name@ == match self {
                ToolResponseProvenance::GooseDeniedBeforeExecution =>
                    "goose_denied_before_execution"@,
                ToolResponseProvenance::GooseCancelledBeforeExecution =>
                    "goose_cancelled_before_execution"@,
            },
    {
        match self {
            ToolResponseProvenance::GooseDeniedBeforeExecution => "goose_denied_before_execution",
            ToolResponseProvenance::GooseCancelledBeforeExecution =>
                "goose_cancelled_before_execution",
        }
    }
}

/// What a tool response says: what the tool gave back, or a notice that it has not run.
pub enum ToolResponseBody {
    Returned(ToolResult<CallToolResult>),
    Notice(ControlNotice),
}

/// The answer to a tool request. The provenance is present where the tool has not run.
pub struct ToolResponse {
    pub id: String,
    pub body: ToolResponseBody,
    pub provenance: Option<ToolResponseProvenance>,
    pub metadata: Option<JsonObject>,
}

/// A tool response as a value.
pub struct ToolResponseView {
    pub id: Seq<char>,
    pub body: ToolResponseBody,
    pub provenance: Option<ToolResponseProvenance>,
    pub metadata: Option<JsonView>,
}

impl View for ToolResponse {
    type V = ToolResponseView;

    open spec fn view(&self) -> ToolResponseView {
        ToolResponseView {
            id: self.id@,
            body: self.body,
            provenance: self.provenance,
            metadata: json_opt(self.metadata),
        }
    }
}

impl ToolResponseView {
    /// Whether the response says that the tool has not run, in the notice that belongs to its
    /// provenance.
    pub open spec fn is_canonical(self) -> bool {
        match self.provenance {
            Some(provenance) => self.body == ToolResponseBody::Notice(
                provenance.canonical_notice(),
            ),
            None => false,
        }
    }
}

/// The response to the request `id` that says that its tool has not run.
pub open spec fn control_response(
    id: Seq<char>,
    provenance: ToolResponseProvenance,
    metadata: Option<JsonView>,
) -> ToolResponseView {
    ToolResponseView {
        id,
        body: ToolResponseBody::Notice(provenance.canonical_notice()),
        provenance: Some(provenance),
        metadata,
    }
}

impl ToolResponse {
    /// Whether the response says that the tool has not run, in the notice that belongs to its
    /// provenance.
    pub fn is_canonical_goose_control_response(&self) -> (canonical: bool)
        ensures
            canonical == self@.is_canonical(),
            self.provenance == Some(ToolResponseProvenance::GooseDeniedBeforeExecution) ==> (
            canonical <==> self.body == ToolResponseBody::Notice(ControlNotice::Declined)),
            self.provenance == Some(ToolResponseProvenance::GooseCancelledBeforeExecution) ==> (
            canonical <==> self.body == ToolResponseBody::Notice(ControlNotice::Cancelled)),
            self.provenance is None ==> !canonical,
    {
        match (self.provenance, &self.body) {
            (Some(provenance), ToolResponseBody::Notice(notice)) => *notice == provenance.notice(),
            _ => false,
        }
    }
}

/// The question whether a tool may run, with the reason why it is asked, where there is one.
pub struct ActionRequired {
    pub id: String,
    pub tool_name: String,
    pub arguments: JsonObject,
    pub prompt: Option<String>,
}

/// A request to the frontend to run a tool itself.
pub struct FrontendToolRequest {
    pub id: String,
    pub tool_call: ToolResult<ToolCall>,
}

/// A part of a message.
pub enum MessageContent {
    Text(String),
    ActionRequired(ActionRequired),
    FrontendToolRequest(FrontendToolRequest),
    ToolResponse(ToolResponse),
}

/// A part of a message as a value.
pub enum MessageContentView {
    Text(Seq<char>),
    ActionRequired {
        id: Seq<char>,
        tool_name: Seq<char>,
        arguments: JsonView,
        prompt: Option<Seq<char>>,
    },
    FrontendToolRequest { id: Seq<char>, tool_call: Result<CallToolRequestParams, ErrorData> },
    ToolResponse(ToolResponseView),
}

/// A text that may be absent, as a value.
pub open spec fn text_opt(text: Option<String>) -> Option<Seq<char>> {
    match text {
        Some(text) => Some(text@),
        None => None,
    }
}

impl View for MessageContent {
    type V = MessageContentView;

    open spec fn view(&self) -> MessageContentView {
        match *self {
            MessageContent::Text(text) => MessageContentView::Text(text@),
            MessageContent::ActionRequired(action) => MessageContentView::ActionRequired {
                id: action.id@,
                tool_name: action.tool_name@,
                arguments: json_members(action.arguments),
                prompt: text_opt(action.prompt),
            },
            MessageContent::FrontendToolRequest(request) =>
                MessageContentView::FrontendToolRequest {
                    id: request.id@,
                    tool_call: call_view(request.tool_call),
                },
            MessageContent::ToolResponse(response) => MessageContentView::ToolResponse(response@),
        }
    }
}

/// A message: who speaks, its parts in order, and whom it is shown to.
pub struct Message {
    pub role: Role,
    pub content: Vec<MessageContent>,
    pub user_visible: bool,
    pub agent_visible: bool,
}

/// A message as a value.
pub struct MessageView {
    pub role: Role,
    pub content: Seq<MessageContentView>,
    pub user_visible: bool,
    pub agent_visible: bool,
}

impl View for Message {
    type V = MessageView;

    open spec fn view(&self) -> MessageView {
        MessageView {
            role: self.role,
            content: self.content@.map_values(|content: MessageContent| content@),
            user_visible: self.user_visible,
            agent_visible: self.agent_visible,
        }
    }
}

impl MessageView {
    /// The message without parts that everybody is shown.
    pub open spec fn empty(role: Role) -> MessageView {
        MessageView { role, content: Seq::empty(), user_visible: true, agent_visible: true }
    }

    /// The message with one more part at its end.
    pub open spec fn with_content(self, content: MessageContentView) -> MessageView {
        MessageView { content: self.content.push(content), ..self }
    }

    /// The message, shown to the user alone.
    pub open spec fn for_user_only(self) -> MessageView {
        MessageView { user_visible: true, agent_visible: false, ..self }
    }
}

impl Message {
    /// A message of the user without parts.
    pub fn user() -> (message: Message)
        ensures
            message@ == MessageView::empty(Role::User),
    {
        Message::new(Role::User)
    }

    /// A message of the assistant without parts.
    pub fn assistant() -> (message: Message)
        ensures
            message@ == MessageView::empty(Role::Assistant),
    {
        Message::new(Role::Assistant)
    }

    fn new(role: Role) -> (message: Message)
        ensures
            message@ == MessageView::empty(role),
    {
        let message = Message {
            role,
            content: Vec::new(),
            user_visible: true,
            agent_visible: true,
        };
        assert(message@.content =~= Seq::empty());
        message
    }

    /// Adds a part at the end.
    pub fn add_content(&mut self, content: MessageContent)
        ensures
            final(self)@ == old(self)@.with_content(content@),
    {
        self.content.push(content);
        assert(self@.content =~= old(self)@.content.push(content@));
    }

    /// The message with a question whether a tool may run at its end.
    pub fn with_action_required(
        self,
        id: String,
        tool_name: String,
        arguments: JsonObject,
        prompt: Option<String>,
    ) -> (message: Message)
        ensures
            message@ == self@.with_content(
                MessageContentView::ActionRequired {
                    id: id@,
                    tool_name: tool_name@,
                    arguments: json_members(arguments),
                    prompt: text_opt(prompt),
                },
            ),
    {
        let mut message = self;
        message.add_content(
            MessageContent::ActionRequired(ActionRequired { id, tool_name, arguments, prompt }),
        );
        message
    }

    /// The message with a request to the frontend at its end.
    pub fn with_frontend_tool_request(
        self,
        id: String,
        tool_call: ToolResult<ToolCall>,
    ) -> (message: Message)
        ensures
            message@ == self@.with_content(
                MessageContentView::FrontendToolRequest {
                    id: id@,
                    tool_call: call_view(tool_call),
                },
            ),
    {
        let mut message = self;
        message.add_content(
            MessageContent::FrontendToolRequest(FrontendToolRequest { id, tool_call }),
        );
        message
    }

    /// The message, shown to the user alone.
    pub fn user_only(self) -> (message: Message)
        ensures
            message@ == self@.for_user_only(),
    {
        Message {
            role: self.role,
            content: self.content,
            user_visible: true,
            agent_visible: false,
        }
    }

    /// Adds the response to the request `id` that says that its tool has not run.
    pub fn add_goose_control_tool_response_with_metadata(
        &mut self,
        id: String,
        provenance: ToolResponseProvenance,
        metadata: Option<&JsonObject>,
    )
        ensures
            final(self)@ == old(self)@.with_content(
                MessageContentView::ToolResponse(
                    control_response(
                        id@,
                        provenance,
                        match metadata {
                            Some(metadata) => Some(json_members(*metadata)),
                            None => None,
                        },
                    ),
                ),
            ),
    {
        self.add_content(
            MessageContent::ToolResponse(
                ToolResponse {
                    id,
                    body: ToolResponseBody::Notice(provenance.notice()),
                    provenance: Some(provenance),
                    metadata: copy_json(metadata),
                },
            ),
        );
    }

    /// Adds what the tool gave back for the request `id`.
    pub fn add_tool_response_with_metadata(
        &mut self,
        id: String,
        result: ToolResult<CallToolResult>,
        metadata: Option<&JsonObject>,
    )
        ensures
            final(self)@ == old(self)@.with_content(
                MessageContentView::ToolResponse(
                    ToolResponseView {
                        id: id@,
                        body: ToolResponseBody::Returned(result),
                        provenance: None,
                        metadata: match metadata {
                            Some(metadata) => Some(json_members(*metadata)),
                            None => None,
                        },
                    },
                ),
            ),
    {
        self.add_content(
            MessageContent::ToolResponse(
                ToolResponse {
                    id,
                    body: ToolResponseBody::Returned(result),
                    provenance: None,
                    metadata: copy_json(metadata),
                },
            ),
        );
    }
}

/// The response that a tool has not run has the id and the metadata that it was made for, tells
/// why the tool has not run, and gives the notice for that: that the tool was declined, or that it
/// was cancelled.
pub proof fn control_response_tells_why(
    id: Seq<char>,
    provenance: ToolResponseProvenance,
    metadata: Option<JsonView>,
)
    ensures
        control_response(id, provenance, metadata).id == id,
        control_response(id, provenance, metadata).provenance == Some(provenance),
        control_response(id, provenance, metadata).metadata == metadata,
        provenance is GooseDeniedBeforeExecution ==> control_response(
            id,
            provenance,
            metadata,
        ).body == ToolResponseBody::Notice(ControlNotice::Declined),
        provenance is GooseCancelledBeforeExecution ==> control_response(
            id,
            provenance,
            metadata,
        ).body == ToolResponseBody::Notice(ControlNotice::Cancelled),
        control_response(id, provenance, metadata).is_canonical(),
{
}

/// A response is taken for one that a tool has not run only where the reason and the notice agree:
/// a denied tool was declined and a cancelled one cancelled. What a tool gave back never is.
pub proof fn canonical_responses_are_those_whose_notice_fits(response: ToolResponseView)
    ensures
        response.provenance == Some(ToolResponseProvenance::GooseDeniedBeforeExecution) ==> (
        response.is_canonical() <==> response.body == ToolResponseBody::Notice(
            ControlNotice::Declined,
        )),
        response.provenance == Some(ToolResponseProvenance::GooseCancelledBeforeExecution) ==> (
        response.is_canonical() <==> response.body == ToolResponseBody::Notice(
            ControlNotice::Cancelled,
        )),
        response.provenance is None ==> !response.is_canonical(),
        response.body is Returned ==> !response.is_canonical(),
{
}

/// A part that is added to a message comes behind all its parts. These stay as they are, and so do
/// the speaker and whom the message is shown to.
pub proof fn added_part_comes_last(message: MessageView, part: MessageContentView)
    ensures
        ({
            let longer = message.with_content(part);
            &&& longer.content.len() == message.content.len() + 1
            &&& longer.content[message.content.len() as int] == part
            &&& forall|i: int|
                0 <= i < message.content.len() ==> #[trigger] longer.content[i]
                    == message.content[i]
            &&& longer.role == message.role
            &&& longer.user_visible == message.user_visible
            &&& longer.agent_visible == message.agent_visible
        }),
{
}

/// A message begins without parts and is shown to the user and to the model. Showing it to the
/// user alone changes nothing else of it.
pub proof fn message_is_shown_to_all_unless_kept_to_the_user(message: MessageView, role: Role)
    ensures
        MessageView::empty(role).role == role,
        MessageView::empty(role).content.len() == 0,
        MessageView::empty(role).user_visible,
        MessageView::empty(role).agent_visible,
        message.for_user_only().role == message.role,
        message.for_user_only().content == message.content,
        message.for_user_only().user_visible,
        !message.for_user_only().agent_visible,
{
}

/// A message is seen as it is: with its speaker, with all its parts in their order, and with whom
/// it is shown to.
pub proof fn message_is_seen_as_it_is(message: Message)
    ensures
        message@.role == message.role,
        message@.user_visible == message.user_visible,
        message@.agent_visible == message.agent_visible,
        message@.content.len() == message.content@.len(),
        forall|i: int|
            0 <= i < message.content@.len() ==> #[trigger] message@.content[i]
                == message.content@[i]@,
{
}

/// A part of a message is seen as it is: it has the kind of the part, and each of its fields.
pub proof fn part_is_seen_as_it_is(part: MessageContent)
    ensures
        part matches MessageContent::Text(text) ==> part@ == MessageContentView::Text(text@),
        part matches MessageContent::ActionRequired(action) ==> (part@ matches
            MessageContentView::ActionRequired { id, tool_name, arguments, prompt } && id
            == action.id@ && tool_name == action.tool_name@ && arguments == json_members(
            action.arguments,
        ) && (prompt is Some <==> action.prompt is Some) && (action.prompt is Some ==> prompt
            == Some(action.prompt->0@))),
        part matches MessageContent::FrontendToolRequest(request) ==> (part@ matches
            MessageContentView::FrontendToolRequest { id, tool_call } && id == request.id@ && (
        request.tool_call matches Ok(call) ==> tool_call == Ok::<
            CallToolRequestParams,
            ErrorData,
        >(call@)) && (request.tool_call matches Err(error) ==> tool_call == Err::<
            CallToolRequestParams,
            ErrorData,
        >(error))),
        part matches MessageContent::ToolResponse(response) ==> (part@ matches
            MessageContentView::ToolResponse(seen) && seen.id == response.id@ && seen.body
            == response.body && seen.provenance == response.provenance && (seen.metadata is Some
            <==> response.metadata is Some) && (response.metadata is Some ==> seen.metadata
            == Some(json_members(response.metadata->0)))),
{
}

/// A text that may be absent is there if and only if it was, and is the same text.
pub proof fn optional_text_is_seen_as_it_is(text: String)
    ensures
        text_opt(Some(text)) == Some(text@),
        text_opt(None) is None,
{
}

} // verus!
