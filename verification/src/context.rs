//! What a tool call is given, and what it gives back.

use crate::interop::{
    offer, offered, path_clone, path_text, path_to_str, ready, ready_value, sender_clone,
    ToolResult,
};
use crate::message::text_opt;
use futures::future::Ready;
use rmcp::model::{CallToolResult, ServerNotification};
use std::path::PathBuf;
use tokio::sync::mpsc::Sender;
use vstd::prelude::*;

verus! {

/// Passes on the notifications of a tool call.
pub struct ToolCallNotificationEmitter {
    sender: Sender<ServerNotification>,
}

impl Clone for ToolCallNotificationEmitter {
    fn clone(&self) -> (copy: Self)
        ensures
            copy == *self,
    {
        ToolCallNotificationEmitter { sender: sender_clone(&self.sender) }
    }
}

impl ToolCallNotificationEmitter {
    /// The channel that the notifications go to.
    pub closed spec fn channel(self) -> Sender<ServerNotification> {
        self.sender
    }

    /// An emitter for a channel.
    pub fn new(sender: Sender<ServerNotification>) -> (emitter: ToolCallNotificationEmitter)
        ensures
            emitter.channel() == sender,
    {
        ToolCallNotificationEmitter { sender }
    }

    /// Passes on a notification if the channel has room, and hands it back if not. Whether the
    /// channel has room rests on who reads from it.
    pub fn try_emit(&self, notification: ServerNotification) -> (sent: Result<
        (),
        ServerNotification,
    >)
        ensures
            offered(self.channel(), notification, sent),
            sent matches Err(returned) ==> returned == notification,
    {
        offer(&self.sender, notification)
    }

    /// Passes on a notification if the channel has room, and drops it if not: a slow reader of
    /// the notifications does not hold up the tool.
    pub fn emit_best_effort(&self, notification: ServerNotification)
        ensures
            exists|sent: Result<(), ServerNotification>| #[trigger]
                offered(self.channel(), notification, sent),
    {
        let _ = self.try_emit(notification);
    }
}

/// An emitter for a channel and all its clones, and clones of those, offer what they emit to that
/// very channel. Each emitter but the first is a clone of an earlier one.
pub proof fn clones_emit_into_the_same_channel(
    sender: Sender<ServerNotification>,
    emitters: Seq<ToolCallNotificationEmitter>,
    index: int,
    notification: ServerNotification,
    sent: Result<(), ServerNotification>,
)
    requires
        0 <= index < emitters.len(),
        emitters[0].channel() == sender,
        forall|i: int|
            0 < i < emitters.len() ==> exists|j: int|
                0 <= j < i && #[trigger] emitters[i] == #[trigger] emitters[j],
    ensures
        emitters[index].channel() == sender,
        offered(emitters[index].channel(), notification, sent) == offered(
            sender,
            notification,
            sent,
        ),
    decreases index,
{
    if index > 0 {
        let origin = choose|j: int| 0 <= j < index && emitters[index] == #[trigger] emitters[j];
        clones_emit_into_the_same_channel(sender, emitters, origin, notification, sent);
    }
}

/// What is passed along with a tool call.
pub struct ToolCallContext {
    pub session_id: String,
    pub working_dir: Option<PathBuf>,
    pub tool_call_request_id: Option<String>,
    notification_emitter: Option<ToolCallNotificationEmitter>,
}

/// A context as a value.
pub struct ToolCallContextView {
    pub session_id: Seq<char>,
    pub working_dir: Option<PathBuf>,
    pub tool_call_request_id: Option<Seq<char>>,
    pub notification_emitter: Option<ToolCallNotificationEmitter>,
}

/// What may be done to a context: it is given an emitter, or it is cloned.
pub enum ContextStep {
    Given(ToolCallNotificationEmitter),
    Cloned,
}

impl ToolCallContextView {
    /// The context with an emitter, in place of the one that it had.
    pub open spec fn with_emitter(
        self,
        emitter: ToolCallNotificationEmitter,
    ) -> ToolCallContextView {
        ToolCallContextView { notification_emitter: Some(emitter), ..self }
    }

    /// The context after a number of steps.
    pub open spec fn after(self, steps: Seq<ContextStep>) -> ToolCallContextView
        decreases steps.len(),
    {
        if steps.len() == 0 {
            self
        } else {
            let before = self.after(steps.drop_last());
            match steps.last() {
                ContextStep::Given(emitter) => before.with_emitter(emitter),
                ContextStep::Cloned => before,
            }
        }
    }
}

/// A context that began without an emitter has one if and only if it was given one at some time,
/// whatever clones lie in between. Nothing else of it has changed.
pub proof fn emitter_is_there_once_given(context: ToolCallContextView, steps: Seq<ContextStep>)
    requires
        context.notification_emitter is None,
    ensures
        context.after(steps).notification_emitter is Some <==> exists|i: int|
            0 <= i < steps.len() && #[trigger] steps[i] is Given,
        context.after(steps) == (ToolCallContextView {
            notification_emitter: context.after(steps).notification_emitter,
            ..context
        }),
    decreases steps.len(),
{
    if steps.len() > 0 {
        let earlier = steps.drop_last();
        emitter_is_there_once_given(context, earlier);
        if steps.last() is Given {
            assert(steps[steps.len() - 1] is Given);
        }
        if exists|i: int| 0 <= i < earlier.len() && #[trigger] earlier[i] is Given {
            let i = choose|i: int| 0 <= i < earlier.len() && #[trigger] earlier[i] is Given;
            assert(steps[i] is Given);
        }
        if exists|i: int| 0 <= i < steps.len() && #[trigger] steps[i] is Given {
            let i = choose|i: int| 0 <= i < steps.len() && #[trigger] steps[i] is Given;
            if i < earlier.len() {
                assert(earlier[i] is Given);
            }
        }
    }
}

/// What is emitted on the emitter of a context is offered to the channel of the emitter that the
/// context was given last, whatever clones have been made since.
pub proof fn emission_goes_to_the_channel_given_last(
    context: ToolCallContextView,
    steps: Seq<ContextStep>,
    given: int,
    emitter: ToolCallNotificationEmitter,
    notification: ServerNotification,
    sent: Result<(), ServerNotification>,
)
    requires
        0 <= given < steps.len(),
        steps[given] == ContextStep::Given(emitter),
        forall|i: int| given < i < steps.len() ==> #[trigger] steps[i] == ContextStep::Cloned,
    ensures
        context.after(steps).notification_emitter == Some(emitter),
        offered(context.after(steps).notification_emitter->0.channel(), notification, sent)
            == offered(emitter.channel(), notification, sent),
    decreases steps.len(),
{
    if given < steps.len() - 1 {
        assert(steps[steps.len() - 1] == ContextStep::Cloned);
        emission_goes_to_the_channel_given_last(
            context,
            steps.drop_last(),
            given,
            emitter,
            notification,
            sent,
        );
    }
}

impl View for ToolCallContext {
    type V = ToolCallContextView;

    closed spec fn view(&self) -> ToolCallContextView {
        ToolCallContextView {
            session_id: self.session_id@,
            working_dir: self.working_dir,
            tool_call_request_id: text_opt(self.tool_call_request_id),
            notification_emitter: self.notification_emitter,
        }
    }
}

impl Clone for ToolCallContext {
    fn clone(&self) -> (copy: Self)
        ensures
            copy@ == self@,
    {
        ToolCallContext {
            session_id: self.session_id.clone(),
            working_dir: match &self.working_dir {
                Some(path) => Some(path_clone(path)),
                None => None,
            },
            tool_call_request_id: self.tool_call_request_id.clone(),
            notification_emitter: match &self.notification_emitter {
                Some(emitter) => Some(emitter.clone()),
                None => None,
            },
        }
    }
}

impl ToolCallContext {
    /// A context without an emitter.
    pub fn new(
        session_id: String,
        working_dir: Option<PathBuf>,
        tool_call_request_id: Option<String>,
    ) -> (context: ToolCallContext)
        ensures
            context@ == (ToolCallContextView {
                session_id: session_id@,
                working_dir,
                tool_call_request_id: text_opt(tool_call_request_id),
                notification_emitter: None,
            }),
    {
        ToolCallContext {
            session_id,
            working_dir,
            tool_call_request_id,
            notification_emitter: None,
        }
    }

    /// The working directory as text, where there is one and it is valid Unicode.
    pub fn working_dir_str(&self) -> (text: Option<&str>)
        ensures
            (match text {
                Some(text) => Some(text@),
                None => None,
            }) == (match self@.working_dir {
                Some(path) => path_text(path),
                None => None,
            }),
    {
        match &self.working_dir {
            Some(path) => path_to_str(path),
            None => None,
        }
    }

    /// The context with an emitter, in place of the one that it had.
    pub fn with_notification_emitter(
        self,
        notification_emitter: ToolCallNotificationEmitter,
    ) -> (context: ToolCallContext)
        ensures
            context@ == self@.with_emitter(notification_emitter),
    {
        ToolCallContext {
            session_id: self.session_id,
            working_dir: self.working_dir,
            tool_call_request_id: self.tool_call_request_id,
            notification_emitter: Some(notification_emitter),
        }
    }

    /// The emitter for the call's notifications.
    pub fn notification_emitter(&self) -> (emitter: Option<&ToolCallNotificationEmitter>)
        ensures
            self@.notification_emitter == match emitter {
                Some(emitter) => Some(*emitter),
                None => None,
            },
    {
        self.notification_emitter.as_ref()
    }
}

/// The result of a tool call that is over.
pub type FinishedCall = Ready<ToolResult<CallToolResult>>;

/// A tool call under way: the future of its result, and the streams of what it has to say in the
/// meantime, where there are any.
pub struct ToolCallResult<R, N, A> {
    pub result: R,
    pub notification_stream: Option<N>,
    pub action_required_stream: Option<A>,
}

impl<N, A> From<ToolResult<CallToolResult>> for ToolCallResult<FinishedCall, N, A> {
    /// A tool call that is over: its result is there, and it says nothing more.
    fn from(result: ToolResult<CallToolResult>) -> (call: Self)
        ensures
            ready_value(call.result) == result,
            call.notification_stream is None,
            call.action_required_stream is None,
    {
        ToolCallResult {
            result: ready(result),
            notification_stream: None,
            action_required_stream: None,
        }
    }
}

impl<N, A> vstd::std_specs::convert::FromSpecImpl<ToolResult<CallToolResult>> for ToolCallResult<FinishedCall, N, A> {
    open spec fn obeys_from_spec() -> bool {
        false
    }

    open spec fn from_spec(result: ToolResult<CallToolResult>) -> Self {
        arbitrary()
    }
}

/// Giving a context an emitter changes nothing else of it, and an emitter that it had before is
/// gone.
pub proof fn given_emitter_replaces_the_emitter_alone(
    context: ToolCallContextView,
    emitter: ToolCallNotificationEmitter,
)
    ensures
        context.with_emitter(emitter).notification_emitter == Some(emitter),
        context.with_emitter(emitter).session_id == context.session_id,
        context.with_emitter(emitter).working_dir == context.working_dir,
        context.with_emitter(emitter).tool_call_request_id == context.tool_call_request_id,
{
}

} // verus!
