//! Values of other crates that pass through the library, and the few calls made on them.

use futures::future::Ready;
use rmcp::model::{
    CallToolRequestParams, CallToolResult, ErrorData, JsonObject, ServerNotification,
};
use std::path::PathBuf;
use tokio::sync::mpsc::error::TrySendError;
use tokio::sync::mpsc::Sender;
use tokio_util::sync::CancellationToken;
use vstd::prelude::*;

verus! {

/// `tokio_util::sync::CancellationToken`, shared with whoever may cancel the run.
#[verifier::external_type_specification]
#[verifier::external_body]
pub struct ExCancellationToken(tokio_util::sync::CancellationToken);

/// `tokio::sync::mpsc::Sender`, the sending half of a bounded channel.
#[verifier::external_type_specification]
#[verifier::external_body]
#[verifier::reject_recursive_types(T)]
pub struct ExSender<T>(tokio::sync::mpsc::Sender<T>);

/// `rmcp::model::ServerNotification`, a notification that a tool sends while it works.
#[verifier::external_type_specification]
#[verifier::external_body]
pub struct ExServerNotification(rmcp::model::ServerNotification);

/// `rmcp::model::CallToolResult`, what a tool that has run gives back.
#[verifier::external_type_specification]
#[verifier::external_body]
pub struct ExCallToolResult(rmcp::model::CallToolResult);

/// `rmcp::model::CallToolRequestParams`, a tool call as the protocol carries it.
#[verifier::external_type_specification]
#[verifier::external_body]
pub struct ExCallToolRequestParams(rmcp::model::CallToolRequestParams);

/// `rmcp::model::ErrorData`, the error of a tool call.
#[verifier::external_type_specification]
#[verifier::external_body]
pub struct ExErrorData(rmcp::model::ErrorData);

/// `serde_json::Value`, the values of a JSON object.
#[verifier::external_type_specification]
#[verifier::external_body]
pub struct ExValue(serde_json::Value);

/// `serde_json::Map`, which `rmcp::model::JsonObject` is an alias of.
#[verifier::external_type_specification]
#[verifier::external_body]
#[verifier::reject_recursive_types(K)]
#[verifier::reject_recursive_types(V)]
pub struct ExJsonMap<K, V>(serde_json::Map<K, V>);

/// `std::path::PathBuf`, a path of the operating system.
#[verifier::external_type_specification]
#[verifier::external_body]
pub struct ExPathBuf(std::path::PathBuf);

/// `futures::future::Ready`, a future whose value is there from the start.
#[verifier::external_type_specification]
#[verifier::external_body]
#[verifier::reject_recursive_types(T)]
pub struct ExReady<T>(futures::future::Ready<T>);

/// What a tool call gives: a value, or the error that the protocol carries.
pub type ToolResult<T> = Result<T, ErrorData>;

/// A JSON object as its members: each key with the JSON text of its value.
pub type JsonView = Map<Seq<char>, Seq<char>>;

/// The members of a JSON object.
pub uninterp spec fn json_members(object: JsonObject) -> JsonView;

/// The members of a JSON object that may be absent.
pub open spec fn json_opt(object: Option<JsonObject>) -> Option<JsonView> {
    match object {
        Some(object) => Some(json_members(object)),
        None => None,
    }
}

/// `Clone::clone` of `serde_json::Map`: the copy has the members of the object copied.
#[verifier::external_body]
fn json_clone(object: &JsonObject) -> (copy: JsonObject)
    ensures
        json_members(copy) == json_members(*object),
{
    object.clone()
}

/// `Default::default` of `serde_json::Map`: an object without members.
#[verifier::external_body]
fn json_default() -> (object: JsonObject)
    ensures
        json_members(object) == JsonView::empty(),
{
    JsonObject::default()
}

/// A copy of a JSON object that may be absent.
pub fn copy_json(object: Option<&JsonObject>) -> (copy: Option<JsonObject>)
    ensures
        object is Some <==> copy is Some,
        object matches Some(o) ==> json_opt(copy) == Some(json_members(*o)),
{
    match object {
        Some(object) => Some(json_clone(object)),
        None => None,
    }
}

/// A copy of a JSON object, or the object without members where there is none.
pub fn copy_json_or_default(object: &Option<JsonObject>) -> (copy: JsonObject)
    ensures
        json_members(copy) == json_opt(*object).unwrap_or(JsonView::empty()),
{
    match object {
        Some(object) => json_clone(object),
        None => json_default(),
    }
}

/// The name of the tool that a call is for.
pub uninterp spec fn params_name(params: CallToolRequestParams) -> Seq<char>;

/// The field `name` of `CallToolRequestParams`, as `to_string` of `Cow<str>` gives it: the same
/// text.
#[verifier::external_body]
pub(crate) fn read_name(params: &CallToolRequestParams) -> (name: String)
    ensures
        name@ == params_name(*params),
{
    params.name.to_string()
}

/// The arguments of a tool call, where there are any.
pub uninterp spec fn params_arguments(params: CallToolRequestParams) -> Option<JsonView>;

/// The field `arguments` of `CallToolRequestParams`, copied by `Clone::clone`.
#[verifier::external_body]
pub(crate) fn read_arguments(params: &CallToolRequestParams) -> (arguments: Option<JsonObject>)
    ensures
        json_opt(arguments) == params_arguments(*params),
{
    params.arguments.clone()
}

/// `Clone::clone` of `CallToolRequestParams`, which copies the call field by field.
#[verifier::external_body]
pub(crate) fn params_clone(params: &CallToolRequestParams) -> (copy: CallToolRequestParams)
    ensures
        copy == *params,
{
    params.clone()
}

/// The value that a future holds that is ready from the start.
pub uninterp spec fn ready_value(
    future: Ready<ToolResult<CallToolResult>>,
) -> ToolResult<CallToolResult>;

/// `futures::future::ready`: a future that is ready at once with the given value.
#[verifier::external_body]
pub(crate) fn ready(value: ToolResult<CallToolResult>) -> (future: Ready<
    ToolResult<CallToolResult>,
>)
    ensures
        ready_value(future) == value,
{
    futures::future::ready(value)
}

/// The text of a path, where the path is valid Unicode.
pub uninterp spec fn path_text(path: PathBuf) -> Option<Seq<char>>;

/// `std::path::Path::to_str`: the path as text, or `None` where it is not valid Unicode.
#[verifier::external_body]
pub(crate) fn path_to_str(path: &PathBuf) -> (text: Option<&str>)
    ensures
        text is Some <==> path_text(*path) is Some,
        text matches Some(s) ==> path_text(*path) == Some(s@),
{
    path.to_str()
}

/// `Clone::clone` of `std::path::PathBuf`: a duplicate of the path.
#[verifier::external_body]
pub(crate) fn path_clone(path: &PathBuf) -> (copy: PathBuf)
    ensures
        copy == *path,
{
    path.clone()
}

/// `Clone::clone` of `mpsc::Sender`: one more handle on the same channel. What one handle sends
/// or sees the other could have sent or seen, so the two count as equal.
#[verifier::external_body]
pub(crate) fn sender_clone(sender: &Sender<ServerNotification>) -> (copy: Sender<
    ServerNotification,
>)
    ensures
        copy == *sender,
{
    sender.clone()
}

/// `CancellationToken::is_cancelled`: whether the token has been cancelled by now. Another task
/// may cancel it at any time, so nothing is stated of what a call returns.
#[verifier::external_body]
pub(crate) fn token_is_cancelled(token: &CancellationToken) -> bool {
    token.is_cancelled()
}

/// Whether `cancelled` is an answer to the question whether a run has been cancelled by now: one
/// that asking the run's token can give. Of a run without a token the answer is no.
pub closed spec fn is_answer(token: Option<&CancellationToken>, cancelled: bool) -> bool {
    match token {
        Some(token) => call_ensures(token_is_cancelled, (token,), cancelled),
        None => !cancelled,
    }
}

/// Whether a run has been cancelled by now. A run without a token never is.
pub fn run_is_cancelled(token: Option<&CancellationToken>) -> (cancelled: bool)
    ensures
        is_answer(token, cancelled),
        token is None ==> !cancelled,
{
    match token {
        Some(token) => token_is_cancelled(token),
        None => false,
    }
}

/// `mpsc::Sender::try_send`: queues the notification if the channel is open and has room at
/// this moment, and otherwise hands the notification back. Which of the two comes about rests
/// on the receiving side, so only what is handed back is stated.
#[verifier::external_body]
pub(crate) fn try_send(
    sender: &Sender<ServerNotification>,
    notification: ServerNotification,
) -> (sent: Result<(), ServerNotification>)
    ensures
        sent matches Err(returned) ==> returned == notification,
{
    match sender.try_send(notification) {
        Ok(()) => Ok(()),
        Err(TrySendError::Full(returned)) => Err(returned),
        Err(TrySendError::Closed(returned)) => Err(returned),
    }
}

/// Whether `sent` is what can come of offering a notification to a channel.
pub closed spec fn offered(
    sender: Sender<ServerNotification>,
    notification: ServerNotification,
    sent: Result<(), ServerNotification>,
) -> bool {
    call_ensures(try_send, (&sender, notification), sent)
}

/// Offers a notification to a channel, and hands it back if the channel does not take it now.
pub(crate) fn offer(sender: &Sender<ServerNotification>, notification: ServerNotification) -> (sent:
    Result<(), ServerNotification>)
    ensures
        offered(*sender, notification, sent),
        sent matches Err(returned) ==> returned == notification,
{
    try_send(sender, notification)
}

/// A run without a token is not cancelled, and of a run with one only an answer that the token can
/// give counts.
pub(crate) proof fn cancellation_comes_from_the_token(token: CancellationToken, cancelled: bool)
    ensures
        is_answer(None, cancelled) <==> !cancelled,
        is_answer(Some(&token), cancelled) <==> call_ensures(
            token_is_cancelled,
            (&token,),
            cancelled,
        ),
{
}

/// What comes of an offer is what the channel does with that very notification: one that it does
/// not take is handed back as it was.
pub(crate) proof fn channel_answers_the_offer(
    sender: Sender<ServerNotification>,
    notification: ServerNotification,
    sent: Result<(), ServerNotification>,
)
    ensures
        offered(sender, notification, sent) <==> call_ensures(
            try_send,
            (&sender, notification),
            sent,
        ),
        offered(sender, notification, sent) ==> (sent matches Err(returned) ==> returned
            == notification),
{
}

/// A JSON object that may be absent is seen if and only if it is there, with its members.
pub proof fn optional_object_is_seen_as_it_is(object: JsonObject)
    ensures
        json_opt(Some(object)) == Some(json_members(object)),
        json_opt(None) is None,
{
}

} // verus!
