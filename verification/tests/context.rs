use futures::stream::Empty;
use rmcp::model::{CallToolResult, ErrorCode, ErrorData, ServerNotification};
use std::path::PathBuf;
use tokio::sync::mpsc;
use tool_execution::context::{
    FinishedCall, ToolCallContext, ToolCallNotificationEmitter, ToolCallResult,
};
use tool_execution::interop::{copy_json, copy_json_or_default};

fn tools_changed() -> ServerNotification {
    ServerNotification::ToolListChangedNotification(Default::default())
}

fn prompts_changed() -> ServerNotification {
    ServerNotification::PromptListChangedNotification(Default::default())
}

type Finished = ToolCallResult<FinishedCall, Empty<ServerNotification>, Empty<String>>;

#[test]
fn context_keeps_what_it_is_given() {
    let context = ToolCallContext::new(
        "session".to_string(),
        Some(PathBuf::from("/work/dir")),
        Some("request".to_string()),
    );
    assert_eq!(context.session_id, "session");
    assert_eq!(context.working_dir, Some(PathBuf::from("/work/dir")));
    assert_eq!(context.tool_call_request_id, Some("request".to_string()));
    assert_eq!(context.working_dir_str(), Some("/work/dir"));
    assert!(context.notification_emitter().is_none());
}

#[test]
fn context_without_a_working_dir_has_no_text_for_it() {
    let context = ToolCallContext::new("session".to_string(), None, None);
    assert_eq!(context.working_dir_str(), None);
    assert_eq!(context.tool_call_request_id, None);
}

#[test]
fn emitter_drops_what_the_channel_has_no_room_for() {
    let (sender, mut receiver) = mpsc::channel(1);
    let emitter = ToolCallNotificationEmitter::new(sender);
    emitter.emit_best_effort(tools_changed());
    emitter.emit_best_effort(prompts_changed());
    assert!(matches!(
        receiver.try_recv(),
        Ok(ServerNotification::ToolListChangedNotification(_))
    ));
    assert!(receiver.try_recv().is_err());
    emitter.emit_best_effort(prompts_changed());
    assert!(matches!(
        receiver.try_recv(),
        Ok(ServerNotification::PromptListChangedNotification(_))
    ));
}

#[test]
fn emitter_hands_back_what_it_cannot_send() {
    let (sender, receiver) = mpsc::channel(1);
    let emitter = ToolCallNotificationEmitter::new(sender);
    assert!(emitter.try_emit(tools_changed()).is_ok());
    assert!(matches!(
        emitter.try_emit(prompts_changed()),
        Err(ServerNotification::PromptListChangedNotification(_))
    ));
    drop(receiver);
    assert!(matches!(
        emitter.try_emit(tools_changed()),
        Err(ServerNotification::ToolListChangedNotification(_))
    ));
}

#[test]
fn emitter_of_a_context_reaches_its_channel() {
    let (sender, mut receiver) = mpsc::channel(2);
    let context = ToolCallContext::new(
        "session".to_string(),
        Some(PathBuf::from("/work")),
        Some("request".to_string()),
    )
    .with_notification_emitter(ToolCallNotificationEmitter::new(sender));
    assert_eq!(context.session_id, "session");
    assert_eq!(context.working_dir_str(), Some("/work"));
    assert_eq!(context.tool_call_request_id, Some("request".to_string()));
    let copy = context.clone();
    assert_eq!(copy.session_id, "session");
    assert_eq!(copy.working_dir, Some(PathBuf::from("/work")));
    context
        .notification_emitter()
        .expect("the emitter")
        .emit_best_effort(tools_changed());
    copy.notification_emitter()
        .expect("the emitter")
        .emit_best_effort(prompts_changed());
    assert!(matches!(
        receiver.try_recv(),
        Ok(ServerNotification::ToolListChangedNotification(_))
    ));
    assert!(matches!(
        receiver.try_recv(),
        Ok(ServerNotification::PromptListChangedNotification(_))
    ));
}

#[test]
fn finished_call_gives_its_result_and_nothing_else() {
    let error = ErrorData::new(ErrorCode::INTERNAL_ERROR, "no such tool", None);
    let call = Finished::from(Err(error.clone()));
    assert!(call.notification_stream.is_none());
    assert!(call.action_required_stream.is_none());
    assert_eq!(futures::executor::block_on(call.result), Err(error));

    let value = CallToolResult::success(Vec::new());
    let call = Finished::from(Ok(value.clone()));
    assert_eq!(futures::executor::block_on(call.result), Ok(value));
}

#[test]
fn json_is_copied_with_its_members() {
    let mut object = rmcp::model::JsonObject::new();
    object.insert("a".to_string(), serde_json::Value::Bool(true));
    assert_eq!(copy_json(Some(&object)), Some(object.clone()));
    assert_eq!(copy_json(None), None);
    assert_eq!(copy_json_or_default(&Some(object.clone())), object);
    assert!(copy_json_or_default(&None).is_empty());
}

#[test]
fn emitter_given_last_is_the_one_used() {
    let (first, mut first_rx) = mpsc::channel(1);
    let (second, mut second_rx) = mpsc::channel(1);
    let context = ToolCallContext::new("session".to_string(), None, None)
        .clone()
        .with_notification_emitter(ToolCallNotificationEmitter::new(first))
        .clone()
        .with_notification_emitter(ToolCallNotificationEmitter::new(second))
        .clone();
    context
        .notification_emitter()
        .expect("the emitter")
        .emit_best_effort(tools_changed());
    assert!(first_rx.try_recv().is_err());
    assert!(second_rx.try_recv().is_ok());
}

#[test]
fn clones_of_an_emitter_share_its_channel() {
    let (sender, mut receiver) = mpsc::channel(3);
    let emitter = ToolCallNotificationEmitter::new(sender);
    assert!(receiver.try_recv().is_err());
    let copy = emitter.clone();
    let copy_of_copy = copy.clone();
    copy_of_copy.emit_best_effort(tools_changed());
    emitter.emit_best_effort(prompts_changed());
    copy.emit_best_effort(tools_changed());
    assert!(matches!(
        receiver.try_recv(),
        Ok(ServerNotification::ToolListChangedNotification(_))
    ));
    assert!(matches!(
        receiver.try_recv(),
        Ok(ServerNotification::PromptListChangedNotification(_))
    ));
    assert!(matches!(
        receiver.try_recv(),
        Ok(ServerNotification::ToolListChangedNotification(_))
    ));
}
