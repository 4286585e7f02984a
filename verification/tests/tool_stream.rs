use rmcp::model::ServerNotification;
use tool_execution::message::{Message, Role};
use tool_execution::tool_stream::{ToolStreamEvent, ToolStreamItem, ToolStreamState};

#[test]
fn items_come_in_order_and_the_result_ends_the_stream() {
    let mut state = ToolStreamState::new();
    let notification = ServerNotification::ToolListChangedNotification(Default::default());
    let first = state.accept::<u32>(ToolStreamEvent::Notification(notification));
    assert!(matches!(
        first,
        Some(ToolStreamItem::Message(
            ServerNotification::ToolListChangedNotification(_)
        ))
    ));
    let second = state.accept::<u32>(ToolStreamEvent::ActionRequired(Message::assistant()));
    match second {
        Some(ToolStreamItem::ActionRequired(message)) => {
            assert_eq!(message.role, Role::Assistant)
        }
        _ => panic!("the question should be passed on"),
    }
    assert!(!state.ended);
    assert!(matches!(
        state.accept(ToolStreamEvent::Done(7u32)),
        Some(ToolStreamItem::Result(7))
    ));
    assert!(state.ended);
    assert!(state.accept(ToolStreamEvent::Done(8u32)).is_none());
    assert!(state
        .accept::<u32>(ToolStreamEvent::ActionRequired(Message::assistant()))
        .is_none());
    assert!(state.ended);
}
