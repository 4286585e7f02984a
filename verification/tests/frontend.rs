use rmcp::model::{CallToolRequestParams, CallToolResult, ErrorCode, ErrorData, JsonObject};
use serde_json::Value;
use tool_execution::frontend::FrontendRun;
use tool_execution::message::{Message, MessageContent, Role, ToolResponseBody};
use tool_execution::request::{ToolCall, ToolRequest};

fn metadata() -> JsonObject {
    let mut object = JsonObject::new();
    object.insert("provider".to_string(), Value::String("p".to_string()));
    object
}

fn params() -> CallToolRequestParams {
    CallToolRequestParams::new("show_map")
        .with_arguments(metadata())
        .with_request_state("state")
}

fn request() -> ToolRequest {
    ToolRequest {
        id: "request".to_string(),
        tool_call: Ok(ToolCall::new(params())),
        metadata: Some(metadata()),
    }
}

#[test]
fn frontend_tool_is_shown_and_its_result_recorded() {
    let mut run = FrontendRun::new(request());
    assert_eq!(run.tool_to_check().map(|name| name.as_str()), Some("show_map"));
    let shown = run.checked(true).expect("the frontend should be shown the request");
    assert_eq!(shown.role, Role::Assistant);
    assert_eq!(shown.content.len(), 1);
    match &shown.content[0] {
        MessageContent::FrontendToolRequest(part) => {
            assert_eq!(part.id, "request");
            match &part.tool_call {
                Ok(call) => {
                    assert_eq!(call.name(), "show_map");
                    assert_eq!(call.arguments(), &Some(metadata()));
                    assert_eq!(call.params(), &params());
                    assert_eq!(call.params().request_state, Some("state".to_string()));
                }
                Err(_) => panic!("the call should be shown"),
            }
        }
        _ => panic!("the message should hold the request"),
    }
    assert!(run.tool_to_check().is_none());
    assert!(run.checked(true).is_none());

    let mut response = Message::user();
    let value = CallToolResult::success(Vec::new());
    run.received(&mut response, Some(("other-id".to_string(), Ok(value.clone()))));
    run.received(&mut response, Some(("again".to_string(), Ok(value.clone()))));
    assert_eq!(response.content.len(), 1);
    match &response.content[0] {
        MessageContent::ToolResponse(part) => {
            assert_eq!(part.id, "other-id");
            assert_eq!(part.metadata, Some(metadata()));
            assert_eq!(part.provenance, None);
            assert!(!part.is_canonical_goose_control_response());
            match &part.body {
                ToolResponseBody::Returned(result) => assert_eq!(result, &Ok(value)),
                ToolResponseBody::Notice(_) => panic!("the result should be recorded"),
            }
        }
        _ => panic!("the message should hold the response"),
    }
}

#[test]
fn other_tools_are_left_alone() {
    let mut run = FrontendRun::new(request());
    assert!(run.checked(false).is_none());
    let mut response = Message::user();
    run.received(
        &mut response,
        Some(("request".to_string(), Ok(CallToolResult::success(Vec::new())))),
    );
    assert!(response.content.is_empty());
}

#[test]
fn unreadable_call_is_left_alone() {
    let mut unreadable = request();
    unreadable.tool_call = Err(ErrorData::new(ErrorCode::INVALID_PARAMS, "unreadable", None));
    let mut run = FrontendRun::new(unreadable);
    assert!(run.tool_to_check().is_none());
    assert!(run.checked(true).is_none());
}

#[test]
fn closed_frontend_channel_records_nothing() {
    let mut run = FrontendRun::new(request());
    assert!(run.checked(true).is_some());
    let mut response = Message::user();
    run.received(&mut response, None);
    assert!(response.content.is_empty());
}
