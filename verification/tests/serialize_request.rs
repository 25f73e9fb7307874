use grok_ask::request::GrokRequest;
use grok_ask::request::Message;
use grok_ask::request::Tool;
use grok_ask::request::WebSearchTool;
use grok_ask::request::XSearchTool;

#[test]
fn test_web_search_tool_serialization() {
    let tool = Tool::WebSearch(WebSearchTool {
        kind: "web_search".to_string(),
        enable_image_understanding: None,
    });

    let json = tool.to_json_text();
    assert!(json.contains("\"type\":\"web_search\""));
    assert!(!json.contains("enable_image_understanding"));
}

#[test]
fn test_x_search_tool_serialization() {
    let tool = Tool::XSearch(XSearchTool {
        kind: "x_search".to_string(),
        allowed_x_handles: Some(vec!["user1".to_string(), "user2".to_string()]),
        excluded_x_handles: None,
        from_date: Some("2025-01-01".to_string()),
        to_date: Some("2025-01-15".to_string()),
        enable_image_understanding: Some(true),
        enable_video_understanding: Some(true),
    });

    let json = tool.to_json_text();
    assert!(json.contains("\"type\":\"x_search\""));
    assert!(json.contains("\"allowed_x_handles\":[\"user1\",\"user2\"]"));
    assert!(json.contains("\"from_date\":\"2025-01-01\""));
    assert!(json.contains("\"to_date\":\"2025-01-15\""));
    assert!(json.contains("\"enable_image_understanding\":true"));
    assert!(json.contains("\"enable_video_understanding\":true"));
}

#[test]
fn test_x_search_tool_minimal() {
    let tool = Tool::XSearch(XSearchTool {
        kind: "x_search".to_string(),
        allowed_x_handles: None,
        excluded_x_handles: None,
        from_date: None,
        to_date: None,
        enable_image_understanding: None,
        enable_video_understanding: None,
    });

    let json = tool.to_json_text();
    assert!(json.contains("\"type\":\"x_search\""));
    assert!(!json.contains("allowed_x_handles"));
    assert!(!json.contains("from_date"));
}

#[test]
fn test_request_serialization() {
    let request = GrokRequest {
        model: "grok-4-1-fast".to_string(),
        input: vec![Message {
            role: "user".to_string(),
            content: "test query".to_string(),
        }],
        store: true,
        max_output_tokens: Some(8192),
        previous_response_id: Some("resp_prev".to_string()),
        tools: vec![Tool::WebSearch(WebSearchTool {
            kind: "web_search".to_string(),
            enable_image_understanding: None,
        })],
    };

    let json = request.to_json_text();
    assert!(json.contains("\"model\":\"grok-4-1-fast\""));
    assert!(json.contains("\"store\":true"));
    assert!(json.contains("\"max_output_tokens\":8192"));
    assert!(json.contains("\"previous_response_id\":\"resp_prev\""));
    assert!(json.contains("\"type\":\"web_search\""));
}

#[test]
fn test_request_without_tools() {
    let request = GrokRequest {
        model: "grok-4-1-fast-non-reasoning".to_string(),
        input: vec![Message {
            role: "user".to_string(),
            content: "chat".to_string(),
        }],
        store: true,
        max_output_tokens: None,
        previous_response_id: None,
        tools: vec![],
    };

    let json = request.to_json_text();
    assert!(!json.contains("\"tools\""));
    assert!(!json.contains("\"max_output_tokens\""));
    assert!(!json.contains("\"previous_response_id\""));
}

#[test]
fn request_serialization_is_exact() {
    let request = GrokRequest {
        model: "grok-4-1-fast".to_string(),
        input: vec![Message {
            role: "user".to_string(),
            content: "test query".to_string(),
        }],
        store: true,
        max_output_tokens: Some(8192),
        previous_response_id: Some("resp_prev".to_string()),
        tools: vec![Tool::WebSearch(WebSearchTool {
            kind: "web_search".to_string(),
            enable_image_understanding: None,
        })],
    };
    assert_eq!(
        request.to_json_text(),
        "{\"model\":\"grok-4-1-fast\",\"input\":[{\"role\":\"user\",\"content\":\"test query\"}],\"store\":true,\"max_output_tokens\":8192,\"previous_response_id\":\"resp_prev\",\"tools\":[{\"type\":\"web_search\"}]}"
    );
}

#[test]
fn request_without_optional_fields_is_exact() {
    let request = GrokRequest {
        model: "grok-4-1-fast-non-reasoning".to_string(),
        input: vec![Message {
            role: "user".to_string(),
            content: "chat".to_string(),
        }],
        store: true,
        max_output_tokens: None,
        previous_response_id: None,
        tools: vec![],
    };
    assert_eq!(
        request.to_json_text(),
        "{\"model\":\"grok-4-1-fast-non-reasoning\",\"input\":[{\"role\":\"user\",\"content\":\"chat\"}],\"store\":true}"
    );
}

#[test]
fn tool_flags_are_sent_as_given() {
    let web = Tool::WebSearch(WebSearchTool {
        kind: "web_search".to_string(),
        enable_image_understanding: Some(true),
    });
    assert_eq!(
        web.to_json_text(),
        "{\"type\":\"web_search\",\"enable_image_understanding\":true}"
    );
    let x = Tool::XSearch(XSearchTool {
        kind: "x_search".to_string(),
        allowed_x_handles: None,
        excluded_x_handles: Some(vec!["spam".to_string()]),
        from_date: None,
        to_date: Some("2025-02-01".to_string()),
        enable_image_understanding: None,
        enable_video_understanding: Some(false),
    });
    assert_eq!(
        x.to_json_text(),
        "{\"type\":\"x_search\",\"excluded_x_handles\":[\"spam\"],\"to_date\":\"2025-02-01\",\"enable_video_understanding\":false}"
    );
}

#[test]
fn strings_are_escaped_by_the_json_writer() {
    let message = Message {
        role: "user".to_string(),
        content: "say \"hi\"\n".to_string(),
    };
    let text = serde_json::to_string(&message.to_json()).unwrap();
    assert_eq!(text, "{\"role\":\"user\",\"content\":\"say \\\"hi\\\"\\n\"}");
}
