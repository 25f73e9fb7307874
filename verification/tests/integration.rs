use grok_ask::format::format_response;
use grok_ask::format::OutputFormat;
use grok_ask::intent::MODEL;
use grok_ask::request::GrokRequest;
use grok_ask::request::Message;
use grok_ask::request::Tool;
use grok_ask::request::WebSearchTool;
use grok_ask::request::XSearchTool;
use grok_ask::response::parse_response;
use grok_ask::response::GrokResponse;

#[test]
fn test_api_request_format() {
    let messages = vec![
        Message {
            role: "system".to_string(),
            content: "Be concise.".to_string(),
        },
        Message {
            role: "user".to_string(),
            content: "test query".to_string(),
        },
    ];

    let request = GrokRequest {
        model: MODEL.to_string(),
        input: messages,
        store: true,
        max_output_tokens: Some(8192),
        previous_response_id: None,
        tools: vec![
            Tool::WebSearch(WebSearchTool {
                kind: "web_search".to_string(),
                enable_image_understanding: None,
            }),
            Tool::XSearch(XSearchTool {
                kind: "x_search".to_string(),
                allowed_x_handles: Some(vec!["elonmusk".to_string()]),
                excluded_x_handles: None,
                from_date: Some("2025-01-01".to_string()),
                to_date: None,
                enable_image_understanding: None,
                enable_video_understanding: None,
            }),
        ],
    };

    let json = serde_json::to_string_pretty(&request.to_json()).unwrap();

    assert!(json.contains("grok-4-1-fast-non-reasoning"));
    assert!(json.contains("Be concise."));
    assert!(json.contains("test query"));
    assert!(json.contains("web_search"));
    assert!(json.contains("x_search"));
    assert!(json.contains("elonmusk"));
    assert!(json.contains("2025-01-01"));
}

#[test]
fn test_response_parsing() {
    let json = r#"{
                "id": "resp_test",
                "status": "completed",
                "output": [
                    {
                        "type": "x_search_result",
                        "results": [
                            {"url": "https://x.com/u/1", "title": "@user"}
                        ]
                    },
                    {
                        "type": "message",
                        "content": [
                            {"type": "output_text", "text": "Test response."}
                        ]
                    }
                ],
                "usage": {"input_tokens": 10, "output_tokens": 20}
            }"#;

    let response: GrokResponse = parse_response(json).unwrap();

    assert_eq!(response.id, Some("resp_test".to_string()));
    assert_eq!(response.status, Some("completed".to_string()));

    let output = format_response(&response, &OutputFormat::Text);
    assert!(output.contains("Test response."));
    assert!(output.contains("[@user](https://x.com/u/1)"));
}
