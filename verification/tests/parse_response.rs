use grok_ask::format::format_response;
use grok_ask::format::OutputFormat;
use grok_ask::response::ApiError;
use grok_ask::response::Content;
use grok_ask::response::GrokResponse;
use grok_ask::response::Output;
use grok_ask::response::WebSearchResult;

fn make_response(text: &str, sources: Vec<(&str, &str)>) -> GrokResponse {
    let results: Vec<WebSearchResult> = sources
        .iter()
        .map(|(title, url)| WebSearchResult {
            title: Some(title.to_string()),
            url: Some(url.to_string()),
        })
        .collect();

    GrokResponse {
        id: Some("resp_123".to_string()),
        status: Some("completed".to_string()),
        output: Some(vec![
            Output {
                kind: "web_search_result".to_string(),
                content: None,
                results: Some(results),
            },
            Output {
                kind: "message".to_string(),
                content: Some(vec![Content {
                    kind: "output_text".to_string(),
                    text: Some(text.to_string()),
                    annotations: None,
                }]),
                results: None,
            },
        ]),
        usage: None,
        error: None,
    }
}

#[test]
fn test_format_simple_response() {
    let response = GrokResponse {
        id: Some("resp_123".to_string()),
        status: Some("completed".to_string()),
        output: Some(vec![Output {
            kind: "message".to_string(),
            content: Some(vec![Content {
                kind: "output_text".to_string(),
                text: Some("Hello, world!".to_string()),
                annotations: None,
            }]),
            results: None,
        }]),
        usage: None,
        error: None,
    };

    let output = format_response(&response, &OutputFormat::Text);
    assert!(output.contains("Hello, world!"));
    assert!(output.contains("response_id: resp_123"));
}

#[test]
fn test_format_response_with_sources() {
    let response = make_response(
        "Found results.",
        vec![("News", "https://news.com"), ("Blog", "https://blog.com")],
    );

    let output = format_response(&response, &OutputFormat::Text);
    assert!(output.contains("Found results."));
    assert!(output.contains("Sources:"));
    assert!(output.contains("[News](https://news.com)"));
    assert!(output.contains("[Blog](https://blog.com)"));
}

#[test]
fn test_format_error_response() {
    let response = GrokResponse {
        id: None,
        status: Some("failed".to_string()),
        output: None,
        usage: None,
        error: Some(ApiError {
            message: Some("Rate limit exceeded".to_string()),
            code: Some("429".to_string()),
        }),
    };

    let output = format_response(&response, &OutputFormat::Text);
    assert!(output.contains("Error: Rate limit exceeded"));
}

#[test]
fn test_format_json_output() {
    let response = GrokResponse {
        id: Some("resp_json".to_string()),
        status: Some("completed".to_string()),
        output: Some(vec![]),
        usage: None,
        error: None,
    };

    let output = format_response(&response, &OutputFormat::Json);
    assert!(output.contains("\"id\": \"resp_json\""));
    assert!(output.contains("\"status\": \"completed\""));
}

#[test]
fn test_x_search_result_parsing() {
    let response = GrokResponse {
        id: Some("resp_x".to_string()),
        status: Some("completed".to_string()),
        output: Some(vec![
            Output {
                kind: "x_search_result".to_string(),
                content: None,
                results: Some(vec![WebSearchResult {
                    title: Some("@user".to_string()),
                    url: Some("https://x.com/user/status/123".to_string()),
                }]),
            },
            Output {
                kind: "message".to_string(),
                content: Some(vec![Content {
                    kind: "output_text".to_string(),
                    text: Some("X post found.".to_string()),
                    annotations: None,
                }]),
                results: None,
            },
        ]),
        usage: None,
        error: None,
    };

    let output = format_response(&response, &OutputFormat::Text);
    assert!(output.contains("X post found."));
    assert!(output.contains("[@user](https://x.com/user/status/123)"));
}

#[test]
fn format_response_with_sources_is_exact() {
    let response = make_response(
        "Found results.",
        vec![("News", "https://news.com"), ("Blog", "https://blog.com")],
    );
    let output = format_response(&response, &OutputFormat::Text);
    assert_eq!(
        output,
        "Found results.\n\nSources:\n1. [News](https://news.com)\n2. [Blog](https://blog.com)\n\n---\nTo follow up, use response_id: resp_123\n"
    );
}

#[test]
fn format_json_output_is_exact() {
    let response = GrokResponse {
        id: Some("resp_json".to_string()),
        status: Some("completed".to_string()),
        output: Some(vec![]),
        usage: None,
        error: None,
    };
    let output = format_response(&response, &OutputFormat::Json);
    assert_eq!(
        output,
        "{\n  \"id\": \"resp_json\",\n  \"status\": \"completed\",\n  \"output\": [],\n  \"usage\": null,\n  \"error\": null\n}"
    );
}
