use grok_ask::format::format_response;
use grok_ask::format::render_text;
use grok_ask::format::OutputFormat;
use grok_ask::intent::Intent;
use grok_ask::intent::Mode;
use grok_ask::intent::MODEL;
use grok_ask::intent::REASONING_MODEL;
use grok_ask::normalize::normalize;
use grok_ask::normalize::CanonicalResult;
use grok_ask::normalize::Source;
use grok_ask::request::build_request;
use grok_ask::request::compose_tools;
use grok_ask::request::create_request;
use grok_ask::request::Tool;
use grok_ask::request::XSearchConfig;
use grok_ask::response::Annotation;
use grok_ask::response::ApiError;
use grok_ask::response::Content;
use grok_ask::response::GrokResponse;
use grok_ask::response::Output;
use grok_ask::response::WebSearchResult;
use grok_ask::text::decimal_text;
use grok_ask::text::same_text;
use grok_ask::transport::prepare_post;

const ALL_MODES: [Mode; 6] = [
    Mode::Search,
    Mode::Ask,
    Mode::Think,
    Mode::Chat,
    Mode::XSearch,
    Mode::XAsk,
];

fn intent(mode: Mode, query: &str) -> Intent {
    Intent {
        mode,
        query: query.to_string(),
        previous_response_id: None,
        x_search: None,
        max_results: 10,
    }
}

fn message(contents: Vec<Content>) -> Output {
    Output {
        kind: "message".to_string(),
        content: Some(contents),
        results: None,
    }
}

fn text(kind: &str, text: Option<&str>, annotations: Option<Vec<Annotation>>) -> Content {
    Content {
        kind: kind.to_string(),
        text: text.map(|t| t.to_string()),
        annotations,
    }
}

fn annotation(url: Option<&str>, title: Option<&str>) -> Annotation {
    Annotation {
        url: url.map(|u| u.to_string()),
        title: title.map(|t| t.to_string()),
    }
}

fn result(url: Option<&str>, title: Option<&str>) -> WebSearchResult {
    WebSearchResult {
        url: url.map(|u| u.to_string()),
        title: title.map(|t| t.to_string()),
    }
}

fn results(kind: &str, list: Vec<WebSearchResult>) -> Output {
    Output {
        kind: kind.to_string(),
        content: None,
        results: Some(list),
    }
}

fn reply(id: Option<&str>, output: Option<Vec<Output>>) -> GrokResponse {
    GrokResponse {
        id: id.map(|i| i.to_string()),
        status: None,
        output,
        usage: None,
        error: None,
    }
}

fn pairs(sources: &[Source]) -> Vec<(String, String)> {
    sources
        .iter()
        .map(|s| (s.title.clone(), s.url.clone()))
        .collect()
}

#[test]
fn decimal_text_renders_digits() {
    assert_eq!(decimal_text(0), "0");
    assert_eq!(decimal_text(7), "7");
    assert_eq!(decimal_text(10), "10");
    assert_eq!(decimal_text(4096), "4096");
    assert_eq!(decimal_text(1234567890), "1234567890");
    assert_eq!(decimal_text(u64::MAX), "18446744073709551615");
}

#[test]
fn same_text_compares_characters() {
    assert!(same_text("message", "message"));
    assert!(!same_text("message", "Message"));
    assert!(!same_text("text", "text "));
    assert!(same_text("", ""));
}

#[test]
fn a_search_names_its_result_limit() {
    let mut search = intent(Mode::Search, "rust async");
    search.max_results = 5;
    let request = create_request(&search);
    assert_eq!(request.input.len(), 2);
    assert_eq!(request.input[0].role, "system");
    assert!(request.input[0].content.contains("Return up to 5 results"));
    assert_eq!(
        request.input[0].content,
        "Search for the query and return results in this exact format:\n\n---\nTITLE: [page title]\nURL: [full url]\nSNIPPET: [2-3 sentence excerpt]\n---\n\nReturn up to 5 results. No additional commentary or analysis."
    );
    assert_eq!(request.input[1].role, "user");
    assert_eq!(request.input[1].content, "rust async");
    assert_eq!(request.tools.len(), 1);
    match &request.tools[0] {
        Tool::WebSearch(tool) => {
            assert_eq!(tool.kind, "web_search");
            assert_eq!(tool.enable_image_understanding, None);
        }
        Tool::XSearch(_) => panic!("a web search carries the web-search descriptor"),
    }
    assert_eq!(request.max_output_tokens, Some(4096));
    assert!(request.store);
    assert_eq!(request.model, "grok-4-1-fast-non-reasoning");
}

#[test]
fn an_x_ask_sends_only_the_filters_that_are_set() {
    let mut ask = intent(Mode::XAsk, "what is new");
    ask.x_search = Some(XSearchConfig {
        allowed_handles: Some(vec!["alice".to_string()]),
        excluded_handles: None,
        from_date: Some("2024-01-01".to_string()),
        to_date: None,
        enable_images: false,
        enable_video: false,
    });
    let request = create_request(&ask);
    assert_eq!(request.tools.len(), 1);
    let json = request.tools[0].to_json_text();
    assert!(json.contains("\"allowed_x_handles\":[\"alice\"]"));
    assert!(json.contains("\"from_date\":\"2024-01-01\""));
    assert!(!json.contains("to_date"));
    assert_eq!(
        json,
        "{\"type\":\"x_search\",\"allowed_x_handles\":[\"alice\"],\"from_date\":\"2024-01-01\"}"
    );
    assert_eq!(
        request.input[0].content,
        "Be concise and factual. Cite X posts when referencing discussions or opinions."
    );
    assert_eq!(request.max_output_tokens, Some(8192));
}

#[test]
fn results_before_the_message_are_listed_after_it() {
    let outputs = vec![
        results("x_search_result", vec![result(Some("u1"), Some("t1"))]),
        message(vec![text("output_text", Some("hi"), None)]),
    ];
    let without_id = reply(None, Some(outputs.clone()));
    assert_eq!(
        format_response(&without_id, &OutputFormat::Text),
        "hi\n\nSources:\n1. [t1](u1)\n\n---\n"
    );
    let with_id = reply(Some("resp_9"), Some(outputs));
    assert_eq!(
        format_response(&with_id, &OutputFormat::Text),
        "hi\n\nSources:\n1. [t1](u1)\n\n---\nTo follow up, use response_id: resp_9\n"
    );
}

#[test]
fn a_url_is_listed_once_with_its_first_title() {
    let response = reply(
        Some("r"),
        Some(vec![
            message(vec![text(
                "output_text",
                Some("a"),
                Some(vec![
                    annotation(Some("https://a.example"), Some("First A")),
                    annotation(Some("https://b.example"), None),
                    annotation(None, Some("No url")),
                ]),
            )]),
            results(
                "web_search_result",
                vec![
                    result(Some("https://a.example"), Some("Second A")),
                    result(Some("https://c.example"), None),
                    result(Some("https://A.example"), Some("Other case")),
                    result(Some("https://a.example/"), Some("Trailing slash")),
                ],
            ),
            results(
                "x_search_result",
                vec![
                    result(Some("https://c.example"), Some("Second C")),
                    result(Some("https://d.example"), None),
                ],
            ),
            message(vec![text(
                "text",
                Some("b"),
                Some(vec![annotation(Some("https://d.example"), Some("Second D"))]),
            )]),
        ]),
    );
    let result = normalize(&response);
    assert_eq!(result.body, "ab");
    assert_eq!(result.error, None);
    assert_eq!(result.response_id, Some("r".to_string()));
    assert_eq!(
        pairs(&result.sources),
        vec![
            ("First A".to_string(), "https://a.example".to_string()),
            ("Source".to_string(), "https://b.example".to_string()),
            ("Web Result".to_string(), "https://c.example".to_string()),
            ("Other case".to_string(), "https://A.example".to_string()),
            ("Trailing slash".to_string(), "https://a.example/".to_string()),
            ("X Post".to_string(), "https://d.example".to_string()),
        ]
    );
}

#[test]
fn only_text_elements_of_messages_count() {
    let response = reply(
        None,
        Some(vec![
            message(vec![
                text("output_text", Some("one"), None),
                text(
                    "refusal",
                    Some("skipped"),
                    Some(vec![annotation(Some("https://skipped.example"), None)]),
                ),
                text("text", None, Some(vec![annotation(Some("https://kept.example"), None)])),
                text("text", Some("two"), None),
            ]),
            Output {
                kind: "reasoning".to_string(),
                content: Some(vec![text("output_text", Some("ignored"), None)]),
                results: Some(vec![result(Some("https://ignored.example"), None)]),
            },
            Output {
                kind: "message".to_string(),
                content: None,
                results: Some(vec![result(Some("https://not-a-result.example"), None)]),
            },
            Output {
                kind: "web_search_result".to_string(),
                content: Some(vec![text("output_text", Some("not text"), None)]),
                results: None,
            },
        ]),
    );
    let result = normalize(&response);
    assert_eq!(result.body, "onetwo");
    assert_eq!(
        pairs(&result.sources),
        vec![("Source".to_string(), "https://kept.example".to_string())]
    );
    assert_eq!(
        format_response(&response, &OutputFormat::Text),
        "onetwo\n\nSources:\n1. [Source](https://kept.example)\n\n---\n"
    );
}

#[test]
fn a_reply_without_output_prints_the_trailer() {
    assert_eq!(
        format_response(&reply(None, None), &OutputFormat::Text),
        "\n---\n"
    );
    assert_eq!(
        format_response(&reply(Some("id1"), Some(vec![])), &OutputFormat::Text),
        "\n---\nTo follow up, use response_id: id1\n"
    );
}

#[test]
fn sources_are_numbered_from_one_past_nine() {
    let list: Vec<WebSearchResult> = (0..12)
        .map(|i| WebSearchResult {
            url: Some(format!("u{}", i)),
            title: Some(format!("t{}", i)),
        })
        .collect();
    let response = reply(None, Some(vec![results("web_search_result", list)]));
    let output = format_response(&response, &OutputFormat::Text);
    let mut expected = String::from("\n\nSources:\n");
    for i in 0..12 {
        expected.push_str(&format!("{}. [t{}](u{})\n", i + 1, i, i));
    }
    expected.push_str("\n---\n");
    assert_eq!(output, expected);
}

#[test]
fn an_error_is_the_whole_text() {
    let mut response = reply(
        Some("resp_err"),
        Some(vec![
            results("web_search_result", vec![result(Some("u1"), Some("t1"))]),
            message(vec![text("output_text", Some("hi"), None)]),
        ]),
    );
    response.error = Some(ApiError {
        message: Some("Rate limit exceeded".to_string()),
        code: Some("429".to_string()),
    });
    assert_eq!(
        format_response(&response, &OutputFormat::Text),
        "Error: Rate limit exceeded\n"
    );
    let result = normalize(&response);
    assert_eq!(result.error, Some("Rate limit exceeded".to_string()));
    assert_eq!(result.body, "");
    assert!(result.sources.is_empty());

    response.error = Some(ApiError {
        message: None,
        code: None,
    });
    assert_eq!(
        format_response(&response, &OutputFormat::Text),
        "Error: Unknown error\n"
    );
}

#[test]
fn render_text_follows_the_canonical_result() {
    let result = CanonicalResult {
        body: "Body".to_string(),
        sources: vec![
            Source {
                title: "T".to_string(),
                url: "https://t.example".to_string(),
            },
        ],
        response_id: Some("rid".to_string()),
        error: None,
    };
    assert_eq!(
        render_text(&result),
        "Body\n\nSources:\n1. [T](https://t.example)\n\n---\nTo follow up, use response_id: rid\n"
    );
    let failed = CanonicalResult {
        body: "Body".to_string(),
        sources: vec![],
        response_id: Some("rid".to_string()),
        error: Some("boom".to_string()),
    };
    assert_eq!(render_text(&failed), "Error: boom\n");
}

#[test]
fn the_reasoning_model_serves_think_only() {
    for mode in ALL_MODES {
        let request = create_request(&intent(mode, "q"));
        if mode == Mode::Think {
            assert_eq!(request.model, REASONING_MODEL);
            assert_eq!(mode.model(), "grok-4-1-fast");
            assert!(mode.uses_reasoning());
        } else {
            assert_eq!(request.model, MODEL);
            assert_eq!(mode.model(), "grok-4-1-fast-non-reasoning");
            assert!(!mode.uses_reasoning());
        }
    }
}

#[test]
fn the_tools_follow_the_mode() {
    for mode in ALL_MODES {
        let request = create_request(&intent(mode, "q"));
        let kinds: Vec<String> = request
            .tools
            .iter()
            .map(|t| match t {
                Tool::WebSearch(w) => w.kind.clone(),
                Tool::XSearch(x) => x.kind.clone(),
            })
            .collect();
        match mode {
            Mode::Chat => assert!(kinds.is_empty()),
            Mode::Search | Mode::Ask | Mode::Think => assert_eq!(kinds, vec!["web_search"]),
            Mode::XSearch | Mode::XAsk => assert_eq!(kinds, vec!["x_search"]),
        }
    }
}

#[test]
fn the_mode_table_is_exact() {
    let expected: [(Mode, u32, bool, bool, bool, Option<&str>); 6] = [
        (
            Mode::Search,
            4096,
            true,
            false,
            false,
            Some("Search for the query and return results in this exact format:\n\n---\nTITLE: [page title]\nURL: [full url]\nSNIPPET: [2-3 sentence excerpt]\n---\n\nReturn up to 10 results. No additional commentary or analysis."),
        ),
        (
            Mode::Ask,
            8192,
            true,
            false,
            false,
            Some("Be concise and factual. Cite sources when using web information."),
        ),
        (
            Mode::Think,
            16384,
            true,
            false,
            true,
            Some("Think step by step. Be thorough and cite sources."),
        ),
        (Mode::Chat, 8192, false, false, false, None),
        (
            Mode::XSearch,
            4096,
            false,
            true,
            false,
            Some("Search X for the query and return results in this exact format:\n\n---\nAUTHOR: @[handle]\nPOST: [post content]\nURL: [full x.com url]\n---\n\nReturn up to 10 results. No additional commentary or analysis."),
        ),
        (
            Mode::XAsk,
            8192,
            false,
            true,
            false,
            Some("Be concise and factual. Cite X posts when referencing discussions or opinions."),
        ),
    ];
    for (mode, budget, web, x, reasoning, instruction) in expected {
        assert_eq!(mode.max_output_tokens(), budget);
        assert_eq!(mode.uses_web_search(), web);
        assert_eq!(mode.uses_x_search(), x);
        assert_eq!(mode.uses_reasoning(), reasoning);
        assert_eq!(
            mode.system_instruction(10),
            instruction.map(|i| i.to_string())
        );
    }
}

#[test]
fn chat_sends_no_system_message_and_no_tools_key() {
    let mut chat = intent(Mode::Chat, "");
    chat.previous_response_id = Some("resp_prev".to_string());
    let request = create_request(&chat);
    assert_eq!(request.input.len(), 1);
    assert_eq!(request.input[0].role, "user");
    assert_eq!(request.input[0].content, "");
    assert_eq!(request.previous_response_id, Some("resp_prev".to_string()));
    assert_eq!(
        request.to_json_text(),
        "{\"model\":\"grok-4-1-fast-non-reasoning\",\"input\":[{\"role\":\"user\",\"content\":\"\"}],\"store\":true,\"max_output_tokens\":8192,\"previous_response_id\":\"resp_prev\"}"
    );
}

#[test]
fn compose_tools_puts_web_search_first() {
    let filter = XSearchConfig {
        allowed_handles: None,
        excluded_handles: Some(vec!["bot".to_string()]),
        from_date: None,
        to_date: Some("2025-03-01".to_string()),
        enable_images: true,
        enable_video: false,
    };
    let tools = compose_tools(true, true, Some(filter));
    assert_eq!(tools.len(), 2);
    assert_eq!(tools[0].to_json_text(), "{\"type\":\"web_search\"}");
    assert_eq!(
        tools[1].to_json_text(),
        "{\"type\":\"x_search\",\"excluded_x_handles\":[\"bot\"],\"to_date\":\"2025-03-01\",\"enable_image_understanding\":true}"
    );
    assert!(compose_tools(false, false, Some(XSearchConfig::default())).is_empty());
    let bare = compose_tools(false, true, None);
    assert_eq!(bare.len(), 1);
    assert_eq!(bare[0].to_json_text(), "{\"type\":\"x_search\"}");
}

#[test]
fn build_request_takes_the_tools_it_is_given() {
    let think = intent(Mode::Think, "why");
    let request = build_request(&think, vec![]);
    assert!(request.tools.is_empty());
    assert_eq!(request.model, "grok-4-1-fast");
    assert_eq!(request.max_output_tokens, Some(16384));
    assert_eq!(request.input.len(), 2);
    assert_eq!(
        request.input[0].content,
        "Think step by step. Be thorough and cite sources."
    );
}

#[test]
fn prepare_post_names_endpoint_headers_and_body() {
    let request = create_request(&intent(Mode::Chat, "hello"));
    let post = prepare_post(&request, "SECRET-TOKEN");
    assert_eq!(post.url, "https://api.x.ai/v1/responses");
    assert_eq!(
        post.headers,
        vec![
            ("Authorization".to_string(), "Bearer SECRET-TOKEN".to_string()),
            ("Content-Type".to_string(), "application/json".to_string()),
        ]
    );
    assert_eq!(post.body, request.to_json_text());
    assert_eq!(
        post.body,
        "{\"model\":\"grok-4-1-fast-non-reasoning\",\"input\":[{\"role\":\"user\",\"content\":\"hello\"}],\"store\":true,\"max_output_tokens\":8192}"
    );
}
