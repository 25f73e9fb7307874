use grok_ask::format::OutputFormat;
use grok_ask::intent::Mode;
use grok_ask::request::XSearchConfig;
use grok_ask::resolve::require_api_key;
use grok_ask::resolve::resolve;
use grok_ask::resolve::Cli;
use grok_ask::resolve::Commands;
use grok_ask::resolve::ConfigError;

fn empty_cli() -> Cli {
    Cli {
        command: None,
        search: None,
        ask: None,
        think: None,
        chat: None,
        x_search: None,
        x_ask: None,
        response_id: None,
        filter: XSearchConfig::default(),
        output: OutputFormat::Text,
    }
}

fn filter(handle: &str) -> XSearchConfig {
    XSearchConfig {
        allowed_handles: Some(vec![handle.to_string()]),
        excluded_handles: None,
        from_date: Some("2025-01-01".to_string()),
        to_date: None,
        enable_images: true,
        enable_video: false,
    }
}

#[test]
fn no_mode_is_an_error() {
    assert_eq!(resolve(&empty_cli()).unwrap_err(), ConfigError::NoMode);
    let mut cli = empty_cli();
    cli.response_id = Some("resp".to_string());
    cli.filter = filter("alice");
    assert_eq!(resolve(&cli).unwrap_err(), ConfigError::NoMode);
}

#[test]
fn more_than_one_mode_is_an_error() {
    let mut cli = empty_cli();
    cli.search = Some("a".to_string());
    cli.ask = Some("b".to_string());
    assert_eq!(resolve(&cli).unwrap_err(), ConfigError::AmbiguousMode);

    let mut cli = empty_cli();
    cli.chat = Some("a".to_string());
    cli.command = Some(Commands::Chat {
        query: "a".to_string(),
        response_id: None,
    });
    assert_eq!(resolve(&cli).unwrap_err(), ConfigError::AmbiguousMode);

    let mut cli = empty_cli();
    cli.search = Some("a".to_string());
    cli.ask = Some("a".to_string());
    cli.think = Some("a".to_string());
    cli.chat = Some("a".to_string());
    cli.x_search = Some("a".to_string());
    cli.x_ask = Some("a".to_string());
    cli.command = Some(Commands::Search {
        query: "a".to_string(),
        max_results: 3,
    });
    assert_eq!(resolve(&cli).unwrap_err(), ConfigError::AmbiguousMode);
}

#[test]
fn a_shorthand_flag_takes_the_top_level_options() {
    let mut cli = empty_cli();
    cli.search = Some("rust".to_string());
    cli.response_id = Some("resp_1".to_string());
    cli.filter = filter("alice");
    let intent = resolve(&cli).unwrap();
    assert_eq!(intent.mode, Mode::Search);
    assert_eq!(intent.query, "rust");
    assert_eq!(intent.previous_response_id, Some("resp_1".to_string()));
    assert!(intent.x_search.is_none());
    assert_eq!(intent.max_results, 10);

    let mut cli = empty_cli();
    cli.x_ask = Some("news".to_string());
    cli.response_id = Some("resp_2".to_string());
    cli.filter = filter("bob");
    let intent = resolve(&cli).unwrap();
    assert_eq!(intent.mode, Mode::XAsk);
    assert_eq!(intent.query, "news");
    assert_eq!(intent.previous_response_id, Some("resp_2".to_string()));
    let config = intent.x_search.unwrap();
    assert_eq!(config.allowed_handles, Some(vec!["bob".to_string()]));
    assert_eq!(config.excluded_handles, None);
    assert_eq!(config.from_date, Some("2025-01-01".to_string()));
    assert_eq!(config.to_date, None);
    assert!(config.enable_images);
    assert!(!config.enable_video);
}

#[test]
fn each_shorthand_flag_chooses_its_mode() {
    let modes = [
        Mode::Search,
        Mode::Ask,
        Mode::Think,
        Mode::Chat,
        Mode::XSearch,
        Mode::XAsk,
    ];
    for (i, mode) in modes.iter().enumerate() {
        let mut cli = empty_cli();
        let query = Some(format!("q{}", i));
        match i {
            0 => cli.search = query,
            1 => cli.ask = query,
            2 => cli.think = query,
            3 => cli.chat = query,
            4 => cli.x_search = query,
            _ => cli.x_ask = query,
        }
        let intent = resolve(&cli).unwrap();
        assert_eq!(intent.mode, *mode);
        assert_eq!(intent.query, format!("q{}", i));
        assert_eq!(intent.x_search.is_some(), mode.uses_x_search());
        assert_eq!(intent.max_results, 10);
    }
}

#[test]
fn a_subcommand_takes_its_own_options() {
    let mut cli = empty_cli();
    cli.response_id = Some("top".to_string());
    cli.filter = filter("top");
    cli.command = Some(Commands::Search {
        query: "rust".to_string(),
        max_results: 5,
    });
    let intent = resolve(&cli).unwrap();
    assert_eq!(intent.mode, Mode::Search);
    assert_eq!(intent.max_results, 5);
    assert_eq!(intent.previous_response_id, None);
    assert!(intent.x_search.is_none());

    cli.command = Some(Commands::Ask {
        query: "why".to_string(),
        response_id: Some("own".to_string()),
    });
    let intent = resolve(&cli).unwrap();
    assert_eq!(intent.mode, Mode::Ask);
    assert_eq!(intent.previous_response_id, Some("own".to_string()));

    cli.command = Some(Commands::Think {
        query: "why".to_string(),
        response_id: None,
    });
    let intent = resolve(&cli).unwrap();
    assert_eq!(intent.mode, Mode::Think);
    assert_eq!(intent.previous_response_id, None);

    cli.command = Some(Commands::Chat {
        query: "hi".to_string(),
        response_id: Some("own".to_string()),
    });
    let intent = resolve(&cli).unwrap();
    assert_eq!(intent.mode, Mode::Chat);
    assert_eq!(intent.query, "hi");

    cli.command = Some(Commands::XSearch {
        query: "posts".to_string(),
        max_results: 7,
        filter: filter("own"),
    });
    let intent = resolve(&cli).unwrap();
    assert_eq!(intent.mode, Mode::XSearch);
    assert_eq!(intent.max_results, 7);
    assert_eq!(intent.previous_response_id, None);
    assert_eq!(
        intent.x_search.unwrap().allowed_handles,
        Some(vec!["own".to_string()])
    );

    cli.command = Some(Commands::XAsk {
        query: "posts".to_string(),
        response_id: Some("own".to_string()),
        filter: filter("own"),
    });
    let intent = resolve(&cli).unwrap();
    assert_eq!(intent.mode, Mode::XAsk);
    assert_eq!(intent.max_results, 10);
    assert_eq!(intent.previous_response_id, Some("own".to_string()));
    assert_eq!(
        intent.x_search.unwrap().allowed_handles,
        Some(vec!["own".to_string()])
    );
}

#[test]
fn a_missing_api_key_is_an_error() {
    assert_eq!(
        require_api_key(Some("key".to_string())),
        Ok("key".to_string())
    );
    assert_eq!(require_api_key(None), Err(ConfigError::MissingApiKey));
}

#[test]
fn each_configuration_error_has_its_words() {
    assert_eq!(
        ConfigError::NoMode.message(),
        "No command or query provided. Use --help for usage."
    );
    assert_eq!(
        ConfigError::AmbiguousMode.message(),
        "More than one mode selected. Give exactly one command or query flag."
    );
    assert_eq!(
        ConfigError::MissingApiKey.message(),
        "XAI_API_KEY environment variable not set. Get your key from https://console.x.ai/"
    );
}
