use grok_ask::request::XSearchConfig;

#[test]
fn test_default_config() {
    let config = XSearchConfig::default();
    assert!(config.allowed_handles.is_none());
    assert!(config.excluded_handles.is_none());
    assert!(config.from_date.is_none());
    assert!(config.to_date.is_none());
    assert!(!config.enable_images);
    assert!(!config.enable_video);
}

#[test]
fn test_config_with_handles() {
    let config = XSearchConfig {
        allowed_handles: Some(vec!["user1".to_string(), "user2".to_string()]),
        excluded_handles: None,
        from_date: None,
        to_date: None,
        enable_images: false,
        enable_video: false,
    };

    assert_eq!(
        config.allowed_handles,
        Some(vec!["user1".to_string(), "user2".to_string()])
    );
}

#[test]
fn test_config_with_dates() {
    let config = XSearchConfig {
        allowed_handles: None,
        excluded_handles: None,
        from_date: Some("2025-01-01".to_string()),
        to_date: Some("2025-01-15".to_string()),
        enable_images: false,
        enable_video: false,
    };

    assert_eq!(config.from_date, Some("2025-01-01".to_string()));
    assert_eq!(config.to_date, Some("2025-01-15".to_string()));
}

#[test]
fn test_config_with_media() {
    let config = XSearchConfig {
        allowed_handles: None,
        excluded_handles: None,
        from_date: None,
        to_date: None,
        enable_images: true,
        enable_video: true,
    };

    assert!(config.enable_images);
    assert!(config.enable_video);
}
