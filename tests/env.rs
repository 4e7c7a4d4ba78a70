use ddog::env::EnvConfig;

#[test]
fn env_from_pairs_takes_known_names() {
    let cfg = EnvConfig::from_pairs(vec![
        ("DD_API_KEY".to_string(), "<api_key>".to_string()),
        ("OTHER".to_string(), "x".to_string()),
        ("DD_APPLICATION_KEY".to_string(), "<application_key>".to_string()),
    ]);
    assert_eq!(cfg.api_key, Some("<api_key>".to_string()));
    assert_eq!(cfg.application_key, Some("<application_key>".to_string()));
}

#[test]
fn env_later_entries_override_earlier_ones() {
    let cfg = EnvConfig::from_pairs(vec![
        ("DD_API_KEY".to_string(), "first".to_string()),
        ("DD_API_KEY".to_string(), "second".to_string()),
    ]);
    assert_eq!(cfg.api_key, Some("second".to_string()));
    assert_eq!(cfg.application_key, None);
}

#[test]
fn env_new_without_keys_is_empty() {
    let cfg = EnvConfig::new(None);
    assert_eq!(cfg.api_key, None);
    assert_eq!(cfg.application_key, None);
    let cfg = EnvConfig::new(Some(vec![("DD_APPLICATION_KEY".to_string(), "k".to_string())]));
    assert_eq!(cfg.application_key, Some("k".to_string()));
}

#[test]
fn env_from_entries_splits_at_equals() {
    let cfg = EnvConfig::from_entries(vec![
        "DD_API_KEY=<api_key>".to_string(),
        "  DD_APPLICATION_KEY=<application_key>  ".to_string(),
    ]);
    assert_eq!(cfg.api_key, Some("<api_key>".to_string()));
    assert_eq!(cfg.application_key, Some("<application_key>".to_string()));
}

#[test]
fn env_entry_without_value_or_with_extra_equals() {
    let cfg = EnvConfig::from_entries(vec!["DD_API_KEY".to_string(), "DD_APPLICATION_KEY=a=b".to_string()]);
    assert_eq!(cfg.api_key, Some(String::new()));
    assert_eq!(cfg.application_key, Some("a".to_string()));
}

#[test]
fn env_from_text_reads_comma_separated_entries() {
    let cfg = EnvConfig::from_text("DD_API_KEY=<api_key>,DD_APPLICATION_KEY=<application_key>");
    assert_eq!(cfg.api_key, Some("<api_key>".to_string()));
    assert_eq!(cfg.application_key, Some("<application_key>".to_string()));
    let cfg = EnvConfig::from_text(" DD_APPLICATION_KEY = x ,, OTHER=y,DD_API_KEY=z");
    assert_eq!(cfg.api_key, Some("z".to_string()));
    assert_eq!(cfg.application_key, None);
    let cfg = EnvConfig::from_text("");
    assert_eq!(cfg.api_key, None);
}
