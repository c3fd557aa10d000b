use open_pr::config::Config;
use open_pr::record::{
    config_entries, config_from_entries, decode_config, encode_config, find_string,
};

fn config(owner: &str, repo_name: &str, default_branch: &str) -> Config {
    Config::new(owner.to_string(), repo_name.to_string(), default_branch.to_string())
}

fn entry(k: &str, v: Option<&str>) -> (String, Option<String>) {
    (k.to_string(), v.map(|s| s.to_string()))
}

#[test]
fn encode_then_decode_gives_config_back() {
    let c = config("acme", "widgets", "main");
    let text = encode_config(&c).unwrap();
    assert_eq!(decode_config(&text), Some(c));
}

#[test]
fn encode_then_decode_with_quotes_and_unicode() {
    let c = config("o\"brien", "back\\slash", "feature/ümlaut");
    let text = encode_config(&c).unwrap();
    assert_eq!(decode_config(&text), Some(c));
}

#[test]
fn encoded_record_holds_key_value_lines() {
    let text = encode_config(&config("acme", "widgets", "main")).unwrap();
    assert!(text.contains("owner = \"acme\""));
    assert!(text.contains("repo_name = \"widgets\""));
    assert!(text.contains("default_branch = \"main\""));
}

#[test]
fn decode_accepts_reordered_and_unknown_keys() {
    let text = "extra = 5\nrepo_name = \"widgets\"\nowner = \"acme\"\ndefault_branch = \"main\"\n";
    assert_eq!(decode_config(text), Some(config("acme", "widgets", "main")));
}

#[test]
fn decode_rejects_missing_field() {
    assert_eq!(decode_config("owner = \"acme\"\nrepo_name = \"widgets\"\n"), None);
}

#[test]
fn decode_rejects_non_string_field() {
    assert_eq!(
        decode_config("owner = \"acme\"\nrepo_name = 3\ndefault_branch = \"main\"\n"),
        None
    );
}

#[test]
fn decode_rejects_text_that_is_no_toml() {
    assert_eq!(decode_config("this is = = not toml"), None);
}

#[test]
fn decode_rejects_empty_text() {
    assert_eq!(decode_config(""), None);
}

#[test]
fn config_entries_in_key_order() {
    let e = config_entries(&config("acme", "widgets", "main"));
    assert_eq!(
        e,
        vec![
            ("default_branch".to_string(), "main".to_string()),
            ("owner".to_string(), "acme".to_string()),
            ("repo_name".to_string(), "widgets".to_string()),
        ]
    );
}

#[test]
fn find_string_takes_first_entry_with_key() {
    let e = vec![entry("a", None), entry("owner", Some("x")), entry("owner", Some("y"))];
    assert_eq!(find_string(&e, "owner"), Some("x".to_string()));
    assert_eq!(find_string(&e, "a"), None);
    assert_eq!(find_string(&e, "missing"), None);
}

#[test]
fn config_from_entries_needs_all_three() {
    let full = vec![
        entry("default_branch", Some("main")),
        entry("owner", Some("acme")),
        entry("repo_name", Some("widgets")),
    ];
    assert_eq!(config_from_entries(&full), Some(config("acme", "widgets", "main")));
    let partial = vec![entry("owner", Some("acme")), entry("repo_name", Some("widgets"))];
    assert_eq!(config_from_entries(&partial), None);
    let wrong_type = vec![
        entry("default_branch", None),
        entry("owner", Some("acme")),
        entry("repo_name", Some("widgets")),
    ];
    assert_eq!(config_from_entries(&wrong_type), None);
}
