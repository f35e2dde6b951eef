use podcast::config::{Config, MAX_CONFIG_CHARS};

#[test]
fn config_without_file_has_defaults() {
    assert_eq!(Config::new(None), Config { auto_download_limit: 1, auto_delete_limit: 0 });
    assert_eq!(Config::defaults(), Config { auto_download_limit: 1, auto_delete_limit: 0 });
}

#[test]
fn config_reads_both_limits() {
    let text = "auto_download_limit: 5\nauto_delete_limit: 2\n";
    assert_eq!(Config::new(Some(text)), Config { auto_download_limit: 5, auto_delete_limit: 2 });
}

#[test]
fn config_keeps_default_for_missing_key() {
    assert_eq!(
        Config::new(Some("auto_delete_limit: 7")),
        Config { auto_download_limit: 1, auto_delete_limit: 7 }
    );
    assert_eq!(
        Config::new(Some("auto_download_limit: 3")),
        Config { auto_download_limit: 3, auto_delete_limit: 0 }
    );
}

#[test]
fn config_keeps_default_for_value_that_is_no_integer() {
    let text = "auto_download_limit: many\nauto_delete_limit: 2.5\n";
    assert_eq!(Config::new(Some(text)), Config { auto_download_limit: 1, auto_delete_limit: 0 });
}

#[test]
fn config_ignores_unknown_keys() {
    let text = "colour: blue\nauto_download_limit: 4\n";
    assert_eq!(Config::new(Some(text)), Config { auto_download_limit: 4, auto_delete_limit: 0 });
}

#[test]
fn config_of_empty_file_has_defaults() {
    assert_eq!(Config::new(Some("")), Config::defaults());
}

#[test]
fn config_of_text_that_is_no_yaml_has_defaults() {
    assert_eq!(Config::new(Some("auto_download_limit: [1, 2")), Config::defaults());
}

#[test]
fn config_of_document_that_is_no_mapping_has_defaults() {
    assert_eq!(Config::new(Some("- 1\n- 2\n")), Config::defaults());
}

#[test]
fn config_reads_the_first_document_only() {
    let text = "auto_download_limit: 2\n---\nauto_download_limit: 9\n";
    assert_eq!(Config::new(Some(text)), Config { auto_download_limit: 2, auto_delete_limit: 0 });
}

#[test]
fn config_accepts_negative_limits() {
    let text = "auto_download_limit: -3\n";
    assert_eq!(Config::new(Some(text)), Config { auto_download_limit: -3, auto_delete_limit: 0 });
}

#[test]
fn default_file_contents_give_the_defaults() {
    assert_eq!(Config::default_file_contents(), "auto_download_limit: 1");
    assert_eq!(Config::new(Some(Config::default_file_contents())), Config::defaults());
}

#[test]
fn from_limits_fills_in_defaults() {
    assert_eq!(Config::from_limits(Some(8), Some(9)), Config { auto_download_limit: 8, auto_delete_limit: 9 });
    assert_eq!(Config::from_limits(None, Some(9)), Config { auto_download_limit: 1, auto_delete_limit: 9 });
    assert_eq!(Config::from_limits(Some(8), None), Config { auto_download_limit: 8, auto_delete_limit: 0 });
    assert_eq!(Config::from_limits(None, None), Config::defaults());
}

#[test]
fn download_count_is_held_between_zero_and_available() {
    let config = Config { auto_download_limit: 3, auto_delete_limit: 0 };
    assert_eq!(config.download_count(10), 3);
    assert_eq!(config.download_count(3), 3);
    assert_eq!(config.download_count(2), 2);
    assert_eq!(config.download_count(0), 0);
    let config = Config { auto_download_limit: 0, auto_delete_limit: 0 };
    assert_eq!(config.download_count(10), 0);
    let config = Config { auto_download_limit: i64::MIN, auto_delete_limit: 0 };
    assert_eq!(config.download_count(10), 0);
    let config = Config { auto_download_limit: i64::MAX, auto_delete_limit: 0 };
    assert_eq!(config.download_count(10), 10);
}

fn padded(text: &str, chars: usize) -> String {
    let mut padded = String::from(text);
    while padded.chars().count() < chars {
        padded.push(' ');
    }
    padded
}

#[test]
fn config_reads_text_of_the_greatest_length() {
    assert_eq!(MAX_CONFIG_CHARS, 1024);
    let text = padded("auto_download_limit: 6\nauto_delete_limit: 4\n", MAX_CONFIG_CHARS);
    assert_eq!(text.chars().count(), MAX_CONFIG_CHARS);
    assert_eq!(Config::new(Some(&text)), Config { auto_download_limit: 6, auto_delete_limit: 4 });
}

#[test]
fn config_of_longer_text_has_defaults() {
    let text = padded("auto_download_limit: 6\nauto_delete_limit: 4\n", MAX_CONFIG_CHARS + 1);
    assert_eq!(Config::new(Some(&text)), Config::defaults());
}

#[test]
fn config_length_is_counted_in_characters() {
    let mut text = String::from("auto_download_limit: 6\n# ");
    while text.chars().count() < MAX_CONFIG_CHARS {
        text.push('é');
    }
    assert!(text.len() > MAX_CONFIG_CHARS);
    assert_eq!(Config::new(Some(&text)), Config { auto_download_limit: 6, auto_delete_limit: 0 });
}

#[test]
fn config_of_deeply_nested_text_within_the_bound_has_defaults() {
    let text = "- ".repeat(MAX_CONFIG_CHARS / 2);
    assert_eq!(text.chars().count(), MAX_CONFIG_CHARS);
    assert_eq!(Config::new(Some(&text)), Config::defaults());
}

#[test]
fn config_of_very_deeply_nested_text_has_defaults() {
    let text = "- ".repeat(100_000);
    assert_eq!(Config::new(Some(&text)), Config::defaults());
    let text = "? ".repeat(100_000);
    assert_eq!(Config::new(Some(&text)), Config::defaults());
}
