use trigger_scheduler::module_key::{alert_key, derived_stream_key, split_key};

#[test]
fn key_of_three_columns_names_an_alert() {
    let key = alert_key("logs/app/errors").unwrap();
    assert_eq!(key.stream_type, "logs");
    assert_eq!(key.stream_name, "app");
    assert_eq!(key.alert_name, "errors");
}

#[test]
fn key_of_four_columns_names_a_derived_stream() {
    let key = derived_stream_key("metrics/cpu/nightly/load").unwrap();
    assert_eq!(key.stream_type, "metrics");
    assert_eq!(key.stream_name, "cpu");
    assert_eq!(key.pipeline_name, "nightly");
    assert_eq!(key.name, "load");
}

#[test]
fn other_numbers_of_columns_name_nothing() {
    for key in ["", "logs", "logs/app", "logs/app/nightly/errors", "logs/app/errors/"] {
        assert_eq!(alert_key(key), None, "{}", key);
    }
    for key in ["", "logs", "logs/app", "logs/app/errors", "a/b/c/d/e"] {
        assert_eq!(derived_stream_key(key), None, "{}", key);
    }
}

#[test]
fn empty_columns_count() {
    let key = alert_key("//").unwrap();
    assert_eq!(key.stream_type, "");
    assert_eq!(key.stream_name, "");
    assert_eq!(key.alert_name, "");
    let key = derived_stream_key("/a//").unwrap();
    assert_eq!(key.stream_name, "a");
    assert_eq!(key.name, "");
}

#[test]
fn keys_split_like_text() {
    for key in ["", "/", "a", "a/b", "/a", "a/", "a//b", "\u{fc}ber/stra\u{df}e/\u{1f514}"] {
        let expected: Vec<String> = key.split('/').map(|column| column.to_string()).collect();
        assert_eq!(split_key(key), expected, "{}", key);
    }
}

#[test]
fn columns_join_to_the_key() {
    for key in ["", "/", "logs/app/errors", "a//b/"] {
        assert_eq!(split_key(key).join("/"), key);
    }
}

#[test]
fn joined_columns_split_back() {
    let parts = vec!["logs".to_string(), "".to_string(), "errors".to_string()];
    assert_eq!(split_key(&parts.join("/")), parts);
}
