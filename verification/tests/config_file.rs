use forward_proxy::config::{merge, ConfigError, FileSource, FileValue, Origin, Settings, TextSource};
use forward_proxy::yaml::read_file_source;

fn source(ip: Option<FileValue>, port: Option<FileValue>) -> Result<FileSource, ConfigError> {
    Ok(FileSource { ip, port })
}

fn text(given: &str) -> Option<FileValue> {
    Some(FileValue::Text(String::from(given)))
}

#[test]
fn both_settings_are_read() {
    assert_eq!(
        read_file_source("ip: 10.0.0.3\nport: 3333\n"),
        source(text("10.0.0.3"), Some(FileValue::Number(Some(3333))))
    );
}

#[test]
fn flow_mapping_is_read() {
    assert_eq!(
        read_file_source("{ port: 9000, ip: \"0.0.0.0\" }"),
        source(text("0.0.0.0"), Some(FileValue::Number(Some(9000))))
    );
}

#[test]
fn missing_keys_give_no_values() {
    assert_eq!(read_file_source("port: 3333\n"), source(None, Some(FileValue::Number(Some(3333)))));
    assert_eq!(read_file_source("ip: localhost\n"), source(text("localhost"), None));
    assert_eq!(read_file_source("verbose: true\n"), source(None, None));
}

#[test]
fn other_keys_are_passed_over() {
    assert_eq!(
        read_file_source("name: proxy\nport: 1\nPort: 2\nports: 3\n"),
        source(None, Some(FileValue::Number(Some(1))))
    );
}

#[test]
fn numbers_keep_their_value_where_it_is_unsigned() {
    assert_eq!(read_file_source("port: 0"), source(None, Some(FileValue::Number(Some(0)))));
    assert_eq!(read_file_source("port: 70000"), source(None, Some(FileValue::Number(Some(70000)))));
    assert_eq!(
        read_file_source("port: 18446744073709551615"),
        source(None, Some(FileValue::Number(Some(u64::MAX))))
    );
    assert_eq!(read_file_source("port: -1"), source(None, Some(FileValue::Number(None))));
    assert_eq!(read_file_source("port: 80.0"), source(None, Some(FileValue::Number(None))));
}

#[test]
fn quoted_numbers_are_text() {
    assert_eq!(read_file_source("port: \"3333\""), source(None, text("3333")));
    assert_eq!(read_file_source("port: '3333'"), source(None, text("3333")));
}

#[test]
fn other_kinds_of_value_are_told_apart_from_text_and_numbers() {
    assert_eq!(read_file_source("ip: ~\nport: true"), source(Some(FileValue::Other), Some(FileValue::Other)));
    assert_eq!(read_file_source("ip: [a, b]\nport: {a: 1}"), source(Some(FileValue::Other), Some(FileValue::Other)));
}

#[test]
fn document_that_is_no_mapping_holds_no_settings() {
    assert_eq!(read_file_source("- ip\n- port\n"), source(None, None));
    assert_eq!(read_file_source("port"), source(None, None));
    assert_eq!(read_file_source("8080"), source(None, None));
}

#[test]
fn broken_text_is_unparseable() {
    assert!(matches!(read_file_source("ip: [1, 2"), Err(ConfigError::Unparseable(_))));
    assert!(matches!(read_file_source("ip: \"open"), Err(ConfigError::Unparseable(_))));
    assert!(matches!(read_file_source("a: b: c"), Err(ConfigError::Unparseable(_))));
}

#[test]
fn unparseable_carries_a_message() {
    match read_file_source("ip: [1, 2") {
        Err(ConfigError::Unparseable(message)) => assert!(!message.is_empty()),
        other => panic!("{:?}", other),
    }
}

#[test]
fn file_settings_feed_the_merge() {
    let nothing = || TextSource { ip: None, port: None };
    let read = read_file_source("ip: 192.168.1.1\nport: 3128\n").unwrap();
    assert_eq!(
        merge(nothing(), nothing(), read),
        Ok(Settings { ip: String::from("192.168.1.1"), port: 3128, rejected: None })
    );
    let read = read_file_source("ip: 192.168.1.1\nport: 65536\n").unwrap();
    assert_eq!(
        merge(nothing(), nothing(), read),
        Ok(Settings { ip: String::from("192.168.1.1"), port: 8080, rejected: Some(Origin::File) })
    );
    let read = read_file_source("ip: 127\n").unwrap();
    assert_eq!(merge(nothing(), nothing(), read), Err(ConfigError::IpNotText));
}

#[test]
fn text_without_a_document_is_unparseable() {
    assert!(matches!(read_file_source(""), Err(ConfigError::Unparseable(_))));
    assert!(matches!(read_file_source("# only a comment\n"), Err(ConfigError::Unparseable(_))));
}

#[test]
fn more_than_one_document_is_unparseable() {
    assert!(matches!(read_file_source("---\nport: 1\n---\nport: 2\n"), Err(ConfigError::Unparseable(_))));
}

#[test]
fn empty_document_holds_no_settings() {
    assert_eq!(read_file_source("---\n"), source(None, None));
    assert_eq!(read_file_source("~"), source(None, None));
}

#[test]
fn empty_values_are_neither_text_nor_numbers() {
    assert_eq!(read_file_source("ip:\nport:"), source(Some(FileValue::Other), Some(FileValue::Other)));
}
