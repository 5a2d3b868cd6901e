use forward_proxy::config::{
    listen_target, merge, value_port, ConfigError, FileSource, FileValue, Origin, Settings,
    TextSource, DEFAULT_PORT,
};

fn text(ip: Option<&str>, port: Option<&str>) -> TextSource {
    TextSource { ip: ip.map(String::from), port: port.map(String::from) }
}

fn nothing() -> TextSource {
    text(None, None)
}

fn file(ip: Option<&str>, port: Option<u64>) -> FileSource {
    FileSource {
        ip: ip.map(|given| FileValue::Text(String::from(given))),
        port: port.map(|given| FileValue::Number(Some(given))),
    }
}

fn settings(ip: &str, port: u16, rejected: Option<Origin>) -> Result<Settings, ConfigError> {
    Ok(Settings { ip: String::from(ip), port, rejected })
}

#[test]
fn default_port_is_8080() {
    assert_eq!(DEFAULT_PORT, 8080);
}

#[test]
fn defaults_apply_where_nothing_is_given() {
    assert_eq!(merge(nothing(), nothing(), file(None, None)), settings("127.0.0.1", 8080, None));
}

#[test]
fn command_line_goes_first() {
    let merged = merge(
        text(Some("10.0.0.1"), Some("1111")),
        text(Some("10.0.0.2"), Some("2222")),
        file(Some("10.0.0.3"), Some(3333)),
    );
    assert_eq!(merged, settings("10.0.0.1", 1111, None));
}

#[test]
fn environment_goes_second() {
    let merged = merge(
        nothing(),
        text(Some("10.0.0.2"), Some("2222")),
        file(Some("10.0.0.3"), Some(3333)),
    );
    assert_eq!(merged, settings("10.0.0.2", 2222, None));
}

#[test]
fn file_goes_third() {
    let merged = merge(nothing(), nothing(), file(Some("10.0.0.3"), Some(3333)));
    assert_eq!(merged, settings("10.0.0.3", 3333, None));
}

#[test]
fn address_and_port_are_merged_apart() {
    let merged = merge(text(None, Some("1111")), text(Some("10.0.0.2"), None), file(None, None));
    assert_eq!(merged, settings("10.0.0.2", 1111, None));
    let merged = merge(text(Some("10.0.0.1"), None), nothing(), file(None, Some(3333)));
    assert_eq!(merged, settings("10.0.0.1", 3333, None));
}

#[test]
fn refused_command_line_port_gives_the_default() {
    let merged = merge(text(None, Some("70000")), nothing(), file(None, None));
    assert_eq!(merged, settings("127.0.0.1", 8080, Some(Origin::CommandLine)));
    let merged = merge(text(None, Some("http")), nothing(), file(None, None));
    assert_eq!(merged, settings("127.0.0.1", 8080, Some(Origin::CommandLine)));
}

#[test]
fn refused_port_does_not_hand_over_to_lower_sources() {
    let merged = merge(text(None, Some("70000")), text(None, Some("2222")), file(None, Some(3333)));
    assert_eq!(merged, settings("127.0.0.1", 8080, Some(Origin::CommandLine)));
    let merged = merge(nothing(), text(None, Some("-1")), file(None, Some(3333)));
    assert_eq!(merged, settings("127.0.0.1", 8080, Some(Origin::Environment)));
}

#[test]
fn refused_file_port_gives_the_default() {
    let merged = merge(nothing(), nothing(), file(None, Some(65536)));
    assert_eq!(merged, settings("127.0.0.1", 8080, Some(Origin::File)));
    let as_text = FileSource { ip: None, port: Some(FileValue::Text(String::from("9000"))) };
    assert_eq!(merge(nothing(), nothing(), as_text), settings("127.0.0.1", 8080, Some(Origin::File)));
    let negative = FileSource { ip: None, port: Some(FileValue::Number(None)) };
    assert_eq!(merge(nothing(), nothing(), negative), settings("127.0.0.1", 8080, Some(Origin::File)));
    let other = FileSource { ip: None, port: Some(FileValue::Other) };
    assert_eq!(merge(nothing(), nothing(), other), settings("127.0.0.1", 8080, Some(Origin::File)));
}

#[test]
fn file_port_is_not_read_behind_a_higher_one() {
    let merged = merge(text(None, Some("1111")), nothing(), file(None, Some(70000)));
    assert_eq!(merged, settings("127.0.0.1", 1111, None));
}

#[test]
fn file_address_must_be_text() {
    let number = FileSource { ip: Some(FileValue::Number(Some(127))), port: None };
    assert_eq!(merge(nothing(), nothing(), number), Err(ConfigError::IpNotText));
    let other = FileSource { ip: Some(FileValue::Other), port: Some(FileValue::Number(Some(1))) };
    assert_eq!(merge(text(None, Some("1111")), nothing(), other), Err(ConfigError::IpNotText));
}

#[test]
fn file_address_is_not_read_behind_a_higher_one() {
    let number = FileSource { ip: Some(FileValue::Number(Some(127))), port: None };
    assert_eq!(merge(text(Some("10.0.0.1"), None), nothing(), number), settings("10.0.0.1", 8080, None));
    let other = FileSource { ip: Some(FileValue::Other), port: None };
    assert_eq!(merge(nothing(), text(Some("10.0.0.2"), None), other), settings("10.0.0.2", 8080, None));
}

#[test]
fn value_port_takes_integers_in_range() {
    assert_eq!(value_port(&FileValue::Number(Some(0))), Some(0));
    assert_eq!(value_port(&FileValue::Number(Some(65535))), Some(65535));
    assert_eq!(value_port(&FileValue::Number(Some(65536))), None);
    assert_eq!(value_port(&FileValue::Number(Some(u64::MAX))), None);
    assert_eq!(value_port(&FileValue::Number(None)), None);
    assert_eq!(value_port(&FileValue::Text(String::from("80"))), None);
    assert_eq!(value_port(&FileValue::Other), None);
}

#[test]
fn listen_target_joins_address_and_port() {
    let given = Settings { ip: String::from("127.0.0.1"), port: 8080, rejected: None };
    assert_eq!(listen_target(&given), "127.0.0.1:8080");
    let given = Settings { ip: String::from("localhost"), port: 0, rejected: None };
    assert_eq!(listen_target(&given), "localhost:0");
    let given = Settings { ip: String::from("::1"), port: 65535, rejected: Some(Origin::File) };
    assert_eq!(listen_target(&given), "::1:65535");
}
