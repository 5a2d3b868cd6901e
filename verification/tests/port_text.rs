use forward_proxy::port::{parse_port, push_decimal};

fn written(n: u16) -> String {
    let mut out = String::new();
    push_decimal(&mut out, n);
    out
}

#[test]
fn parse_port_reads_plain_decimal() {
    assert_eq!(parse_port("8080"), Some(8080));
    assert_eq!(parse_port("443"), Some(443));
    assert_eq!(parse_port("1"), Some(1));
}

#[test]
fn parse_port_accepts_both_ends_of_the_range() {
    assert_eq!(parse_port("0"), Some(0));
    assert_eq!(parse_port("65535"), Some(65535));
}

#[test]
fn parse_port_refuses_what_lies_past_the_range() {
    assert_eq!(parse_port("65536"), None);
    assert_eq!(parse_port("70000"), None);
    assert_eq!(parse_port("4294967296"), None);
    assert_eq!(parse_port("99999999999999999999999999"), None);
}

#[test]
fn parse_port_accepts_one_leading_plus() {
    assert_eq!(parse_port("+80"), Some(80));
    assert_eq!(parse_port("++80"), None);
    assert_eq!(parse_port("+"), None);
}

#[test]
fn parse_port_accepts_leading_zeros() {
    assert_eq!(parse_port("00080"), Some(80));
    assert_eq!(parse_port("0000000000000000000000065535"), Some(65535));
}

#[test]
fn parse_port_refuses_what_is_no_number() {
    assert_eq!(parse_port(""), None);
    assert_eq!(parse_port("-1"), None);
    assert_eq!(parse_port("-0"), None);
    assert_eq!(parse_port("http"), None);
    assert_eq!(parse_port("80a"), None);
    assert_eq!(parse_port(" 80"), None);
    assert_eq!(parse_port("80 "), None);
    assert_eq!(parse_port("8_0"), None);
    assert_eq!(parse_port("0x50"), None);
    assert_eq!(parse_port("8.0"), None);
}

#[test]
fn parse_port_refuses_digits_outside_ascii() {
    assert_eq!(parse_port("\u{0668}\u{0660}"), None);
    assert_eq!(parse_port("８０"), None);
    assert_eq!(parse_port("80é"), None);
}

#[test]
fn parse_port_agrees_with_the_standard_parser() {
    let samples = [
        "", "+", "-", "0", "+0", "-0", "7", "80", "080", "+080", "65535", "65536", "+65535",
        "+65536", "655350", "12a", "a12", "1 2", "١٢", "1+2", "++1", "+-1",
    ];
    for text in samples {
        assert_eq!(parse_port(text), text.parse::<u16>().ok(), "{:?}", text);
    }
}

#[test]
fn push_decimal_writes_without_padding() {
    assert_eq!(written(0), "0");
    assert_eq!(written(7), "7");
    assert_eq!(written(10), "10");
    assert_eq!(written(8080), "8080");
    assert_eq!(written(65535), "65535");
    assert_eq!(written(1009), "1009");
}

#[test]
fn push_decimal_appends_to_what_is_there() {
    let mut out = String::from("127.0.0.1:");
    push_decimal(&mut out, 443);
    assert_eq!(out, "127.0.0.1:443");
}

#[test]
fn written_ports_read_back() {
    for port in [0u16, 1, 9, 10, 99, 100, 1024, 8080, 9999, 10000, 65534, 65535] {
        assert_eq!(parse_port(&written(port)), Some(port));
    }
}
