use tower_web_protobuf::{parse_headers, Config, MessageEncodeStrategy, MessageParseStrategy, MessageStrategy, ProtobufMiddleware};

fn values(vs: &[&[u8]]) -> Vec<Vec<u8>> {
    vs.iter().map(|v| v.to_vec()).collect()
}

fn named(s: &MessageStrategy) -> Option<String> {
    match s {
        MessageStrategy::NamedProto(n) => Some(n.clone()),
        _ => None,
    }
}

#[test]
fn no_header_is_plaintext() {
    assert!(matches!(parse_headers(&values(&[]), true), MessageStrategy::Plaintext));
    assert!(matches!(parse_headers(&values(&[]), false), MessageStrategy::Plaintext));
}

#[test]
fn json_when_allowed() {
    let vs = values(&[b"application/json"]);
    assert!(matches!(parse_headers(&vs, true), MessageStrategy::Json));
    assert!(matches!(parse_headers(&vs, false), MessageStrategy::Plaintext));
}

#[test]
fn json_must_match_exactly() {
    let vs = values(&[b"application/json; charset=utf-8"]);
    assert!(matches!(parse_headers(&vs, true), MessageStrategy::Plaintext));
    let vs = values(&[b"application/jsonx"]);
    assert!(matches!(parse_headers(&vs, true), MessageStrategy::Plaintext));
}

#[test]
fn protobuf_is_named_by_the_value_before_its_semicolon() {
    let vs = values(&[b"application/protobuf"]);
    assert_eq!(named(&parse_headers(&vs, false)), Some("application/protobuf".to_string()));
    let vs = values(&[b"application/x-protobuf; my.pkg.Track"]);
    assert_eq!(named(&parse_headers(&vs, true)), Some("application/x-protobuf".to_string()));
    let vs = values(&[b"application/protobuffer"]);
    assert_eq!(named(&parse_headers(&vs, true)), Some("application/protobuffer".to_string()));
}

#[test]
fn protobuf_is_preferred_over_json() {
    let vs = values(&[b"application/json", b"application/protobuf"]);
    assert_eq!(named(&parse_headers(&vs, true)), Some("application/protobuf".to_string()));
    let vs = values(&[b"application/x-protobuf", b"application/json"]);
    assert_eq!(named(&parse_headers(&vs, true)), Some("application/x-protobuf".to_string()));
}

#[test]
fn the_first_protobuf_value_names_the_strategy() {
    let vs = values(&[b"text/html", b"application/x-protobuf;A", b"application/protobuf;B"]);
    assert_eq!(named(&parse_headers(&vs, true)), Some("application/x-protobuf".to_string()));
}

#[test]
fn protobuf_value_must_be_text() {
    let vs = values(&[b"application/protobuf\x80"]);
    assert!(matches!(parse_headers(&vs, true), MessageStrategy::Plaintext));
    let vs = values(&[b"application/protobuf\x7f", b"application/json"]);
    assert!(matches!(parse_headers(&vs, true), MessageStrategy::Json));
    let vs = values(&[b"application/protobuf\t;x"]);
    assert_eq!(named(&parse_headers(&vs, true)), Some("application/protobuf\t".to_string()));
}

#[test]
fn other_types_are_plaintext() {
    let vs = values(&[b"text/plain", b"application/xml"]);
    assert!(matches!(parse_headers(&vs, true), MessageStrategy::Plaintext));
}

#[test]
fn strategies_follow_the_configuration() {
    let ct = values(&[b"application/json"]);
    let accept = values(&[b"application/json"]);

    let service = ProtobufMiddleware::new(true, false).wrap(());
    let (parse, encode): (MessageParseStrategy, MessageEncodeStrategy) = service.strategies_for(&ct, &accept);
    assert!(matches!(parse.0, MessageStrategy::Plaintext));
    assert!(matches!(encode.0, MessageStrategy::Json));

    let service = ProtobufMiddleware::new(false, true).wrap(());
    let (parse, encode) = service.strategies_for(&ct, &accept);
    assert!(matches!(parse.0, MessageStrategy::Json));
    assert!(matches!(encode.0, MessageStrategy::Plaintext));
}

#[test]
fn strategies_read_content_type_and_accept_separately() {
    let ct = values(&[b"application/protobuf"]);
    let accept = values(&[b"application/json"]);
    let service = ProtobufMiddleware::default().wrap(0u8);
    let (parse, encode) = service.strategies_for(&ct, &accept);
    assert_eq!(parse.content_type(), "application/protobuf");
    assert_eq!(encode.content_type(), "application/json");
}

#[test]
fn middleware_configuration() {
    let m = ProtobufMiddleware::new(true, false);
    assert_eq!(m.config(), Config { send_json: true, receive_json: false });
    let d = ProtobufMiddleware::default();
    assert_eq!(d.config(), Config { send_json: true, receive_json: true });
    let mut s = d.wrap(7u32);
    assert_eq!(s.config(), Config { send_json: true, receive_json: true });
    assert_eq!(*s.inner_mut(), 7);
    *s.inner_mut() = 9;
    assert_eq!(*s.inner_mut(), 9);
}
