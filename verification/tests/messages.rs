use bytes::Bytes;
use tower_web_protobuf::{
    decode_plaintext_body, encoding_outcome, response_builder_failure, BytesWrapper, Codec, Config, DecodeFailure, DeserializeError, DeserializeErrorKind,
    MessageEncodeStrategy, MessageFuture, MessageParseStrategy, MessageStrategy, Proto, ProtobufService,
    ResponseFuture,
};

#[test]
fn content_types() {
    assert_eq!(MessageStrategy::NamedProto("x".to_string()).content_type(), "application/protobuf");
    assert_eq!(MessageStrategy::Proto.content_type(), "application/protobuf");
    assert_eq!(MessageStrategy::Json.content_type(), "application/json");
    assert_eq!(MessageStrategy::Plaintext.content_type(), "text/plain");
}

#[test]
fn codecs() {
    assert_eq!(MessageStrategy::NamedProto("x".to_string()).codec(), Codec::Protobuf);
    assert_eq!(MessageStrategy::Proto.codec(), Codec::Protobuf);
    assert_eq!(MessageStrategy::Json.codec(), Codec::Json);
    assert_eq!(MessageStrategy::Plaintext.codec(), Codec::Plaintext);
    assert_eq!(Codec::Protobuf.parse_error_kind(), DeserializeErrorKind::ErrorParsingProtobuf);
    assert_eq!(Codec::Json.parse_error_kind(), DeserializeErrorKind::ErrorParsingJson);
    assert_eq!(Codec::Plaintext.parse_error_kind(), DeserializeErrorKind::ErrorParsingPlaintext);
    assert_eq!(Codec::Protobuf.serialization_error_title(), "Serialization Error: Insufficient Capacity");
    assert_eq!(Codec::Json.serialization_error_title(), "Serialization Error: serde_json");
    assert_eq!(Codec::Plaintext.serialization_error_title(), "Serialization Error: serde_plain");
}

#[test]
fn strategies_default_to_plaintext() {
    assert!(matches!(MessageParseStrategy::default().0, MessageStrategy::Plaintext));
    assert!(matches!(MessageEncodeStrategy::default().0, MessageStrategy::Plaintext));
    let p: MessageParseStrategy = MessageStrategy::Json.into();
    assert!(matches!(*p, MessageStrategy::Json));
    let e: MessageEncodeStrategy = MessageStrategy::Proto.into();
    assert!(matches!(*e, MessageStrategy::Proto));
    let c = MessageParseStrategy(MessageStrategy::NamedProto("n".to_string())).clone();
    assert!(matches!(c.0, MessageStrategy::NamedProto(ref n) if n == "n"));
}

#[test]
fn error_without_message() {
    for kind in [
        DeserializeErrorKind::InvalidContentTypeForMessage,
        DeserializeErrorKind::InvalidHeadersForMessage,
        DeserializeErrorKind::ErrorParsingJson,
        DeserializeErrorKind::ErrorParsingProtobuf,
        DeserializeErrorKind::ErrorParsingPlaintext,
    ] {
        let e = DeserializeError::new(kind);
        assert_eq!(e.kind(), kind);
        assert_eq!(e.get_code_and_message(), (415, "TODO".to_string()));
        assert_eq!(e.to_string(), "Unknown Error");
    }
}

#[test]
fn error_with_message() {
    let e = DeserializeError::new_with_message(DeserializeErrorKind::ErrorParsingJson, "expected value".to_string());
    assert_eq!(e.kind(), DeserializeErrorKind::ErrorParsingJson);
    assert_eq!(e.get_code_and_message(), (415, "TODO; expected value".to_string()));
    assert_eq!(e.to_string(), "expected value");
    let c = e.clone();
    assert_eq!(c.to_string(), "expected value");
    assert_eq!(c.kind(), DeserializeErrorKind::ErrorParsingJson);
}

#[test]
fn error_from_displayed_error() {
    let e = DeserializeError::new_with_error(DeserializeErrorKind::ErrorParsingProtobuf, 42);
    assert_eq!(e.kind(), DeserializeErrorKind::ErrorParsingProtobuf);
    assert_eq!(e.to_string(), "42");
    assert_eq!(e.get_code_and_message(), (415, "TODO; 42".to_string()));
}

#[test]
fn plaintext_body_must_be_utf8() {
    match decode_plaintext_body("4′33″".as_bytes().to_vec()) {
        Ok(s) => assert_eq!(s, "4′33″"),
        Err(_) => panic!("valid UTF-8 was refused"),
    }
    let expected = String::from_utf8(vec![0x61, 0xff]).unwrap_err().to_string();
    match decode_plaintext_body(vec![0x61, 0xff]) {
        Err(DecodeFailure::InvalidUtf8(text)) => assert_eq!(text, expected),
        _ => panic!("invalid UTF-8 was accepted"),
    }
}

#[test]
fn decoded_message_is_extracted() {
    let mut f: MessageFuture<u32> = MessageFuture::new(MessageParseStrategy(MessageStrategy::Json));
    assert_eq!(f.codec(), Codec::Json);
    assert!(!f.has_message());
    assert_eq!(f.settle(Ok(1056)), Ok(()));
    assert!(f.has_message());
    assert_eq!(f.extract().move_inner(), 1056);
}

#[test]
fn rejected_body_is_refused_with_the_codec_message() {
    let mut f: MessageFuture<u32> = MessageFuture::new(MessageParseStrategy(MessageStrategy::Proto));
    assert_eq!(f.codec(), Codec::Protobuf);
    let r = f.settle(Err(DecodeFailure::Rejected("buffer underflow".to_string())));
    assert_eq!(r, Err("buffer underflow".to_string()));
    assert!(!f.has_message());
}

#[test]
fn non_utf8_body_is_refused_with_the_decoding_error() {
    let mut f: MessageFuture<String> = MessageFuture::new(MessageParseStrategy::default());
    assert_eq!(f.codec(), Codec::Plaintext);
    let r = f.settle(Err(DecodeFailure::InvalidUtf8("invalid utf-8".to_string())));
    assert_eq!(r, Err("invalid utf-8".to_string()));
    assert!(!f.has_message());
    assert_eq!(f.settle(Ok("fine".to_string())), Ok(()));
    assert_eq!(f.extract().0, "fine");
}

#[test]
fn proto_wraps_its_message() {
    let p = Proto::new(vec![1u8, 2]);
    assert_eq!(p.get(), &vec![1u8, 2]);
    assert_eq!(p.as_ref(), &vec![1u8, 2]);
    assert_eq!(p.len(), 2);
    let q = p.clone();
    assert_eq!(q.move_inner(), vec![1u8, 2]);
    assert_eq!(p.move_inner(), vec![1u8, 2]);
    let r: Proto<String> = "Loud Places".to_string().into();
    assert_eq!(r.0, "Loud Places");
    let d: Proto<u32> = Proto::default();
    assert_eq!(d.0, 0);
}

#[test]
fn body_streams_its_bytes_once() {
    let mut w = BytesWrapper::from(Bytes::from(vec![8u8, 0, 1]));
    assert_eq!(w.len(), 3);
    let chunk = w.next_chunk().expect("a chunk");
    assert_eq!(&chunk[..], &[8u8, 0, 1]);
    assert!(w.is_empty());
    assert!(w.next_chunk().is_none());
    assert!(w.next_chunk().is_none());
}

#[test]
fn empty_body_streams_nothing() {
    let mut w = BytesWrapper::from(Bytes::new());
    assert!(w.next_chunk().is_none());
}

#[test]
fn service_and_future() {
    let s = ProtobufService::new("inner", Config { receive_json: false, send_json: true });
    assert_eq!(s.config(), Config { receive_json: false, send_json: true });
    let f = ResponseFuture { response: 3 };
    assert_eq!(f.response, 3);
}

#[test]
fn encoded_bytes_pass_through() {
    match encoding_outcome(Codec::Json, Ok(b"{}".to_vec())) {
        Ok(bytes) => assert_eq!(bytes, b"{}".to_vec()),
        Err(_) => panic!("encoded bytes were refused"),
    }
}

#[test]
fn encoding_failures_carry_title_and_status() {
    for (codec, title) in [
        (Codec::Protobuf, "Serialization Error: Insufficient Capacity"),
        (Codec::Json, "Serialization Error: serde_json"),
        (Codec::Plaintext, "Serialization Error: serde_plain"),
    ] {
        match encoding_outcome(codec, Err("no room".to_string())) {
            Err(f) => {
                assert_eq!(f.detail, "no room");
                assert_eq!(f.title, title);
                assert_eq!(f.status, 500);
            }
            Ok(_) => panic!("a failed encoding was accepted"),
        }
    }
    let f = response_builder_failure("bad header".to_string());
    assert_eq!(f.detail, "bad header");
    assert_eq!(f.title, "Response Builder Error");
    assert_eq!(f.status, 500);
}
