use kvcore::frame::RespFrame;
use kvcore::request::{classify, decode, ConnectionError, Parsed, Request};

fn bulk(text: &str) -> RespFrame {
    RespFrame::Bulk(text.as_bytes().to_vec())
}

fn command(parts: &[&str]) -> RespFrame {
    RespFrame::Array(parts.iter().map(|part| bulk(part)).collect())
}

#[test]
fn get_frame_decodes_to_get() {
    assert_eq!(decode(&command(&["get", "a"])), Ok(Request::Get { key: "a".to_string() }));
}

#[test]
fn set_frame_decodes_to_put() {
    assert_eq!(
        decode(&command(&["set", "a", "1"])),
        Ok(Request::Put { key: "a".to_string(), value: b"1".to_vec() })
    );
}

#[test]
fn command_name_is_read_without_regard_to_case() {
    assert_eq!(decode(&command(&["GET", "a"])), Ok(Request::Get { key: "a".to_string() }));
    assert_eq!(
        decode(&command(&["SeT", "k", "v"])),
        Ok(Request::Put { key: "k".to_string(), value: b"v".to_vec() })
    );
}

#[test]
fn simple_strings_are_read_like_bulk_strings() {
    let frame = RespFrame::Array(vec![
        RespFrame::Simple("get".to_string()),
        RespFrame::Simple("a".to_string()),
    ]);
    assert_eq!(decode(&frame), Ok(Request::Get { key: "a".to_string() }));
}

#[test]
fn set_value_may_be_any_bytes() {
    let frame = RespFrame::Array(vec![bulk("set"), bulk("k"), RespFrame::Bulk(vec![0, 255, 10])]);
    assert_eq!(
        decode(&frame),
        Ok(Request::Put { key: "k".to_string(), value: vec![0, 255, 10] })
    );
}

#[test]
fn set_with_expiry_keeps_key_and_value() {
    assert_eq!(
        decode(&command(&["set", "k", "v", "EX", "10"])),
        Ok(Request::Put { key: "k".to_string(), value: b"v".to_vec() })
    );
    let frame = RespFrame::Array(vec![
        bulk("set"),
        bulk("k"),
        bulk("v"),
        bulk("px"),
        RespFrame::Integer(1500),
    ]);
    assert_eq!(
        decode(&frame),
        Ok(Request::Put { key: "k".to_string(), value: b"v".to_vec() })
    );
}

#[test]
fn other_commands_are_unsupported() {
    assert_eq!(
        decode(&command(&["publish", "channel", "hello"])),
        Err(ConnectionError::UnsupportedCommand)
    );
    assert_eq!(
        decode(&command(&["subscribe", "channel"])),
        Err(ConnectionError::UnsupportedCommand)
    );
    assert_eq!(
        decode(&command(&["unsubscribe"])),
        Err(ConnectionError::UnsupportedCommand)
    );
    assert_eq!(decode(&command(&["ping"])), Err(ConnectionError::UnsupportedCommand));
    assert_eq!(
        decode(&command(&["del", "a", "b", "c"])),
        Err(ConnectionError::UnsupportedCommand)
    );
}

#[test]
fn what_is_no_command_is_a_decode_error() {
    assert_eq!(decode(&RespFrame::Null), Err(ConnectionError::Decode));
    assert_eq!(decode(&bulk("get")), Err(ConnectionError::Decode));
    assert_eq!(decode(&RespFrame::Simple("get a".to_string())), Err(ConnectionError::Decode));
    assert_eq!(decode(&RespFrame::Integer(7)), Err(ConnectionError::Decode));
    assert_eq!(decode(&RespFrame::Error("oops".to_string())), Err(ConnectionError::Decode));
    assert_eq!(decode(&RespFrame::Array(Vec::new())), Err(ConnectionError::Decode));
}

#[test]
fn get_with_wrong_arguments_is_a_decode_error() {
    assert_eq!(decode(&command(&["get"])), Err(ConnectionError::Decode));
    assert_eq!(decode(&command(&["get", "a", "b"])), Err(ConnectionError::Decode));
    let nested = RespFrame::Array(vec![bulk("get"), RespFrame::Array(vec![bulk("a")])]);
    assert_eq!(decode(&nested), Err(ConnectionError::Decode));
    let not_text = RespFrame::Array(vec![bulk("get"), RespFrame::Bulk(vec![0xff, 0xfe])]);
    assert_eq!(decode(&not_text), Err(ConnectionError::Decode));
    let number = RespFrame::Array(vec![bulk("get"), RespFrame::Integer(1)]);
    assert_eq!(decode(&number), Err(ConnectionError::Decode));
}

#[test]
fn set_with_wrong_arguments_is_a_decode_error() {
    assert_eq!(decode(&command(&["set"])), Err(ConnectionError::Decode));
    assert_eq!(decode(&command(&["set", "k"])), Err(ConnectionError::Decode));
    assert_eq!(decode(&command(&["set", "k", "v", "NX"])), Err(ConnectionError::Decode));
    assert_eq!(decode(&command(&["set", "k", "v", "EX"])), Err(ConnectionError::Decode));
    assert_eq!(decode(&command(&["set", "k", "v", "EX", "soon"])), Err(ConnectionError::Decode));
    assert_eq!(
        decode(&command(&["set", "k", "v", "EX", "1", "more"])),
        Err(ConnectionError::Decode)
    );
    let null_value = RespFrame::Array(vec![bulk("set"), bulk("k"), RespFrame::Null]);
    assert_eq!(decode(&null_value), Err(ConnectionError::Decode));
}

#[test]
fn classify_serves_get_and_set_only() {
    assert_eq!(
        classify(Parsed::Get { key: "a".to_string() }),
        Ok(Request::Get { key: "a".to_string() })
    );
    assert_eq!(
        classify(Parsed::Put { key: "a".to_string(), value: vec![1] }),
        Ok(Request::Put { key: "a".to_string(), value: vec![1] })
    );
    assert_eq!(classify(Parsed::Publish), Err(ConnectionError::UnsupportedCommand));
    assert_eq!(classify(Parsed::Subscribe), Err(ConnectionError::UnsupportedCommand));
    assert_eq!(classify(Parsed::Unsubscribe), Err(ConnectionError::UnsupportedCommand));
    assert_eq!(classify(Parsed::Unknown), Err(ConnectionError::UnsupportedCommand));
    assert_eq!(classify(Parsed::Malformed), Err(ConnectionError::Decode));
}

#[test]
fn request_gives_its_key() {
    assert_eq!(Request::Get { key: "a".to_string() }.key(), "a");
    assert_eq!(Request::Put { key: "b".to_string(), value: vec![] }.key(), "b");
}
