use bytes::Bytes;
use mini_redis::cmd::set::{expire_unit, ExpireUnit, SetCommand};
use mini_redis::frame::Frame;
use mini_redis::parse::{Parse, ParseError, ProtocolError};
use std::time::Duration;

fn bulk(s: &str) -> Frame {
    Frame::Bulk(Bytes::from(s.to_string()))
}

fn simple(s: &str) -> Frame {
    Frame::Simple(s.to_string())
}

fn parse_of(frames: Vec<Frame>) -> Parse {
    Parse::new(Frame::Array(frames)).unwrap()
}

#[test]
fn new_and_getters() {
    let set = SetCommand::new("hello".to_string(), Bytes::from("world"), Some(Duration::from_secs(2)));
    assert_eq!(set.key(), "hello");
    assert_eq!(set.value(), &Bytes::from("world"));
    assert_eq!(set.expire(), Some(Duration::from_secs(2)));
    let set = SetCommand::new("k".to_string(), Bytes::new(), None);
    assert_eq!(set.expire(), None);
    assert!(set.value().is_empty());
}

#[test]
fn into_frame_without_expiration() {
    let frame = SetCommand::new("hello".to_string(), Bytes::from("world"), None).into_frame();
    assert_eq!(frame, Frame::Array(vec![bulk("set"), bulk("hello"), bulk("world")]));
}

#[test]
fn into_frame_writes_milliseconds() {
    let frame =
        SetCommand::new("hello".to_string(), Bytes::from("world"), Some(Duration::from_secs(3))).into_frame();
    assert_eq!(
        frame,
        Frame::Array(vec![
            bulk("set"),
            bulk("hello"),
            bulk("world"),
            bulk("px"),
            Frame::Integer(3000)
        ])
    );
    let frame = SetCommand::new("a".to_string(), Bytes::from("b"), Some(Duration::from_micros(2500)))
        .into_frame();
    assert_eq!(
        frame,
        Frame::Array(vec![bulk("set"), bulk("a"), bulk("b"), bulk("px"), Frame::Integer(2)])
    );
}

#[test]
fn round_trip_through_frame() {
    for expire in [None, Some(Duration::from_millis(1500)), Some(Duration::from_secs(60))] {
        let frame = SetCommand::new("clé".to_string(), Bytes::from(vec![0u8, 255, 7]), expire).into_frame();
        let mut parse = Parse::new(frame).unwrap();
        assert_eq!(parse.next_string().unwrap(), "set");
        let set = SetCommand::parse_frames(&mut parse).unwrap();
        assert_eq!(set.key(), "clé");
        assert_eq!(set.value(), &Bytes::from(vec![0u8, 255, 7]));
        assert_eq!(set.expire(), expire);
        assert_eq!(parse.next_string(), Err(ParseError::EndOfStream));
    }
}

#[test]
fn parse_key_and_value_only() {
    let mut parse = parse_of(vec![simple("key"), bulk("value")]);
    let set = SetCommand::parse_frames(&mut parse).unwrap();
    assert_eq!(set.key(), "key");
    assert_eq!(set.value(), &Bytes::from("value"));
    assert_eq!(set.expire(), None);
}

#[test]
fn parse_seconds_in_any_case() {
    for word in ["EX", "ex", "eX", "Ex"] {
        let mut parse = parse_of(vec![bulk("k"), bulk("v"), bulk(word), Frame::Integer(10)]);
        let set = SetCommand::parse_frames(&mut parse).unwrap();
        assert_eq!(set.expire(), Some(Duration::from_secs(10)));
    }
}

#[test]
fn parse_milliseconds_from_text() {
    let mut parse = parse_of(vec![bulk("k"), bulk("v"), simple("px"), bulk("250")]);
    let set = SetCommand::parse_frames(&mut parse).unwrap();
    assert_eq!(set.expire(), Some(Duration::from_millis(250)));
    let mut parse = parse_of(vec![bulk("k"), bulk("v"), bulk("PX"), simple("7")]);
    let set = SetCommand::parse_frames(&mut parse).unwrap();
    assert_eq!(set.expire(), Some(Duration::from_millis(7)));
}

#[test]
fn parse_leaves_later_frames_unread() {
    let mut parse = parse_of(vec![bulk("k"), bulk("v"), bulk("px"), Frame::Integer(1), bulk("x")]);
    SetCommand::parse_frames(&mut parse).unwrap();
    assert_eq!(parse.next_string().unwrap(), "x");
}

#[test]
fn parse_rejects_other_options() {
    let mut parse = parse_of(vec![bulk("k"), bulk("v"), bulk("nx")]);
    let err = SetCommand::parse_frames(&mut parse).unwrap_err();
    assert_eq!(err, ParseError::Other(ProtocolError::UnsupportedSetOption));
    assert_eq!(err.to_string(), "currently `SET` only supports the expiration option");
    let mut parse = parse_of(vec![bulk("k"), bulk("v"), bulk("exx"), Frame::Integer(1)]);
    assert_eq!(
        SetCommand::parse_frames(&mut parse).unwrap_err(),
        ParseError::Other(ProtocolError::UnsupportedSetOption)
    );
}

#[test]
fn parse_missing_arguments() {
    let mut parse = parse_of(vec![]);
    assert_eq!(SetCommand::parse_frames(&mut parse).unwrap_err(), ParseError::EndOfStream);
    let mut parse = parse_of(vec![bulk("k")]);
    assert_eq!(SetCommand::parse_frames(&mut parse).unwrap_err(), ParseError::EndOfStream);
    let mut parse = parse_of(vec![bulk("k"), bulk("v"), bulk("ex")]);
    assert_eq!(SetCommand::parse_frames(&mut parse).unwrap_err(), ParseError::EndOfStream);
}

#[test]
fn parse_malformed_arguments() {
    let mut parse = parse_of(vec![Frame::Integer(1), bulk("v")]);
    assert_eq!(
        SetCommand::parse_frames(&mut parse).unwrap_err(),
        ParseError::Other(ProtocolError::ExpectedSimpleOrBulk)
    );
    let mut parse = parse_of(vec![Frame::Bulk(Bytes::from(vec![0xffu8])), bulk("v")]);
    assert_eq!(
        SetCommand::parse_frames(&mut parse).unwrap_err(),
        ParseError::Other(ProtocolError::InvalidString)
    );
    let mut parse = parse_of(vec![bulk("k"), Frame::Null]);
    assert_eq!(
        SetCommand::parse_frames(&mut parse).unwrap_err(),
        ParseError::Other(ProtocolError::ExpectedSimpleOrBulk)
    );
    let mut parse = parse_of(vec![bulk("k"), bulk("v"), Frame::Integer(3)]);
    assert_eq!(
        SetCommand::parse_frames(&mut parse).unwrap_err(),
        ParseError::Other(ProtocolError::ExpectedSimpleOrBulk)
    );
    let mut parse = parse_of(vec![bulk("k"), bulk("v"), bulk("ex"), bulk("ten")]);
    assert_eq!(
        SetCommand::parse_frames(&mut parse).unwrap_err(),
        ParseError::Other(ProtocolError::InvalidNumber)
    );
    let mut parse = parse_of(vec![bulk("k"), bulk("v"), bulk("ex"), Frame::Null]);
    assert_eq!(
        SetCommand::parse_frames(&mut parse).unwrap_err(),
        ParseError::Other(ProtocolError::ExpectedInteger)
    );
}

#[test]
fn expire_unit_words() {
    assert_eq!(expire_unit("EX"), Some(ExpireUnit::Seconds));
    assert_eq!(expire_unit("PX"), Some(ExpireUnit::Milliseconds));
    assert_eq!(expire_unit("ex"), None);
    assert_eq!(expire_unit("EXX"), None);
    assert_eq!(expire_unit(""), None);
}

#[test]
fn parse_gives_exact_durations() {
    let mut parse = parse_of(vec![bulk("foo"), bulk("bar"), bulk("ex"), Frame::Integer(10)]);
    let set = SetCommand::parse_frames(&mut parse).unwrap();
    assert_eq!(set.key(), "foo");
    assert_eq!(set.value(), &Bytes::from("bar"));
    assert_eq!(set.expire(), Some(Duration::from_secs(10)));
    assert_eq!(set.expire(), Some(Duration::from_millis(10000)));
    let mut parse = parse_of(vec![bulk("foo"), bulk("bar"), bulk("PX"), Frame::Integer(1500)]);
    let set = SetCommand::parse_frames(&mut parse).unwrap();
    assert_eq!(set.expire(), Some(Duration::from_millis(1500)));
}

#[test]
fn round_trip_keeps_whole_milliseconds() {
    let expire = Duration::from_micros(2_500_900);
    let frame = SetCommand::new("k".to_string(), Bytes::from("v"), Some(expire)).into_frame();
    let mut parse = Parse::new(frame).unwrap();
    assert_eq!(parse.next_string().unwrap(), "set");
    let set = SetCommand::parse_frames(&mut parse).unwrap();
    assert_eq!(set.expire(), Some(Duration::from_millis(2500)));
}

#[test]
fn error_texts() {
    assert_eq!(
        ParseError::EndOfStream.to_string(),
        "protocol error; unexpected end of stream"
    );
    assert_eq!(
        ParseError::Other(ProtocolError::InvalidNumber).to_string(),
        "protocol error; invalid number"
    );
    assert_eq!(
        ProtocolError::ExpectedArray.to_string(),
        "protocol error; expected array"
    );
    assert_eq!(
        ProtocolError::UnsupportedSetOption.to_string(),
        "currently `SET` only supports the expiration option"
    );
}
