use kafka_message::{Message, MessageRecord, TextError, Timestamp, TimestampType};

fn record<'a>(key: Option<&'a [u8]>, payload: Option<&'a [u8]>) -> MessageRecord<'a> {
    MessageRecord {
        key,
        payload,
        topic: b"orders",
        partition: 3,
        offset: 42,
        timestamp_type: TimestampType::CreateTime,
        timestamp: 1_600_000_000_000,
    }
}

fn stamped(timestamp_type: TimestampType, timestamp: i64) -> Timestamp {
    let mut r = record(None, None);
    r.timestamp_type = timestamp_type;
    r.timestamp = timestamp;
    Message::new(r).timestamp()
}

fn is_send<T: Send>(_value: &T) -> bool {
    true
}

#[test]
fn missing_key_is_none() {
    let message = Message::new(record(None, Some(b"body")));
    assert_eq!(message.key(), None);
    assert_eq!(message.key_len(), 0);
}

#[test]
fn missing_key_has_no_view_of_any_type() {
    let message = Message::new(record(None, Some(b"body")));
    assert!(message.key_view::<[u8]>().is_none());
    assert!(message.key_view::<str>().is_none());
}

#[test]
fn missing_payload_is_none() {
    let message = Message::new(record(Some(b"k"), None));
    assert_eq!(message.payload(), None);
    assert_eq!(message.payload_len(), 0);
    assert!(message.payload_view::<[u8]>().is_none());
    assert!(message.payload_view::<str>().is_none());
}

#[test]
fn key_has_the_bytes_it_was_given() {
    let source = [0u8, 1, 2, 255, 254, 7];
    let message = Message::new(record(Some(&source), None));
    let key = message.key().unwrap();
    assert_eq!(key.len(), 6);
    assert_eq!(key, &source[..]);
    assert_eq!(message.key_len(), 6);
}

#[test]
fn payload_has_the_bytes_it_was_given() {
    let source = b"hello, world";
    let message = Message::new(record(None, Some(source)));
    let payload = message.payload().unwrap();
    assert_eq!(payload.len(), 12);
    assert_eq!(payload, &source[..]);
    assert_eq!(message.payload_len(), 12);
}

#[test]
fn empty_key_is_present_and_empty() {
    let message = Message::new(record(Some(b""), Some(b"")));
    assert_eq!(message.key(), Some(&b""[..]));
    assert_eq!(message.payload(), Some(&b""[..]));
    assert_eq!(message.key_len(), 0);
    assert_eq!(message.payload_len(), 0);
    assert_eq!(message.key_view::<str>(), Some(Ok("")));
}

#[test]
fn key_is_not_copied() {
    let source = vec![9u8, 8, 7];
    let message = Message::new(record(Some(&source), Some(&source)));
    assert!(std::ptr::eq(message.key().unwrap(), source.as_slice()));
    assert!(std::ptr::eq(message.payload().unwrap(), source.as_slice()));
    let text = "caf\u{e9}";
    let message = Message::new(record(None, Some(text.as_bytes())));
    let view = message.payload_view::<str>().unwrap().unwrap();
    assert!(std::ptr::eq(view, text));
}

#[test]
fn key_and_payload_are_told_apart() {
    let message = Message::new(record(Some(b"the key"), Some(b"the payload")));
    assert_eq!(message.key(), Some(&b"the key"[..]));
    assert_eq!(message.payload(), Some(&b"the payload"[..]));
    assert_eq!(message.key_len(), 7);
    assert_eq!(message.payload_len(), 11);
}

#[test]
fn payload_view_as_bytes_always_succeeds() {
    let source = [0xffu8, 0xfe, 0x00];
    let message = Message::new(record(None, Some(&source)));
    assert_eq!(message.payload_view::<[u8]>(), Some(Ok(&source[..])));
}

#[test]
fn payload_view_as_text() {
    let message = Message::new(record(None, Some("gr\u{fc}\u{df}e".as_bytes())));
    assert_eq!(message.payload_view::<str>(), Some(Ok("gr\u{fc}\u{df}e")));
}

#[test]
fn payload_view_as_text_reports_where_text_stops() {
    let message = Message::new(record(None, Some(b"ab\xffcd")));
    assert_eq!(
        message.payload_view::<str>(),
        Some(Err(TextError { valid_up_to: 2 }))
    );
    assert_eq!(message.payload_view::<[u8]>(), Some(Ok(&b"ab\xffcd"[..])));
}

#[test]
fn key_view_as_text_reports_where_text_stops() {
    let message = Message::new(record(Some(b"\xc3\x28"), None));
    assert_eq!(
        message.key_view::<str>(),
        Some(Err(TextError { valid_up_to: 0 }))
    );
}

#[test]
fn topic_name_is_the_text_of_its_bytes() {
    let message = Message::new(record(None, None));
    assert_eq!(message.topic_name(), "orders");
    assert_eq!(message.try_topic_name(), Ok("orders"));
}

#[test]
fn topic_name_may_hold_any_text() {
    let mut r = record(None, None);
    r.topic = "m\u{e9}tricas.\u{65e5}\u{672c}".as_bytes();
    let message = Message::new(r);
    assert_eq!(message.topic_name(), "m\u{e9}tricas.\u{65e5}\u{672c}");
}

#[test]
fn topic_name_that_is_not_text_is_an_error() {
    let mut r = record(None, None);
    r.topic = b"orders\x80";
    let message = Message::new(r);
    assert_eq!(message.try_topic_name(), Err(TextError { valid_up_to: 6 }));
}

#[test]
fn partition_and_offset_pass_through() {
    let mut r = record(None, None);
    assert_eq!(Message::new(r).partition(), 3);
    assert_eq!(Message::new(r).offset(), 42);
    r.partition = -1;
    r.offset = -1001;
    let message = Message::new(r);
    assert_eq!(message.partition(), -1);
    assert_eq!(message.offset(), -1001);
    r.partition = i32::MAX;
    r.offset = i64::MIN;
    let message = Message::new(r);
    assert_eq!(message.partition(), i32::MAX);
    assert_eq!(message.offset(), i64::MIN);
}

#[test]
fn timestamp_not_available() {
    assert_eq!(
        stamped(TimestampType::NotAvailable, 1_600_000_000_000),
        Timestamp::NotAvailable
    );
    assert_eq!(stamped(TimestampType::NotAvailable, -1), Timestamp::NotAvailable);
}

#[test]
fn timestamp_create_time() {
    assert_eq!(
        stamped(TimestampType::CreateTime, 1_600_000_000_000),
        Timestamp::CreateTime(1_600_000_000_000)
    );
}

#[test]
fn timestamp_log_append_time() {
    assert_eq!(
        stamped(TimestampType::LogAppendTime, 1_600_000_000_000),
        Timestamp::LogAppendTime(1_600_000_000_000)
    );
}

#[test]
fn timestamp_keeps_the_raw_value() {
    assert_eq!(stamped(TimestampType::CreateTime, 0), Timestamp::CreateTime(0));
    assert_eq!(
        stamped(TimestampType::CreateTime, i64::MIN),
        Timestamp::CreateTime(i64::MIN)
    );
    assert_eq!(
        stamped(TimestampType::LogAppendTime, i64::MAX),
        Timestamp::LogAppendTime(i64::MAX)
    );
    assert_ne!(
        stamped(TimestampType::CreateTime, 5),
        stamped(TimestampType::LogAppendTime, 5)
    );
}

#[test]
fn timestamp_from_raw_agrees_with_the_message() {
    assert_eq!(
        Timestamp::from_raw(TimestampType::NotAvailable, 17),
        Timestamp::NotAvailable
    );
    assert_eq!(
        Timestamp::from_raw(TimestampType::CreateTime, 17),
        Timestamp::CreateTime(17)
    );
    assert_eq!(
        Timestamp::from_raw(TimestampType::LogAppendTime, 17),
        Timestamp::LogAppendTime(17)
    );
}

#[test]
fn message_can_be_handed_to_another_owner() {
    let key = vec![1u8, 2, 3];
    let payload = "payload".to_string();
    let message = Message::new(record(Some(&key), Some(payload.as_bytes())));
    assert!(is_send(&message));
    let before = (
        message.key().map(|k| k.to_vec()),
        message.payload().map(|p| p.to_vec()),
        message.topic_name().to_string(),
        message.partition(),
        message.offset(),
        message.timestamp(),
    );
    let moved = Box::new(message);
    let after = (
        moved.key().map(|k| k.to_vec()),
        moved.payload().map(|p| p.to_vec()),
        moved.topic_name().to_string(),
        moved.partition(),
        moved.offset(),
        moved.timestamp(),
    );
    assert_eq!(before, after);
}
