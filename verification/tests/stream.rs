use tgcli::stream::{deletion_line, message_line, widen, MessageEvent};
use tgcli::time::Timestamp;

fn event() -> MessageEvent {
    MessageEvent {
        is_edit: false,
        chat_id: 42,
        id: 7,
        sender_id: 11,
        from_me: false,
        ts: Timestamp { seconds: 0, nanos: 0 },
        edit_ts: None,
        text: "hi".to_string(),
        topic_id: None,
        media_type: None,
    }
}

#[test]
fn tells_of_a_new_message() {
    assert_eq!(
        message_line(&event()),
        "{\"chat_id\":42,\"edit_ts\":null,\"from_me\":false,\"id\":7,\"media_type\":null,\
         \"sender_id\":11,\"text\":\"hi\",\"topic_id\":null,\
         \"ts\":\"1970-01-01T00:00:00+00:00\",\"type\":\"new_message\"}"
    );
}

#[test]
fn tells_of_an_edited_message() {
    let edited = MessageEvent {
        is_edit: true,
        from_me: true,
        ts: Timestamp { seconds: 1_700_000_000, nanos: 0 },
        edit_ts: Some(Timestamp { seconds: 1_700_000_001, nanos: 500_000_000 }),
        text: "two\nlines \"quoted\"".to_string(),
        topic_id: Some(3),
        media_type: Some("media".to_string()),
        ..event()
    };
    let line = message_line(&edited);
    assert_eq!(
        line,
        "{\"chat_id\":42,\"edit_ts\":\"2023-11-14T22:13:21.500+00:00\",\"from_me\":true,\"id\":7,\
         \"media_type\":\"media\",\"sender_id\":11,\"text\":\"two\\nlines \\\"quoted\\\"\",\
         \"topic_id\":3,\"ts\":\"2023-11-14T22:13:20+00:00\",\"type\":\"message_edited\"}"
    );
    assert!(!line.contains('\n'));
}

#[test]
fn tells_of_deleted_messages() {
    assert_eq!(
        deletion_line(None, vec![1, -2]),
        "{\"chat_id\":null,\"message_ids\":[1,-2],\"type\":\"message_deleted\"}"
    );
    assert_eq!(
        deletion_line(Some(9), vec![]),
        "{\"chat_id\":9,\"message_ids\":[],\"type\":\"message_deleted\"}"
    );
}

#[test]
fn widens_numbers() {
    assert_eq!(widen(Some(-3)), Some(-3i64));
    assert_eq!(widen(None), None);
}

#[test]
fn writes_the_first_and_last_points_in_time() {
    let first = MessageEvent {
        ts: Timestamp { seconds: tgcli::time::MIN_SECONDS, nanos: 0 },
        ..event()
    };
    assert!(message_line(&first).contains("\"ts\":\"-262143-01-01T00:00:00+00:00\""));
    let last = MessageEvent {
        ts: Timestamp { seconds: tgcli::time::MAX_SECONDS, nanos: 999_999_999 },
        ..event()
    };
    assert!(message_line(&last).contains("\"ts\":\"+262142-12-31T23:59:59.999999999+00:00\""));
}
