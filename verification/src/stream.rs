//! The stream of updates as JSON lines.

use crate::json::{encoded, put_bool, put_int, put_ints, put_text};
use crate::peer::copy_text;
use crate::time::{rfc3339, Timestamp};
use vstd::prelude::*;

#[allow(unused_imports)]
use crate::json::{int_field, is_one_line, no_fields, object_text, text_field, JsonField};
#[allow(unused_imports)]
use crate::text::text_of;
#[allow(unused_imports)]
use crate::time::rfc3339_text;

verus! {

/// A stored message as the stream tells of it.
#[derive(Debug)]
pub struct MessageEvent {
    pub is_edit: bool,
    pub chat_id: i64,
    pub id: i32,
    pub sender_id: i64,
    pub from_me: bool,
    pub ts: Timestamp,
    pub edit_ts: Option<Timestamp>,
    pub text: String,
    pub topic_id: Option<i32>,
    pub media_type: Option<String>,
}

/// The text of a point in time.
pub open spec fn time_text(at: Timestamp) -> Seq<char> {
    rfc3339_text(at.seconds, at.nanos)
}

/// The text of an optional point in time.
pub open spec fn optional_time_text(at: Option<Timestamp>) -> Option<Seq<char>> {
    match at {
        Some(at) => Some(time_text(at)),
        None => None,
    }
}

/// An optional number, widened.
pub open spec fn widened(value: Option<i32>) -> Option<i64> {
    match value {
        Some(n) => Some(n as i64),
        None => None,
    }
}

impl MessageEvent {
    pub open spec fn wf(self) -> bool {
        &&& self.ts.valid()
        &&& self.edit_ts matches Some(at) ==> at.valid()
    }

    /// The fields of the event's object.
    pub open spec fn fields(self) -> Map<Seq<char>, JsonField> {
        message_fields(
            self.is_edit,
            self.chat_id,
            self.id,
            self.sender_id,
            self.from_me,
            self.ts,
            self.edit_ts,
            self.text@,
            self.topic_id,
            text_of(self.media_type),
        )
    }
}

/// The fields of the object that tells of a stored message.
pub open spec fn message_fields(
    is_edit: bool,
    chat_id: i64,
    id: i32,
    sender_id: i64,
    from_me: bool,
    ts: Timestamp,
    edit_ts: Option<Timestamp>,
    text: Seq<char>,
    topic_id: Option<i32>,
    media_type: Option<Seq<char>>,
) -> Map<Seq<char>, JsonField> {
    no_fields().insert(
        "type"@,
        JsonField::Text(
            if is_edit {
                "message_edited"@
            } else {
                "new_message"@
            },
        ),
    ).insert("chat_id"@, JsonField::Int(chat_id)).insert("id"@, JsonField::Int(id as i64)).insert(
        "sender_id"@,
        JsonField::Int(sender_id),
    ).insert("from_me"@, JsonField::Bool(from_me)).insert(
        "ts"@,
        JsonField::Text(time_text(ts)),
    ).insert("edit_ts"@, text_field(optional_time_text(edit_ts))).insert(
        "text"@,
        JsonField::Text(text),
    ).insert("topic_id"@, int_field(widened(topic_id))).insert(
        "media_type"@,
        text_field(media_type),
    )
}

/// The fields of the object that tells of deleted messages.
pub open spec fn deletion_fields(chat_id: Option<i64>, message_ids: Seq<i32>) -> Map<
    Seq<char>,
    JsonField,
> {
    no_fields().insert("type"@, JsonField::Text("message_deleted"@)).insert(
        "chat_id"@,
        int_field(chat_id),
    ).insert("message_ids"@, JsonField::Ints(message_ids))
}

/// Widens an optional number.
pub fn widen(value: Option<i32>) -> (res: Option<i64>)
    ensures
        res == widened(value),
{
    match value {
        Some(n) => Some(n as i64),
        None => None,
    }
}

/// The line that tells of a stored message.
pub fn message_line(event: &MessageEvent) -> (res: String)
    requires
        event.wf(),
    ensures
        res@ == object_text(event.fields()),
        is_one_line(res@),
{
    let kind = if event.is_edit {
        "message_edited"
    } else {
        "new_message"
    };
    let edit_ts = match event.edit_ts {
        Some(at) => Some(rfc3339(at)),
        None => None,
    };
    let mut object = serde_json::Map::<String, serde_json::Value>::new();
    put_text(&mut object, "type", Some(kind.to_string()));
    put_int(&mut object, "chat_id", Some(event.chat_id));
    put_int(&mut object, "id", Some(event.id as i64));
    put_int(&mut object, "sender_id", Some(event.sender_id));
    put_bool(&mut object, "from_me", event.from_me);
    put_text(&mut object, "ts", Some(rfc3339(event.ts)));
    put_text(&mut object, "edit_ts", edit_ts);
    put_text(&mut object, "text", Some(event.text.clone()));
    put_int(&mut object, "topic_id", widen(event.topic_id));
    put_text(&mut object, "media_type", copy_text(&event.media_type));
    encoded(object)
}

/// The line that tells of deleted messages.
pub fn deletion_line(chat_id: Option<i64>, message_ids: Vec<i32>) -> (res: String)
    ensures
        res@ == object_text(deletion_fields(chat_id, message_ids@)),
        is_one_line(res@),
{
    let mut object = serde_json::Map::<String, serde_json::Value>::new();
    put_text(&mut object, "type", Some("message_deleted".to_string()));
    put_int(&mut object, "chat_id", chat_id);
    put_ints(&mut object, "message_ids", message_ids);
    encoded(object)
}

} // verus!
