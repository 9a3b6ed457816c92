//! What holds of every line in the stream.

use crate::time::Timestamp;
use vstd::prelude::*;

#[allow(unused_imports)]
use crate::json::JsonField;
#[allow(unused_imports)]
use crate::onboarding::CONTRACT;
#[allow(unused_imports)]
use crate::stream::{deletion_fields, message_fields};
#[allow(unused_imports)]
use crate::time::rfc3339_text;
#[allow(unused_imports)]
use crate::version::version_fields;

verus! {

/// Reads the names of the lines.
proof fn lemma_names()
    ensures
        "type"@ != "chat_id"@ && "type"@ != "id"@ && "type"@ != "sender_id"@ && "type"@
            != "from_me"@ && "type"@ != "ts"@ && "type"@ != "edit_ts"@ && "type"@ != "text"@
            && "type"@ != "topic_id"@ && "type"@ != "media_type"@ && "type"@ != "message_ids"@,
        "chat_id"@ != "id"@ && "chat_id"@ != "sender_id"@ && "chat_id"@ != "from_me"@ && "chat_id"@
            != "ts"@ && "chat_id"@ != "edit_ts"@ && "chat_id"@ != "text"@ && "chat_id"@
            != "topic_id"@ && "chat_id"@ != "media_type"@ && "chat_id"@ != "message_ids"@,
        "id"@ != "sender_id"@ && "id"@ != "from_me"@ && "id"@ != "ts"@ && "id"@ != "edit_ts"@
            && "id"@ != "text"@ && "id"@ != "topic_id"@ && "id"@ != "media_type"@,
        "sender_id"@ != "from_me"@ && "sender_id"@ != "ts"@ && "sender_id"@ != "edit_ts"@
            && "sender_id"@ != "text"@ && "sender_id"@ != "topic_id"@ && "sender_id"@
            != "media_type"@,
        "from_me"@ != "ts"@ && "from_me"@ != "edit_ts"@ && "from_me"@ != "text"@ && "from_me"@
            != "topic_id"@ && "from_me"@ != "media_type"@,
        "ts"@ != "edit_ts"@ && "ts"@ != "text"@ && "ts"@ != "topic_id"@ && "ts"@ != "media_type"@,
        "edit_ts"@ != "text"@ && "edit_ts"@ != "topic_id"@ && "edit_ts"@ != "media_type"@,
        "text"@ != "topic_id"@ && "text"@ != "media_type"@,
        "topic_id"@ != "media_type"@,
        "version"@ != "contract"@,
{
    reveal_strlit("type");
    reveal_strlit("chat_id");
    reveal_strlit("id");
    reveal_strlit("sender_id");
    reveal_strlit("from_me");
    reveal_strlit("ts");
    reveal_strlit("edit_ts");
    reveal_strlit("text");
    reveal_strlit("topic_id");
    reveal_strlit("media_type");
    reveal_strlit("message_ids");
    reveal_strlit("version");
    reveal_strlit("contract");
    assert("type"@[1] == 'y' && "text"@[1] == 'e');
    assert("chat_id"@[0] == 'c' && "from_me"@[0] == 'f' && "edit_ts"@[0] == 'e');
    assert("version"@[0] == 'v' && "contract"@[0] == 'c');
    assert("type"@.len() == 4 && "chat_id"@.len() == 7 && "id"@.len() == 2 && "sender_id"@.len()
        == 9 && "from_me"@.len() == 7 && "ts"@.len() == 2 && "edit_ts"@.len() == 7
        && "text"@.len() == 4 && "topic_id"@.len() == 8 && "media_type"@.len() == 10
        && "message_ids"@.len() == 11);
    assert("id"@[0] == 'i' && "ts"@[0] == 't');
}

/// The line of a message has ten fields, and each tells what its name says: the message's own
/// time whether it was edited or not, and the time of the edit beside it.
pub proof fn message_lines_tell_the_message(
    is_edit: bool,
    chat_id: i64,
    id: i32,
    sender_id: i64,
    from_me: bool,
    ts: Timestamp,
    edit_ts: Option<Timestamp>,
    text: Seq<char>,
    topic_id: Option<i32>,
    media_type: Option<Seq<char>>,
)
    ensures
        ({
            let fields = message_fields(
                is_edit,
                chat_id,
                id,
                sender_id,
                from_me,
                ts,
                edit_ts,
                text,
                topic_id,
                media_type,
            );
            &&& fields.dom() == set![
                "type"@,
                "chat_id"@,
                "id"@,
                "sender_id"@,
                "from_me"@,
                "ts"@,
                "edit_ts"@,
                "text"@,
                "topic_id"@,
                "media_type"@,
            ]
            &&& is_edit ==> fields["type"@] == JsonField::Text("message_edited"@)
            &&& !is_edit ==> fields["type"@] == JsonField::Text("new_message"@)
            &&& fields["chat_id"@] == JsonField::Int(chat_id)
            &&& fields["id"@] matches JsonField::Int(n) && n == id
            &&& fields["sender_id"@] == JsonField::Int(sender_id)
            &&& fields["from_me"@] == JsonField::Bool(from_me)
            &&& fields["ts"@] == JsonField::Text(rfc3339_text(ts.seconds, ts.nanos))
            &&& edit_ts is None ==> fields["edit_ts"@] is Null
            &&& edit_ts matches Some(at) ==> fields["edit_ts"@] == JsonField::Text(
                rfc3339_text(at.seconds, at.nanos),
            )
            &&& fields["text"@] == JsonField::Text(text)
            &&& topic_id is None ==> fields["topic_id"@] is Null
            &&& topic_id matches Some(topic) ==> (fields["topic_id"@] matches JsonField::Int(n)
                && n == topic)
            &&& media_type is None ==> fields["media_type"@] is Null
            &&& media_type matches Some(kind) ==> fields["media_type"@] == JsonField::Text(kind)
        }),
{
    lemma_names();
    let fields = message_fields(
        is_edit,
        chat_id,
        id,
        sender_id,
        from_me,
        ts,
        edit_ts,
        text,
        topic_id,
        media_type,
    );
    assert(fields.dom() =~= set![
        "type"@,
        "chat_id"@,
        "id"@,
        "sender_id"@,
        "from_me"@,
        "ts"@,
        "edit_ts"@,
        "text"@,
        "topic_id"@,
        "media_type"@,
    ]);
}

/// The line of a deletion has three fields, and tells all of the deleted messages in their order.
pub proof fn deletion_lines_tell_the_deletion(chat_id: Option<i64>, messages: Seq<i32>)
    ensures
        ({
            let fields = deletion_fields(chat_id, messages);
            &&& fields.dom() == set!["type"@, "chat_id"@, "message_ids"@]
            &&& fields["type"@] == JsonField::Text("message_deleted"@)
            &&& chat_id is None ==> fields["chat_id"@] is Null
            &&& chat_id matches Some(id) ==> fields["chat_id"@] == JsonField::Int(id)
            &&& fields["message_ids"@] == JsonField::Ints(messages)
        }),
{
    lemma_names();
    assert(deletion_fields(chat_id, messages).dom() =~= set![
        "type"@,
        "chat_id"@,
        "message_ids"@,
    ]);
}

/// The version is told with the contract, and with nothing else.
pub proof fn version_lines_tell_the_contract(version: Seq<char>)
    ensures
        ({
            let fields = version_fields(version);
            &&& fields.dom() == set!["version"@, "contract"@]
            &&& fields["version"@] == JsonField::Text(version)
            &&& fields["contract"@] == JsonField::Text("northstar-macos-v1"@)
        }),
{
    lemma_names();
    assert(version_fields(version).dom() =~= set!["version"@, "contract"@]);
}

} // verus!
