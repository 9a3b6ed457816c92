use grammers_session::defs::PeerId;
use tgcli::message::{
    deleted_messages, extract_sender_id, extract_topic_from_message, extract_topic_id_from_raw,
    message_from_raw_update, MessageUpdate, RawMessage, RawUpdate, ReplyHeader,
};
use tgcli::peer::{Group, Peer, RawPeer, User};
use tgcli::time::Timestamp;

fn message(peer_id: PeerId, raw: RawUpdate) -> MessageUpdate {
    MessageUpdate {
        id: 7,
        peer_id,
        peer: None,
        sender: None,
        outgoing: false,
        text: "hi".to_string(),
        date: Timestamp { seconds: 0, nanos: 0 },
        reply_to: None,
        has_media: false,
        raw,
    }
}

fn from(user_id: i64) -> RawMessage {
    RawMessage::Message { from_id: Some(RawPeer::User { user_id }), reply_to: None }
}

fn topic(forum_topic: bool, top: Option<i32>, reply: Option<i32>) -> RawMessage {
    RawMessage::Message {
        from_id: None,
        reply_to: Some(ReplyHeader::Message {
            forum_topic,
            reply_to_top_id: top,
            reply_to_msg_id: reply,
        }),
    }
}

#[test]
fn the_known_sender_comes_first() {
    let mut update = message(PeerId::chat(5), RawUpdate::NewMessage(from(22)));
    update.sender = Some(Peer::User(User { id: 11, profile: None }));
    assert_eq!(extract_sender_id(&update), 11);
    update.sender = None;
    assert_eq!(extract_sender_id(&update), 22);
}

#[test]
fn a_service_message_names_its_sender() {
    let raw = RawMessage::Service { from_id: Some(RawPeer::Channel { channel_id: 33 }) };
    assert_eq!(extract_sender_id(&message(PeerId::chat(5), RawUpdate::EditMessage(raw))), 33);
}

#[test]
fn a_private_chat_tells_its_sender() {
    let mut update = message(PeerId::user(42), RawUpdate::NewMessage(RawMessage::Empty));
    assert_eq!(extract_sender_id(&update), 42);
    update.outgoing = true;
    assert_eq!(extract_sender_id(&update), 0);
}

#[test]
fn a_group_does_not_tell_its_sender() {
    let nobody = RawMessage::Message { from_id: None, reply_to: None };
    let update = message(PeerId::chat(5), RawUpdate::NewMessage(nobody));
    assert_eq!(extract_sender_id(&update), 0);
    let update = message(PeerId::channel(5), RawUpdate::Other);
    assert_eq!(extract_sender_id(&update), 0);
}

#[test]
fn four_updates_carry_a_message() {
    let raw = from(1);
    assert_eq!(message_from_raw_update(&RawUpdate::NewMessage(raw)), Some(&raw));
    assert_eq!(message_from_raw_update(&RawUpdate::NewChannelMessage(raw)), Some(&raw));
    assert_eq!(message_from_raw_update(&RawUpdate::EditMessage(raw)), Some(&raw));
    assert_eq!(message_from_raw_update(&RawUpdate::EditChannelMessage(raw)), Some(&raw));
    assert_eq!(message_from_raw_update(&RawUpdate::DeleteMessages { messages: vec![1] }), None);
    assert_eq!(message_from_raw_update(&RawUpdate::Other), None);
}

#[test]
fn the_thread_comes_before_the_reply() {
    assert_eq!(extract_topic_from_message(&topic(true, Some(3), Some(4))), Some(3));
    assert_eq!(extract_topic_from_message(&topic(true, None, Some(4))), Some(4));
    assert_eq!(extract_topic_from_message(&topic(true, None, None)), None);
    assert_eq!(extract_topic_from_message(&topic(false, Some(3), Some(4))), None);
    assert_eq!(extract_topic_from_message(&RawMessage::Empty), None);
    let story = RawMessage::Message { from_id: None, reply_to: Some(ReplyHeader::Story) };
    assert_eq!(extract_topic_from_message(&story), None);
}

#[test]
fn only_channels_have_topics() {
    let raw = topic(true, Some(3), None);
    assert_eq!(extract_topic_id_from_raw(&RawUpdate::NewChannelMessage(raw)), Some(3));
    assert_eq!(extract_topic_id_from_raw(&RawUpdate::EditChannelMessage(raw)), Some(3));
    assert_eq!(extract_topic_id_from_raw(&RawUpdate::NewMessage(raw)), None);
    assert_eq!(extract_topic_id_from_raw(&RawUpdate::EditMessage(raw)), None);
    assert_eq!(extract_topic_id_from_raw(&RawUpdate::Other), None);
}

#[test]
fn deletions_name_their_channel_if_they_can() {
    let plain = RawUpdate::DeleteMessages { messages: vec![1, 2] };
    assert_eq!(deleted_messages(plain), Some((None, vec![1, 2])));
    let channel = RawUpdate::DeleteChannelMessages { channel_id: 9, messages: vec![3] };
    assert_eq!(deleted_messages(channel), Some((Some(9), vec![3])));
    assert_eq!(deleted_messages(RawUpdate::Other), None);
}

#[test]
fn updates_are_checked() {
    assert!(message(PeerId::user(1), RawUpdate::Other).check());
    assert!(!message(PeerId::self_user(), RawUpdate::Other).check());
    let mut update = message(PeerId::chat(1), RawUpdate::Other);
    update.date = Timestamp { seconds: i64::MAX, nanos: 0 };
    assert!(!update.check());
    let mut update = message(PeerId::chat(1), RawUpdate::Other);
    update.sender = Some(Peer::User(User { id: 0, profile: None }));
    assert!(!update.check());
    let mut update = message(PeerId::chat(1), RawUpdate::Other);
    update.peer = Some(Peer::Group(Group::Empty { id: 0 }));
    assert!(!update.check());
}
