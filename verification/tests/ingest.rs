use grammers_session::defs::PeerId;
use std::collections::HashSet;
use tgcli::args::DaemonArgs;
use tgcli::ingest::{
    contact_of, count, persist_message_update, PersistAction, PersistEvent, PersistRun,
    PersistStage,
};
use tgcli::message::{MessageUpdate, RawMessage, RawUpdate, ReplyHeader};
use tgcli::peer::{Channel, Peer, RawPeer, User, UserProfile};
use tgcli::store::StoredChat;
use tgcli::time::Timestamp;

fn ada() -> User {
    User {
        id: 11,
        profile: Some(UserProfile {
            access_hash: Some(77),
            first_name: Some("Ada".to_string()),
            last_name: None,
            username: Some("ada".to_string()),
            phone: Some("123".to_string()),
        }),
    }
}

fn news() -> Peer {
    Peer::Channel(Channel {
        id: 42,
        title: "News".to_string(),
        username: Some("news".to_string()),
        megagroup: false,
        forum: true,
        access_hash: Some(5),
    })
}

fn update(peer: Option<Peer>, sender: Option<Peer>) -> MessageUpdate {
    MessageUpdate {
        id: 7,
        peer_id: PeerId::channel(42),
        peer,
        sender,
        outgoing: false,
        text: "hi".to_string(),
        date: Timestamp { seconds: 1_000, nanos: 0 },
        reply_to: Some(6),
        has_media: true,
        raw: RawUpdate::NewChannelMessage(RawMessage::Message {
            from_id: Some(RawPeer::User { user_id: 22 }),
            reply_to: Some(ReplyHeader::Message {
                forum_topic: true,
                reply_to_top_id: None,
                reply_to_msg_id: Some(6),
            }),
        }),
    }
}

fn now() -> Timestamp {
    Timestamp { seconds: 2_000, nanos: 0 }
}

struct Storing {
    args: DaemonArgs,
    ignore_set: HashSet<i64>,
    run: PersistRun,
    stored: u64,
}

impl Storing {
    fn new(args: DaemonArgs, message: MessageUpdate, is_edit: bool) -> Self {
        let ignore_set = args.ignore_set();
        let run = PersistRun::start(message, is_edit).unwrap();
        Storing { args, ignore_set, run, stored: 0 }
    }

    fn tell(&mut self, event: PersistEvent) -> PersistAction {
        let Storing { args, ignore_set, run, stored } = self;
        persist_message_update(args, ignore_set, run, event, stored)
    }

    fn look_up(&mut self, chat: Option<StoredChat>) -> PersistAction {
        let action = self.tell(PersistEvent::StoreOpened);
        assert!(matches!(action, PersistAction::FindChat { chat_id: 42 }));
        self.tell(PersistEvent::ChatFound { chat, now: now() })
    }
}

fn failed(error: &str) -> PersistEvent {
    PersistEvent::Failed { error: error.to_string() }
}

#[test]
fn stores_the_message_then_tells_then_enriches() {
    let args = DaemonArgs { stream: true, ..DaemonArgs::default() };
    let sender = Some(Peer::User(ada()));
    let mut storing = Storing::new(args, update(Some(news()), sender), false);
    let known = StoredChat { kind: "group".to_string(), archived: true };
    match storing.look_up(Some(known)) {
        PersistAction::WriteMessage { params, chat_kind } => {
            assert_eq!(chat_kind, "channel");
            assert_eq!(params.id, 7);
            assert_eq!(params.chat_id, 42);
            assert_eq!(params.sender_id, 11);
            assert_eq!(params.ts, Timestamp { seconds: 1_000, nanos: 0 });
            assert_eq!(params.edit_ts, None);
            assert!(!params.from_me);
            assert_eq!(params.text, "hi");
            assert_eq!(params.media_type, Some("media".to_string()));
            assert_eq!(params.media_path, None);
            assert_eq!(params.reply_to_id, Some(6));
            assert_eq!(params.topic_id, Some(6));
        }
        other => panic!("{other:?}"),
    }
    assert_eq!(storing.stored, 0);
    match storing.tell(PersistEvent::MessageWritten) {
        PersistAction::WriteLine { line } => assert_eq!(
            line,
            "{\"chat_id\":42,\"edit_ts\":null,\"from_me\":false,\"id\":7,\"media_type\":\"media\",\
             \"sender_id\":11,\"text\":\"hi\",\"topic_id\":6,\
             \"ts\":\"1970-01-01T00:16:40+00:00\",\"type\":\"new_message\"}"
        ),
        other => panic!("{other:?}"),
    }
    assert_eq!(storing.stored, 1);
    match storing.tell(PersistEvent::LineWritten) {
        PersistAction::WriteContact { contact } => {
            assert_eq!(contact.user_id, 11);
            assert_eq!(contact.username, Some("ada".to_string()));
            assert_eq!(contact.first_name, "Ada");
            assert_eq!(contact.last_name, "");
            assert_eq!(contact.phone, "123");
        }
        other => panic!("{other:?}"),
    }
    match storing.tell(PersistEvent::ContactWritten) {
        PersistAction::WriteChat { chat } => {
            assert_eq!(chat.chat_id, 42);
            assert_eq!(chat.kind, "channel");
            assert_eq!(chat.name, "News");
            assert_eq!(chat.username, Some("news".to_string()));
            assert_eq!(chat.last_message_ts, Some(Timestamp { seconds: 1_000, nanos: 0 }));
            assert!(chat.is_forum);
            assert_eq!(chat.access_hash, Some(5));
            assert!(chat.archived);
        }
        other => panic!("{other:?}"),
    }
    let action = storing.tell(PersistEvent::ChatWritten);
    assert!(matches!(action, PersistAction::Finish { warning: None }));
    assert_eq!(storing.run.stage, PersistStage::Finished);
    assert_eq!(storing.stored, 1);
}

#[test]
fn stores_an_edit_with_its_time() {
    let mut storing = Storing::new(DaemonArgs::default(), update(None, None), true);
    match storing.look_up(None) {
        PersistAction::WriteMessage { params, chat_kind } => {
            assert_eq!(chat_kind, "channel");
            assert_eq!(params.sender_id, 22);
            assert_eq!(params.edit_ts, Some(now()));
        }
        other => panic!("{other:?}"),
    }
}

#[test]
fn the_archive_tells_the_kind_where_metadata_is_missing() {
    let mut storing = Storing::new(DaemonArgs::default(), update(None, None), false);
    let known = StoredChat { kind: "group".to_string(), archived: false };
    match storing.look_up(Some(known)) {
        PersistAction::WriteMessage { chat_kind, .. } => assert_eq!(chat_kind, "group"),
        other => panic!("{other:?}"),
    }
}

#[test]
fn a_raw_peer_is_stored_with_a_warning() {
    let mut storing = Storing::new(DaemonArgs::default(), update(None, None), false);
    storing.look_up(None);
    match storing.tell(PersistEvent::MessageWritten) {
        PersistAction::Finish { warning } => assert_eq!(
            warning.unwrap(),
            "Message 7 in chat 42 persisted using raw peer ID; peer enrichment queued"
        ),
        other => panic!("{other:?}"),
    }
    assert_eq!(storing.stored, 1);
}

#[test]
fn a_sender_is_a_contact_though_the_chat_is_unknown() {
    let sender = Some(Peer::User(ada()));
    let mut storing = Storing::new(DaemonArgs::default(), update(None, sender), false);
    storing.look_up(None);
    match storing.tell(PersistEvent::MessageWritten) {
        PersistAction::WriteContact { contact } => assert_eq!(contact.user_id, 11),
        other => panic!("{other:?}"),
    }
    match storing.tell(PersistEvent::ContactWritten) {
        PersistAction::Finish { warning } => assert_eq!(
            warning.unwrap(),
            "Message 7 in chat 42 persisted using raw peer ID; peer enrichment queued"
        ),
        other => panic!("{other:?}"),
    }
    assert_eq!(storing.run.stage, PersistStage::Finished);
}

#[test]
fn media_is_downloaded_before_the_write() {
    for path in [None, Some("media/7.jpg".to_string())] {
        let args = DaemonArgs { download_media: true, ..DaemonArgs::default() };
        let mut storing = Storing::new(args, update(None, None), false);
        let action = storing.look_up(None);
        assert!(matches!(action, PersistAction::DownloadMedia { message_id: 7, chat_id: 42 }));
        match storing.tell(PersistEvent::MediaDownloaded { path: path.clone() }) {
            PersistAction::WriteMessage { params, .. } => assert_eq!(params.media_path, path),
            other => panic!("{other:?}"),
        }
    }
}

#[test]
fn media_is_not_downloaded_without_need() {
    let args = DaemonArgs { download_media: true, ..DaemonArgs::default() };
    let mut plain = update(None, None);
    plain.has_media = false;
    let mut storing = Storing::new(args, plain, false);
    match storing.look_up(None) {
        PersistAction::WriteMessage { params, .. } => {
            assert_eq!(params.media_path, None);
            assert_eq!(params.media_type, None);
        }
        other => panic!("{other:?}"),
    }

    let args = DaemonArgs {
        download_media: true,
        ignore_chat_ids: vec![42],
        ..DaemonArgs::default()
    };
    let mut storing = Storing::new(args, update(None, None), false);
    assert!(matches!(storing.look_up(None), PersistAction::Finish { warning: None }));
}

#[test]
fn a_skipped_message_may_have_any_sender() {
    let nobody = || Some(Peer::User(User { id: 0, profile: None }));
    let args = DaemonArgs { ignore_chat_ids: vec![42], ..DaemonArgs::default() };
    let mut storing = Storing::new(args, update(None, nobody()), false);
    storing.tell(PersistEvent::StoreOpened);
    assert!(storing.run.check_found(&storing.args, &storing.ignore_set, &None, now()));
    let action = storing.tell(PersistEvent::ChatFound { chat: None, now: now() });
    assert!(matches!(action, PersistAction::Finish { warning: None }));

    let mut storing = Storing::new(DaemonArgs::default(), update(None, nobody()), false);
    storing.tell(PersistEvent::StoreOpened);
    assert!(!storing.run.check_found(&storing.args, &storing.ignore_set, &None, now()));
}

#[test]
fn a_sender_that_is_no_user_is_no_contact() {
    let mut storing = Storing::new(DaemonArgs::default(), update(Some(news()), Some(news())), false);
    storing.look_up(None);
    match storing.tell(PersistEvent::MessageWritten) {
        PersistAction::WriteChat { chat } => assert!(!chat.archived),
        other => panic!("{other:?}"),
    }
}

#[test]
fn ignored_chats_are_not_written() {
    let args = DaemonArgs { ignore_chat_ids: vec![1, 42], ..DaemonArgs::default() };
    let mut storing = Storing::new(args, update(Some(news()), None), false);
    assert!(matches!(storing.look_up(None), PersistAction::Finish { warning: None }));
    assert_eq!(storing.run.stage, PersistStage::Finished);
    assert_eq!(storing.stored, 0);
}

#[test]
fn ignored_channels_are_not_written() {
    let args = DaemonArgs { ignore_channels: true, ..DaemonArgs::default() };
    let mut storing = Storing::new(args, update(None, None), false);
    assert!(matches!(storing.look_up(None), PersistAction::Finish { warning: None }));

    let args = DaemonArgs { ignore_channels: true, ..DaemonArgs::default() };
    let mut storing = Storing::new(args, update(None, None), false);
    let known = StoredChat { kind: "group".to_string(), archived: false };
    assert!(matches!(storing.look_up(Some(known)), PersistAction::WriteMessage { .. }));
}

#[test]
fn failures_before_the_write_are_reported() {
    let mut storing = Storing::new(DaemonArgs::default(), update(None, None), false);
    assert!(matches!(storing.tell(failed("locked")), PersistAction::Fail { context: None }));

    let mut storing = Storing::new(DaemonArgs::default(), update(None, None), false);
    storing.tell(PersistEvent::StoreOpened);
    assert!(matches!(storing.tell(failed("locked")), PersistAction::Fail { context: None }));

    for (is_edit, expected) in [
        (false, "Failed to durably persist new message 7 in chat 42"),
        (true, "Failed to durably persist edited message 7 in chat 42"),
    ] {
        let mut storing = Storing::new(DaemonArgs::default(), update(None, None), is_edit);
        storing.look_up(None);
        match storing.tell(failed("locked")) {
            PersistAction::Fail { context } => assert_eq!(context.unwrap(), expected),
            other => panic!("{other:?}"),
        }
        assert_eq!(storing.stored, 0);
    }
}

#[test]
fn failures_after_the_write_are_warned_of() {
    let expected = "Message 7 in chat 42 persisted; peer enrichment queued after error: locked";
    let sender = Some(Peer::User(ada()));
    let mut storing = Storing::new(DaemonArgs::default(), update(Some(news()), sender), false);
    storing.look_up(None);
    storing.tell(PersistEvent::MessageWritten);
    match storing.tell(failed("locked")) {
        PersistAction::Finish { warning } => assert_eq!(warning.unwrap(), expected),
        other => panic!("{other:?}"),
    }
    assert_eq!(storing.stored, 1);

    let mut storing = Storing::new(DaemonArgs::default(), update(Some(news()), None), false);
    storing.look_up(None);
    storing.tell(PersistEvent::MessageWritten);
    match storing.tell(failed("locked")) {
        PersistAction::Finish { warning } => assert_eq!(warning.unwrap(), expected),
        other => panic!("{other:?}"),
    }
}

#[test]
fn unidentified_updates_are_not_started() {
    let mut message = update(None, None);
    message.peer_id = PeerId::self_user();
    assert!(PersistRun::start(message, false).is_none());
}

#[test]
fn an_empty_user_is_an_empty_contact() {
    let contact = contact_of(&User { id: 3, profile: None });
    assert_eq!(contact.user_id, 3);
    assert_eq!(contact.username, None);
    assert_eq!(contact.first_name, "");
    assert_eq!(contact.last_name, "");
    assert_eq!(contact.phone, "");
}

#[test]
fn counters_go_round() {
    assert_eq!(count(0), 1);
    assert_eq!(count(u64::MAX), 0);
}
