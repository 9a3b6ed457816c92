//! Storing one message update, its metadata after it.

use crate::args::DaemonArgs;
use crate::message::{extract_sender_id, extract_topic_id_from_raw, MessageUpdate};
use crate::peer::{
    access_hash_from_peer, chat_kind_from_peer, chat_name_from_peer, copy_text, is_forum_peer,
    username_from_peer, Group, Peer, User,
};
use crate::peer_id::chat_kind_from_peer_id;
use crate::store::{ChatRecord, ContactRecord, StoredChat, UpsertMessageParams};
use crate::stream::{message_line, widen, MessageEvent};
use crate::text::append_signed;
use crate::time::Timestamp;
use std::collections::HashSet;
use vstd::prelude::*;

#[allow(unused_imports)]
use crate::json::{is_one_line, object_text};
#[allow(unused_imports)]
use crate::message::raw_topic;
#[allow(unused_imports)]
use crate::peer::{
    is_forum, peer_access_hash, peer_chat_kind, peer_chat_name, peer_username,
};
#[allow(unused_imports)]
use crate::peer_id::{dialog_chat_kind, is_chat_id};
#[allow(unused_imports)]
use crate::stream::{message_fields, widened};
#[allow(unused_imports)]
use crate::text::{signed_decimal, text_of};

verus! {

/// Where the storing of an update stands.
#[derive(Clone, Copy, Debug, PartialEq, Eq, Structural)]
pub enum PersistStage {
    AwaitStore,
    AwaitChat,
    AwaitMedia,
    AwaitWrite,
    AwaitLine,
    AwaitContact,
    AwaitChatWrite,
    Finished,
}

/// An update that is being stored, with what was found out on the way.
#[derive(Debug)]
pub struct PersistRun {
    pub stage: PersistStage,
    pub message: MessageUpdate,
    pub is_edit: bool,
    /// What the archive knew of the chat.
    pub existing: Option<StoredChat>,
    /// When the edit was seen.
    pub edit_ts: Option<Timestamp>,
    /// Where the media of the message was downloaded to.
    pub media_path: Option<String>,
}

/// What happened outside.
#[derive(Debug)]
pub enum PersistEvent {
    StoreOpened,
    /// The chat was looked up, and the clock was read.
    ChatFound { chat: Option<StoredChat>, now: Timestamp },
    /// The media was downloaded to the path, or could not be.
    MediaDownloaded { path: Option<String> },
    MessageWritten,
    LineWritten,
    ContactWritten,
    ChatWritten,
    /// What was awaited failed, with the error's text.
    Failed { error: String },
}

/// What is to be done next.
#[derive(Debug)]
pub enum PersistAction {
    FindChat { chat_id: i64 },
    DownloadMedia { message_id: i32, chat_id: i64 },
    WriteMessage { params: UpsertMessageParams, chat_kind: String },
    WriteLine { line: String },
    WriteContact { contact: ContactRecord },
    WriteChat { chat: ChatRecord },
    /// Nothing; the warning, if there is one, goes to the log.
    Finish { warning: Option<String> },
    /// Report what failed, under the context if there is one.
    Fail { context: Option<String> },
}

/// The text, or the empty string.
pub open spec fn text_or_empty(value: Option<Seq<char>>) -> Seq<char> {
    match value {
        Some(text) => text,
        None => ""@,
    }
}

/// The contact is that of the user.
pub open spec fn is_contact_of(contact: ContactRecord, user: User) -> bool {
    &&& contact.user_id == user.id
    &&& match user.profile {
        Some(profile) => {
            &&& text_of(contact.username) == text_of(profile.username)
            &&& contact.first_name@ == text_or_empty(text_of(profile.first_name))
            &&& contact.last_name@ == text_or_empty(text_of(profile.last_name))
            &&& contact.phone@ == text_or_empty(text_of(profile.phone))
        },
        None => {
            &&& contact.username is None
            &&& contact.first_name@ == ""@
            &&& contact.last_name@ == ""@
            &&& contact.phone@ == ""@
        },
    }
}

/// The record is that of the chat behind a peer.
pub open spec fn is_chat_of(
    chat: ChatRecord,
    peer: Peer,
    chat_id: int,
    ts: Timestamp,
    archived: bool,
) -> bool {
    &&& chat.chat_id == chat_id
    &&& chat.kind@ == peer_chat_kind(peer)
    &&& chat.name@ == peer_chat_name(peer)
    &&& text_of(chat.username) == peer_username(peer)
    &&& chat.last_message_ts == Some(ts)
    &&& chat.is_forum == is_forum(peer)
    &&& chat.access_hash == peer_access_hash(peer)
    &&& chat.archived == archived
}

/// The user who sent a message, where the sender is known and is a user.
pub open spec fn sending_user(message: MessageUpdate) -> Option<User> {
    match message.sender {
        Some(Peer::User(user)) => Some(user),
        _ => None,
    }
}

/// The first action of enrichment, or the one after the contact was stored: the contact of the
/// user who sent the message comes first, if there is one, and the chat comes after it.
pub open spec fn enriches(
    message: MessageUpdate,
    peer: Peer,
    chat_id: int,
    ts: Timestamp,
    archived: bool,
    contact_written: bool,
    action: PersistAction,
) -> bool {
    match (sending_user(message), contact_written, action) {
        (Some(user), false, PersistAction::WriteContact { contact }) => is_contact_of(
            contact,
            user,
        ),
        (Some(_), false, _) => false,
        (_, _, PersistAction::WriteChat { chat }) => is_chat_of(chat, peer, chat_id, ts, archived),
        _ => false,
    }
}

fn or_empty(value: &Option<String>) -> (res: String)
    ensures
        res@ == text_or_empty(text_of(*value)),
{
    match value {
        Some(text) => text.clone(),
        None => "".to_string(),
    }
}

/// The contact of a user.
pub fn contact_of(user: &User) -> (res: ContactRecord)
    ensures
        is_contact_of(res, *user),
{
    match &user.profile {
        Some(profile) => ContactRecord {
            user_id: user.id,
            username: copy_text(&profile.username),
            first_name: or_empty(&profile.first_name),
            last_name: or_empty(&profile.last_name),
            phone: or_empty(&profile.phone),
        },
        None => ContactRecord {
            user_id: user.id,
            username: None,
            first_name: "".to_string(),
            last_name: "".to_string(),
            phone: "".to_string(),
        },
    }
}

/// Stores the metadata of a message: what is to be written next, the contact of its sender or
/// its chat.
pub fn enrich_message_peer(
    message: &MessageUpdate,
    peer: &Peer,
    chat_id: i64,
    ts: Timestamp,
    archived: bool,
    contact_written: bool,
) -> (res: PersistAction)
    requires
        *peer matches Peer::Group(Group::Empty { id }) ==> is_chat_id(id as int),
    ensures
        enriches(*message, *peer, chat_id as int, ts, archived, contact_written, res),
{
    if !contact_written {
        if let Some(Peer::User(user)) = &message.sender {
            return PersistAction::WriteContact { contact: contact_of(user) };
        }
    }
    PersistAction::WriteChat {
        chat: ChatRecord {
            chat_id,
            kind: chat_kind_from_peer(peer),
            name: chat_name_from_peer(peer),
            username: username_from_peer(peer),
            last_message_ts: Some(ts),
            is_forum: is_forum_peer(peer),
            access_hash: access_hash_from_peer(peer),
            archived,
        },
    }
}

/// What is said of a message that could not be stored.
pub open spec fn failure_text(is_edit: bool, id: int, chat_id: int) -> Seq<char> {
    "Failed to durably persist "@ + (if is_edit {
        "edited"@
    } else {
        "new"@
    }) + " message "@ + signed_decimal(id) + " in chat "@ + signed_decimal(chat_id)
}

/// What is said of a stored message whose metadata could not be stored.
pub open spec fn enrichment_text(id: int, chat_id: int, error: Seq<char>) -> Seq<char> {
    "Message "@ + signed_decimal(id) + " in chat "@ + signed_decimal(chat_id)
        + " persisted; peer enrichment queued after error: "@ + error
}

/// What is said of a stored message whose chat was known by its identity alone.
pub open spec fn raw_peer_text(id: int, chat_id: int) -> Seq<char> {
    "Message "@ + signed_decimal(id) + " in chat "@ + signed_decimal(chat_id)
        + " persisted using raw peer ID; peer enrichment queued"@
}

/// A counter after one more, going round at its limit.
pub open spec fn counted(n: u64) -> u64 {
    if n == u64::MAX {
        0
    } else {
        (n + 1) as u64
    }
}

/// One more, going round at the limit.
pub fn count(n: u64) -> (res: u64)
    ensures
        res == counted(n),
{
    n.wrapping_add(1)
}

/// The kind of a message's chat: as the metadata tells it, or else the archive, or else the
/// identity alone.
pub open spec fn message_chat_kind(message: MessageUpdate, existing: Option<StoredChat>) -> Seq<
    char,
> {
    match (message.peer, existing) {
        (Some(peer), _) => peer_chat_kind(peer),
        (None, Some(chat)) => chat.kind@,
        (None, None) => dialog_chat_kind(message.dialog()),
    }
}

/// The message is one to skip.
pub open spec fn skipped(
    args: DaemonArgs,
    ignore_set: Set<i64>,
    message: MessageUpdate,
    existing: Option<StoredChat>,
) -> bool {
    ||| ignore_set.contains(message.chat_id() as i64)
    ||| args.ignore_channels && message_chat_kind(message, existing) == "channel"@
}

fn kind_text(message: &MessageUpdate, existing: &Option<StoredChat>) -> (res: String)
    requires
        message.located(),
    ensures
        res@ == message_chat_kind(*message, *existing),
{
    match &message.peer {
        Some(peer) => chat_kind_from_peer(peer).to_string(),
        None => match existing {
            Some(chat) => chat.kind.clone(),
            None => chat_kind_from_peer_id(message.peer_id).to_string(),
        },
    }
}

/// Whether the message is one to skip.
pub fn is_skipped(
    args: &DaemonArgs,
    ignore_set: &HashSet<i64>,
    message: &MessageUpdate,
    existing: &Option<StoredChat>,
) -> (res: bool)
    requires
        message.located(),
    ensures
        res == skipped(*args, ignore_set@, *message, *existing),
{
    broadcast use vstd::std_specs::hash::group_hash_axioms;

    let chat_id = message.peer_id.bare_id();
    let is_channel = kind_text(message, existing) == "channel".to_string();
    ignore_set.contains(&chat_id) || (args.ignore_channels && is_channel)
}

impl PersistRun {
    /// The message is neither skipped nor done with: it is on its way into the archive, or in
    /// it.
    pub open spec fn in_hand(self) -> bool {
        match self.stage {
            PersistStage::AwaitStore => false,
            PersistStage::AwaitChat => false,
            PersistStage::Finished => false,
            _ => true,
        }
    }

    pub open spec fn wf(self) -> bool {
        &&& self.message.located()
        &&& self.in_hand() ==> {
            &&& self.message.wf()
            &&& self.edit_ts matches Some(at) ==> at.valid()
            &&& self.edit_ts is Some <==> self.is_edit
        }
        &&& self.stage is AwaitStore || self.stage is AwaitChat || self.stage is AwaitMedia
            ==> self.media_path is None
        &&& self.stage is AwaitChatWrite ==> self.message.peer is Some
    }

    /// The kind of the chat.
    pub open spec fn chat_kind(self) -> Seq<char> {
        message_chat_kind(self.message, self.existing)
    }

    /// The run after the chat was looked up.
    pub open spec fn found(self, chat: Option<StoredChat>, now: Timestamp) -> PersistRun {
        PersistRun {
            existing: chat,
            edit_ts: if self.is_edit {
                Some(now)
            } else {
                None
            },
            ..self
        }
    }

    /// The update is one to skip.
    pub open spec fn ignored(self, args: DaemonArgs, ignore_set: Set<i64>) -> bool {
        skipped(args, ignore_set, self.message, self.existing)
    }

    /// The chat was marked as archived.
    pub open spec fn archived(self) -> bool {
        self.existing matches Some(chat) && chat.archived
    }

    /// The type of the message's media.
    pub open spec fn media_type(self) -> Option<Seq<char>> {
        if self.message.has_media {
            Some("media"@)
        } else {
            None
        }
    }

    /// The record is that of the message.
    pub open spec fn is_record(self, params: UpsertMessageParams) -> bool {
        &&& params.id == self.message.id
        &&& params.chat_id == self.message.chat_id()
        &&& params.sender_id == self.message.sender_id()
        &&& params.ts == self.message.date
        &&& params.edit_ts == self.edit_ts
        &&& params.from_me == self.message.outgoing
        &&& params.text@ == self.message.text@
        &&& text_of(params.media_type) == self.media_type()
        &&& text_of(params.media_path) == text_of(self.media_path)
        &&& params.reply_to_id == widened(self.message.reply_to)
        &&& params.topic_id == raw_topic(self.message.raw)
    }

    /// The line that tells of the message in the stream.
    pub open spec fn line(self) -> Seq<char> {
        object_text(
            message_fields(
                self.is_edit,
                self.message.chat_id() as i64,
                self.message.id,
                self.message.sender_id() as i64,
                self.message.outgoing,
                self.message.date,
                self.edit_ts,
                self.message.text@,
                raw_topic(self.message.raw),
                self.media_type(),
            ),
        )
    }

    /// The event is one that the run awaits; a message that is not skipped can be stored.
    pub open spec fn admits(
        self,
        args: DaemonArgs,
        ignore_set: Set<i64>,
        event: PersistEvent,
    ) -> bool {
        match (self.stage, event) {
            (PersistStage::AwaitStore, PersistEvent::StoreOpened) => true,
            (PersistStage::AwaitStore, PersistEvent::Failed { error }) => true,
            (PersistStage::AwaitChat, PersistEvent::ChatFound { chat, now }) => {
                ||| skipped(args, ignore_set, self.message, chat)
                ||| self.message.wf() && (self.is_edit ==> now.valid())
            },
            (PersistStage::AwaitChat, PersistEvent::Failed { error }) => true,
            (PersistStage::AwaitMedia, PersistEvent::MediaDownloaded { path }) => true,
            (PersistStage::AwaitWrite, PersistEvent::MessageWritten) => true,
            (PersistStage::AwaitWrite, PersistEvent::Failed { error }) => true,
            (PersistStage::AwaitLine, PersistEvent::LineWritten) => true,
            (PersistStage::AwaitContact, PersistEvent::ContactWritten) => true,
            (PersistStage::AwaitContact, PersistEvent::Failed { error }) => true,
            (PersistStage::AwaitChatWrite, PersistEvent::ChatWritten) => true,
            (PersistStage::AwaitChatWrite, PersistEvent::Failed { error }) => true,
            _ => false,
        }
    }

    /// The runs differ in their stage alone.
    pub open spec fn same_update(self, next: PersistRun) -> bool {
        next == (PersistRun { stage: next.stage, ..self })
    }

    /// The message is stored, and its line written where one is; what comes next is the
    /// metadata, as far as it is known.
    pub open spec fn turns_to_metadata(self, next: PersistRun, action: PersistAction) -> bool {
        &&& self.same_update(next)
        &&& match self.message.peer {
            Some(peer) => {
                &&& enriches(
                    self.message,
                    peer,
                    self.message.chat_id(),
                    self.message.date,
                    self.archived(),
                    false,
                    action,
                )
                &&& next.stage == if sending_user(self.message) is Some {
                    PersistStage::AwaitContact
                } else {
                    PersistStage::AwaitChatWrite
                }
            },
            None => match sending_user(self.message) {
                Some(user) => {
                    &&& next.stage is AwaitContact
                    &&& action matches PersistAction::WriteContact { contact }
                    &&& is_contact_of(contact, user)
                },
                None => {
                    &&& next.stage is Finished
                    &&& self.warns_of_raw_peer(action)
                },
            },
        }
    }

    /// The update is stored, with a warning that its chat was known by its identity alone.
    pub open spec fn warns_of_raw_peer(self, action: PersistAction) -> bool {
        &&& action matches PersistAction::Finish { warning }
        &&& text_of(warning) == Some(raw_peer_text(self.message.id as int, self.message.chat_id()))
    }

    /// The run awaits the write of the message's record.
    pub open spec fn begins_write(self, action: PersistAction) -> bool {
        &&& self.stage is AwaitWrite
        &&& action matches PersistAction::WriteMessage { params, chat_kind }
        &&& self.is_record(params)
        &&& chat_kind@ == self.chat_kind()
    }

    /// How an event moves a run on, and what it calls for.
    pub open spec fn moves(
        self,
        args: DaemonArgs,
        ignore_set: Set<i64>,
        event: PersistEvent,
        next: PersistRun,
        action: PersistAction,
    ) -> bool {
        match (self.stage, event) {
            (PersistStage::AwaitStore, PersistEvent::StoreOpened) => {
                &&& self.same_update(next)
                &&& next.stage is AwaitChat
                &&& action matches PersistAction::FindChat { chat_id }
                &&& chat_id == self.message.chat_id()
            },
            (PersistStage::AwaitChat, PersistEvent::ChatFound { chat, now }) => {
                &&& next == (PersistRun { stage: next.stage, ..self.found(chat, now) })
                &&& if next.ignored(args, ignore_set) {
                    &&& next.stage is Finished
                    &&& action == (PersistAction::Finish { warning: None })
                } else if args.download_media && self.message.has_media {
                    &&& next.stage is AwaitMedia
                    &&& action matches PersistAction::DownloadMedia { message_id, chat_id }
                    &&& message_id == self.message.id
                    &&& chat_id == self.message.chat_id()
                } else {
                    next.begins_write(action)
                }
            },
            (PersistStage::AwaitMedia, PersistEvent::MediaDownloaded { path }) => {
                &&& next == (PersistRun { stage: next.stage, media_path: path, ..self })
                &&& next.begins_write(action)
            },
            (PersistStage::AwaitWrite, PersistEvent::MessageWritten) => if args.stream {
                &&& self.same_update(next)
                &&& next.stage is AwaitLine
                &&& action matches PersistAction::WriteLine { line }
                &&& line@ == self.line()
                &&& is_one_line(line@)
            } else {
                self.turns_to_metadata(next, action)
            },
            (PersistStage::AwaitWrite, PersistEvent::Failed { error }) => {
                &&& self.same_update(next)
                &&& next.stage is Finished
                &&& action matches PersistAction::Fail { context }
                &&& text_of(context) == Some(
                    failure_text(self.is_edit, self.message.id as int, self.message.chat_id()),
                )
            },
            (PersistStage::AwaitLine, PersistEvent::LineWritten) => self.turns_to_metadata(
                next,
                action,
            ),
            (PersistStage::AwaitContact, PersistEvent::ContactWritten) => {
                &&& self.same_update(next)
                &&& match self.message.peer {
                    Some(peer) => {
                        &&& next.stage is AwaitChatWrite
                        &&& enriches(
                            self.message,
                            peer,
                            self.message.chat_id(),
                            self.message.date,
                            self.archived(),
                            true,
                            action,
                        )
                    },
                    None => {
                        &&& next.stage is Finished
                        &&& self.warns_of_raw_peer(action)
                    },
                }
            },
            (PersistStage::AwaitChatWrite, PersistEvent::ChatWritten) => {
                &&& self.same_update(next)
                &&& next.stage is Finished
                &&& action == (PersistAction::Finish { warning: None })
            },
            (PersistStage::AwaitStore | PersistStage::AwaitChat, _) => {
                &&& self.same_update(next)
                &&& next.stage is Finished
                &&& action == (PersistAction::Fail { context: None })
            },
            (_, PersistEvent::Failed { error }) => {
                &&& self.same_update(next)
                &&& next.stage is Finished
                &&& action matches PersistAction::Finish { warning }
                &&& text_of(warning) == Some(
                    enrichment_text(self.message.id as int, self.message.chat_id(), error@),
                )
            },
            _ => false,
        }
    }

    /// The counter of stored messages after an event: one more when the message was written.
    pub open spec fn stored_after(self, event: PersistEvent, messages_stored: u64) -> u64 {
        if self.stage is AwaitWrite && event is MessageWritten {
            counted(messages_stored)
        } else {
            messages_stored
        }
    }

    /// A run for an update, which awaits the archive; none where the update does not name its
    /// chat.
    pub fn start(message: MessageUpdate, is_edit: bool) -> (res: Option<PersistRun>)
        ensures
            match res {
                Some(run) => {
                    &&& message.located()
                    &&& run.wf()
                    &&& run == (PersistRun {
                        stage: PersistStage::AwaitStore,
                        message,
                        is_edit,
                        existing: None,
                        edit_ts: None,
                        media_path: None,
                    })
                },
                None => !message.located(),
            },
    {
        if !message.check_located() {
            return None;
        }
        Some(
            PersistRun {
                stage: PersistStage::AwaitStore,
                message,
                is_edit,
                existing: None,
                edit_ts: None,
                media_path: None,
            },
        )
    }

    /// Whether the run can go on from a lookup that came out as given.
    pub fn check_found(
        &self,
        args: &DaemonArgs,
        ignore_set: &HashSet<i64>,
        chat: &Option<StoredChat>,
        now: Timestamp,
    ) -> (res: bool)
        requires
            self.wf(),
            self.stage is AwaitChat,
        ensures
            res == self.admits(
                *args,
                ignore_set@,
                (PersistEvent::ChatFound { chat: *chat, now }),
            ),
    {
        is_skipped(args, ignore_set, &self.message, chat) || (self.message.check() && (
        !self.is_edit || now.check()))
    }

    fn is_archived(&self) -> (res: bool)
        ensures
            res == self.archived(),
    {
        match &self.existing {
            Some(chat) => chat.archived,
            None => false,
        }
    }

    fn media_text(&self) -> (res: Option<String>)
        ensures
            text_of(res) == self.media_type(),
    {
        if self.message.has_media {
            Some("media".to_string())
        } else {
            None
        }
    }

    fn record(&self) -> (res: UpsertMessageParams)
        requires
            self.message.wf(),
        ensures
            self.is_record(res),
    {
        UpsertMessageParams {
            id: self.message.id as i64,
            chat_id: self.message.peer_id.bare_id(),
            sender_id: extract_sender_id(&self.message),
            ts: self.message.date,
            edit_ts: self.edit_ts,
            from_me: self.message.outgoing,
            text: self.message.text.clone(),
            media_type: self.media_text(),
            media_path: copy_text(&self.media_path),
            reply_to_id: widen(self.message.reply_to),
            topic_id: extract_topic_id_from_raw(&self.message.raw),
        }
    }

    fn stream_text(&self) -> (res: String)
        requires
            self.message.wf(),
            self.edit_ts matches Some(at) ==> at.valid(),
        ensures
            res@ == self.line(),
            is_one_line(res@),
    {
        let event = MessageEvent {
            is_edit: self.is_edit,
            chat_id: self.message.peer_id.bare_id(),
            id: self.message.id,
            sender_id: extract_sender_id(&self.message),
            from_me: self.message.outgoing,
            ts: self.message.date,
            edit_ts: self.edit_ts,
            text: self.message.text.clone(),
            topic_id: extract_topic_id_from_raw(&self.message.raw),
            media_type: self.media_text(),
        };
        message_line(&event)
    }

    /// "Message {id} in chat {chat}", and what follows.
    fn said(&self, rest: &str) -> (res: String)
        requires
            self.message.located(),
        ensures
            res@ == "Message "@ + signed_decimal(self.message.id as int) + " in chat "@
                + signed_decimal(self.message.chat_id()) + rest@,
    {
        let mut text = "Message ".to_string();
        append_signed(&mut text, self.message.id as i64);
        text.append(" in chat ");
        append_signed(&mut text, self.message.peer_id.bare_id());
        text.append(rest);
        text
    }

    fn failure(&self) -> (res: String)
        requires
            self.message.located(),
        ensures
            res@ == failure_text(self.is_edit, self.message.id as int, self.message.chat_id()),
    {
        let mut text = "Failed to durably persist ".to_string();
        if self.is_edit {
            text.append("edited");
        } else {
            text.append("new");
        }
        text.append(" message ");
        append_signed(&mut text, self.message.id as i64);
        text.append(" in chat ");
        append_signed(&mut text, self.message.peer_id.bare_id());
        text
    }

    fn begin_write(&mut self) -> (res: PersistAction)
        requires
            old(self).message.wf(),
            old(self).edit_ts matches Some(at) ==> at.valid(),
            old(self).edit_ts is Some <==> old(self).is_edit,
        ensures
            final(self).wf(),
            *final(self) == (PersistRun { stage: PersistStage::AwaitWrite, ..*old(self) }),
            final(self).begins_write(res),
    {
        self.stage = PersistStage::AwaitWrite;
        PersistAction::WriteMessage {
            params: self.record(),
            chat_kind: kind_text(&self.message, &self.existing),
        }
    }

    fn raw_peer_warning(&self) -> (res: PersistAction)
        requires
            self.message.located(),
        ensures
            self.warns_of_raw_peer(res),
    {
        PersistAction::Finish {
            warning: Some(self.said(" persisted using raw peer ID; peer enrichment queued")),
        }
    }

    fn turn_to_metadata(&mut self) -> (res: PersistAction)
        requires
            old(self).wf(),
            old(self).in_hand(),
        ensures
            final(self).wf(),
            old(self).turns_to_metadata(*final(self), res),
    {
        let chat_id = self.message.peer_id.bare_id();
        let action = match &self.message.peer {
            Some(peer) => enrich_message_peer(
                &self.message,
                peer,
                chat_id,
                self.message.date,
                self.is_archived(),
                false,
            ),
            None => match &self.message.sender {
                Some(Peer::User(user)) => PersistAction::WriteContact { contact: contact_of(user) },
                _ => self.raw_peer_warning(),
            },
        };
        self.stage = match &action {
            PersistAction::WriteContact { .. } => PersistStage::AwaitContact,
            PersistAction::WriteChat { .. } => PersistStage::AwaitChatWrite,
            _ => PersistStage::Finished,
        };
        action
    }
}

/// Stores a message update: moves the run on by what happened outside, and returns what is to
/// be done next.
pub fn persist_message_update(
    args: &DaemonArgs,
    ignore_set: &HashSet<i64>,
    run: &mut PersistRun,
    event: PersistEvent,
    messages_stored: &mut u64,
) -> (res: PersistAction)
    requires
        old(run).wf(),
        old(run).admits(*args, ignore_set@, event),
    ensures
        final(run).wf(),
        old(run).moves(*args, ignore_set@, event, *final(run), res),
        *final(messages_stored) == old(run).stored_after(event, *old(messages_stored)),
{
    match (run.stage, event) {
        (PersistStage::AwaitStore, PersistEvent::StoreOpened) => {
            run.stage = PersistStage::AwaitChat;
            PersistAction::FindChat { chat_id: run.message.peer_id.bare_id() }
        },
        (PersistStage::AwaitChat, PersistEvent::ChatFound { chat, now }) => {
            let skips = is_skipped(args, ignore_set, &run.message, &chat);
            run.existing = chat;
            run.edit_ts = if run.is_edit {
                Some(now)
            } else {
                None
            };
            if skips {
                run.stage = PersistStage::Finished;
                return PersistAction::Finish { warning: None };
            }
            if args.download_media && run.message.has_media {
                run.stage = PersistStage::AwaitMedia;
                return PersistAction::DownloadMedia {
                    message_id: run.message.id,
                    chat_id: run.message.peer_id.bare_id(),
                };
            }
            run.begin_write()
        },
        (PersistStage::AwaitMedia, PersistEvent::MediaDownloaded { path }) => {
            run.media_path = path;
            run.begin_write()
        },
        (PersistStage::AwaitWrite, PersistEvent::MessageWritten) => {
            *messages_stored = count(*messages_stored);
            if args.stream {
                let line = run.stream_text();
                run.stage = PersistStage::AwaitLine;
                PersistAction::WriteLine { line }
            } else {
                run.turn_to_metadata()
            }
        },
        (PersistStage::AwaitWrite, PersistEvent::Failed { error }) => {
            run.stage = PersistStage::Finished;
            PersistAction::Fail { context: Some(run.failure()) }
        },
        (PersistStage::AwaitLine, PersistEvent::LineWritten) => run.turn_to_metadata(),
        (PersistStage::AwaitContact, PersistEvent::ContactWritten) => {
            let action = match &run.message.peer {
                Some(peer) => enrich_message_peer(
                    &run.message,
                    peer,
                    run.message.peer_id.bare_id(),
                    run.message.date,
                    run.is_archived(),
                    true,
                ),
                None => run.raw_peer_warning(),
            };
            run.stage = match &run.message.peer {
                Some(_) => PersistStage::AwaitChatWrite,
                None => PersistStage::Finished,
            };
            action
        },
        (PersistStage::AwaitChatWrite, PersistEvent::ChatWritten) => {
            run.stage = PersistStage::Finished;
            PersistAction::Finish { warning: None }
        },
        (PersistStage::AwaitStore | PersistStage::AwaitChat, _) => {
            run.stage = PersistStage::Finished;
            PersistAction::Fail { context: None }
        },
        (_, event) => {
            run.stage = PersistStage::Finished;
            let warning = match event {
                PersistEvent::Failed { error } => {
                    let mut text = run.said(" persisted; peer enrichment queued after error: ");
                    text.append(error.as_str());
                    Some(text)
                },
                _ => None,
            };
            PersistAction::Finish { warning }
        },
    }
}

} // verus!
