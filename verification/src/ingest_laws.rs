//! What holds of every update that is stored.

use crate::args::DaemonArgs;
use crate::ingest::{PersistAction, PersistEvent, PersistRun, PersistStage};
use crate::message::MessageUpdate;
use crate::peer::{Peer, User};
use crate::store::{ChatRecord, ContactRecord, StoredChat, UpsertMessageParams};
use crate::time::Timestamp;
use vstd::prelude::*;

#[allow(unused_imports)]
use crate::ingest::{counted, is_contact_of, message_chat_kind, sending_user, skipped};
#[allow(unused_imports)]
use crate::json::object_text;
#[allow(unused_imports)]
use crate::message::raw_topic;
#[allow(unused_imports)]
use crate::peer::{is_forum, peer_access_hash, peer_chat_kind, peer_chat_name, peer_username};
#[allow(unused_imports)]
use crate::peer_id::dialog_id;
#[allow(unused_imports)]
use crate::peer_laws::{identities_tell_the_kind, only_broadcasts_are_channels};
#[allow(unused_imports)]
use crate::stream::message_fields;
#[allow(unused_imports)]
use crate::text::{signed_decimal, text_of};

verus! {

/// The storing of one update, from its start: the states it went through, what happened
/// outside, what each event called for, and the counter of stored messages beside them.
pub struct Storing {
    pub args: DaemonArgs,
    pub ignore_set: Set<i64>,
    pub states: Seq<PersistRun>,
    pub events: Seq<PersistEvent>,
    pub actions: Seq<PersistAction>,
    pub counts: Seq<u64>,
}

impl Storing {
    /// The event at the given position was awaited, and led where it is said to have led.
    pub open spec fn step(self, k: int) -> bool {
        &&& self.states[k].admits(self.args, self.ignore_set, self.events[k])
        &&& self.states[k].moves(
            self.args,
            self.ignore_set,
            self.events[k],
            self.states[k + 1],
            self.actions[k],
        )
        &&& self.counts[k + 1] == self.states[k].stored_after(self.events[k], self.counts[k])
    }

    pub open spec fn wf(self) -> bool {
        &&& self.states.len() == self.events.len() + 1
        &&& self.actions.len() == self.events.len()
        &&& self.counts.len() == self.states.len()
        &&& self.states[0].stage is AwaitStore
        &&& forall|k: int| 0 <= k < self.events.len() ==> #[trigger] self.step(k)
    }

    /// How many of the first events tell that the message was written.
    pub open spec fn writes(self, n: int) -> nat
        decreases n,
    {
        if n <= 0 {
            0
        } else if self.events[n - 1] is MessageWritten {
            self.writes(n - 1) + 1
        } else {
            self.writes(n - 1)
        }
    }
}

/// How far a stage is from the start.
pub open spec fn rank(stage: PersistStage) -> int {
    match stage {
        PersistStage::AwaitStore => 0,
        PersistStage::AwaitChat => 1,
        PersistStage::AwaitMedia => 2,
        PersistStage::AwaitWrite => 3,
        PersistStage::AwaitLine => 4,
        PersistStage::AwaitContact => 5,
        PersistStage::AwaitChatWrite => 6,
        PersistStage::Finished => 7,
    }
}

proof fn lemma_progress(storing: Storing, n: int)
    requires
        storing.wf(),
        0 <= n <= storing.events.len(),
    ensures
        n <= rank(storing.states[n].stage),
        rank(storing.states[n].stage) <= 3 ==> storing.writes(n) == 0,
        4 <= rank(storing.states[n].stage) <= 6 ==> storing.writes(n) == 1,
        storing.writes(n) <= 1,
        storing.counts[n] == (if storing.writes(n) == 1 {
            counted(storing.counts[0])
        } else {
            storing.counts[0]
        }),
        storing.states[n].message == storing.states[0].message,
        storing.states[n].is_edit == storing.states[0].is_edit,
    decreases n,
{
    if n > 0 {
        lemma_progress(storing, n - 1);
        assert(storing.step(n - 1));
    }
}

/// Nothing is said of a message, and no metadata is stored, before the message itself is
/// stored: each line and each record of a contact or chat comes after a write that succeeded.
pub proof fn nothing_is_told_before_the_write(storing: Storing, k: int)
    requires
        storing.wf(),
        0 <= k < storing.events.len(),
        storing.actions[k] is WriteLine || storing.actions[k] is WriteContact
            || storing.actions[k] is WriteChat,
    ensures
        storing.writes(k + 1) == 1,
{
    lemma_progress(storing, k);
    assert(storing.step(k));
}

/// Failure means that the message was not stored: once it is, no error of what comes after it
/// is reported as a failure, it is at most warned of.
pub proof fn a_stored_message_is_never_a_failure(storing: Storing, k: int)
    requires
        storing.wf(),
        0 <= k < storing.events.len(),
    ensures
        storing.actions[k] is Fail ==> storing.writes(k + 1) == 0,
        storing.writes(k) > 0 && storing.events[k] is Failed ==> storing.actions[k] is Finish,
{
    lemma_progress(storing, k);
    assert(storing.step(k));
}

/// An update is written once at most, and counted exactly when it was.
pub proof fn a_message_is_counted_once(storing: Storing, n: int)
    requires
        storing.wf(),
        0 <= n <= storing.events.len(),
    ensures
        storing.writes(n) <= 1,
        storing.counts[n] == (if storing.writes(n) == 1 {
            counted(storing.counts[0])
        } else {
            storing.counts[0]
        }),
{
    lemma_progress(storing, n);
}

/// Of a chat that is to be ignored nothing is written at all.
pub proof fn ignored_chats_are_left_alone(storing: Storing, k: int)
    requires
        storing.wf(),
        0 <= k < storing.events.len(),
        storing.ignore_set.contains(storing.states[0].message.chat_id() as i64),
    ensures
        storing.actions[k] is FindChat || storing.actions[k] is Fail || storing.actions[k]
            == (PersistAction::Finish { warning: None }),
        storing.writes(k + 1) == 0,
        storing.counts[k + 1] == storing.counts[0],
    decreases k,
{
    lemma_progress(storing, k);
    lemma_progress(storing, k + 1);
    assert(storing.step(k));
    if k > 0 {
        ignored_chats_are_left_alone(storing, k - 1);
        assert(storing.step(k - 1));
    }
}

/// Where channels are to be ignored, nothing is written of a chat that turns out to be one when
/// it is looked up, which is the second thing that happens.
pub proof fn ignored_channels_are_left_alone(storing: Storing, k: int)
    requires
        storing.wf(),
        storing.args.ignore_channels,
        storing.events.len() >= 2,
        storing.states[2].chat_kind() == "channel"@,
        0 <= k < storing.events.len(),
    ensures
        storing.actions[k] is FindChat || storing.actions[k] is Fail || storing.actions[k]
            == (PersistAction::Finish { warning: None }),
        storing.writes(k + 1) == 0,
        storing.counts[k + 1] == storing.counts[0],
{
    assert(storing.step(0));
    assert(storing.step(1));
    if storing.events.len() > 2 {
        assert(storing.step(2));
    }
    lemma_progress(storing, k);
    lemma_progress(storing, k + 1);
}

/// The line tells what was stored: its fields are those of the record that was handed to the
/// archive.
pub proof fn the_line_tells_what_was_stored(run: PersistRun, params: UpsertMessageParams)
    requires
        run.is_record(params),
    ensures
        run.line() == object_text(
            message_fields(
                run.is_edit,
                params.chat_id,
                params.id as i32,
                params.sender_id,
                params.from_me,
                params.ts,
                params.edit_ts,
                params.text@,
                params.topic_id,
                text_of(params.media_type),
            ),
        ),
{
}

/// The sender of a stored message becomes a contact: where the sender is known as a user, the
/// storing of a message that was written comes to no end without the record of the contact,
/// whether the chat is known or not.
pub proof fn senders_become_contacts(storing: Storing) -> (j: int)
    requires
        storing.wf(),
        storing.states.last().stage is Finished,
        storing.writes(storing.events.len() as int) == 1,
    ensures
        sending_user(storing.states[0].message) matches Some(user) ==> 0 <= j
            < storing.actions.len() && (storing.actions[j] matches PersistAction::WriteContact {
            contact,
        } && is_contact_of(contact, user)),
{
    lemma_contact(storing, storing.events.len() as int)
}

/// A written message whose sender is a user has its contact handed to the archive before it is
/// past that stage.
proof fn lemma_contact(storing: Storing, n: int) -> (j: int)
    requires
        storing.wf(),
        0 <= n <= storing.events.len(),
        storing.writes(n) == 1,
        rank(storing.states[n].stage) >= 5,
    ensures
        sending_user(storing.states[0].message) matches Some(user) ==> 0 <= j < n && (
        storing.actions[j] matches PersistAction::WriteContact { contact } && is_contact_of(
            contact,
            user,
        )),
    decreases n,
{
    lemma_progress(storing, n);
    lemma_progress(storing, n - 1);
    assert(storing.step(n - 1));
    if rank(storing.states[n - 1].stage) >= 5 {
        lemma_contact(storing, n - 1)
    } else {
        n - 1
    }
}

/// Media is downloaded exactly where it is asked for: before a message is written, its media was
/// called for if and only if the message has some and the daemon downloads, and the record tells
/// where it went.
pub proof fn media_is_downloaded_where_asked(storing: Storing, k: int)
    requires
        storing.wf(),
        storing.states[0].wf(),
        0 < k < storing.events.len(),
        storing.actions[k] is WriteMessage,
    ensures
        storing.args.download_media && storing.states[0].message.has_media
            <==> storing.actions[k - 1] is DownloadMedia,
        match (storing.actions[k - 1], storing.events[k], storing.actions[k]) {
            (
                PersistAction::DownloadMedia { message_id, chat_id },
                PersistEvent::MediaDownloaded { path },
                PersistAction::WriteMessage { params, .. },
            ) => {
                &&& message_id == storing.states[0].message.id
                &&& chat_id == storing.states[0].message.chat_id()
                &&& text_of(params.media_path) == text_of(path)
            },
            (_, _, PersistAction::WriteMessage { params, .. }) => params.media_path is None,
            _ => false,
        },
{
    lemma_progress(storing, k);
    lemma_progress(storing, k - 1);
    assert(storing.step(k));
    assert(storing.step(k - 1));
    if k == 2 {
        assert(storing.step(0));
    }
}

/// The storing of an update ends: it takes seven events at most, and once it is finished it
/// awaits none.
pub proof fn storing_ends(storing: Storing)
    requires
        storing.wf(),
    ensures
        storing.events.len() <= 7,
        forall|event: PersistEvent|
            storing.states.last().stage is Finished ==> !storing.states.last().admits(
                storing.args,
                storing.ignore_set,
                event,
            ),
{
    lemma_progress(storing, storing.events.len() as int);
}

/// The chat is a broadcast channel: by its metadata, or else as the archive has it, or else by
/// its identity.
pub open spec fn is_broadcast(message: MessageUpdate, existing: Option<StoredChat>) -> bool {
    match message.peer {
        Some(Peer::User(_)) => false,
        Some(Peer::Group(_)) => false,
        Some(Peer::Channel(channel)) => !channel.megagroup,
        None => match existing {
            Some(chat) => chat.kind@ == "channel"@,
            None => dialog_id(message.peer_id) < -1_000_000_000_000,
        },
    }
}

/// A chat counts as a channel exactly when it is a broadcast channel: no user, no group of any
/// form and no megagroup ever does by its metadata.
pub proof fn only_broadcasts_count_as_channels(
    message: MessageUpdate,
    existing: Option<StoredChat>,
)
    requires
        message.located(),
    ensures
        message_chat_kind(message, existing) == "channel"@ <==> is_broadcast(message, existing),
{
    identities_tell_the_kind(message.dialog());
    if message.peer is Some {
        only_broadcasts_are_channels(message.peer->0);
    }
    reveal_strlit("channel");
    reveal_strlit("user");
    reveal_strlit("group");
    assert("channel"@.len() == 7 && "user"@.len() == 4 && "group"@.len() == 5);
}

/// Nothing is skipped but what is to be: a looked-up message whose chat is not among those to
/// ignore, and is no broadcast channel where those are to be ignored, goes on to its download or
/// its write, and any other ends there.
pub proof fn only_ignored_chats_are_skipped(
    storing: Storing,
    chat: Option<StoredChat>,
    now: Timestamp,
)
    requires
        storing.wf(),
        storing.states[0].message.located(),
        storing.events.len() >= 2,
        storing.events[1] == (PersistEvent::ChatFound { chat, now }),
    ensures
        ({
            let message = storing.states[0].message;
            let ignored = storing.ignore_set.contains(message.chat_id() as i64) || (
            storing.args.ignore_channels && is_broadcast(message, chat));
            &&& !ignored && storing.args.download_media && message.has_media
                ==> storing.actions[1] is DownloadMedia
            &&& !ignored && !(storing.args.download_media && message.has_media)
                ==> storing.actions[1] is WriteMessage
            &&& ignored ==> storing.actions[1] == (PersistAction::Finish { warning: None })
        }),
{
    assert(storing.step(0));
    assert(storing.step(1));
    lemma_progress(storing, 1);
    only_broadcasts_count_as_channels(storing.states[0].message, chat);
}

/// The lookup is the second thing that happens, and is of the message's own chat.
pub proof fn the_chat_is_looked_up_first(
    storing: Storing,
    k: int,
    chat: Option<StoredChat>,
    now: Timestamp,
)
    requires
        storing.wf(),
        0 <= k < storing.events.len(),
    ensures
        storing.events[k] == (PersistEvent::ChatFound { chat, now }) ==> k == 1,
        storing.events[0] is StoreOpened ==> storing.actions[0] == (PersistAction::FindChat {
            chat_id: storing.states[0].message.chat_id() as i64,
        }),
        k >= 1 ==> storing.events[0] is StoreOpened,
{
    lemma_progress(storing, k);
    assert(storing.step(k));
    assert(storing.step(0));
    if k >= 1 {
        lemma_progress(storing, k - 1);
        assert(storing.step(k - 1));
        lemma_progress(storing, 1);
        if k >= 2 {
            lemma_progress(storing, 2);
            assert(storing.step(1));
        }
    }
}

/// A lookup was answered before anything is written, downloaded or told.
proof fn lemma_looked_up(storing: Storing, n: int)
    requires
        storing.wf(),
        0 <= n <= storing.events.len(),
        2 <= rank(storing.states[n].stage) <= 6,
    ensures
        n >= 2,
        storing.events[0] is StoreOpened,
        storing.events[1] matches PersistEvent::ChatFound { chat, now } && storing.states[n].existing
            == chat && storing.states[n].edit_ts == (if storing.states[0].is_edit {
            Some(now)
        } else {
            None
        }),
        storing.states[0].message.wf(),
    decreases n,
{
    lemma_progress(storing, n);
    assert(n > 0);
    lemma_progress(storing, n - 1);
    assert(storing.step(n - 1));
    if rank(storing.states[n - 1].stage) >= 2 {
        lemma_looked_up(storing, n - 1);
    } else {
        assert(storing.step(0));
        assert(n == 2) by {
            if n > 2 {
                lemma_progress(storing, 1);
                assert(n - 1 <= rank(storing.states[n - 1].stage));
            }
        }
        lemma_progress(storing, 1);
    }
}

/// The record is that of the message, whether it is new or edited and whenever it is looked up:
/// the time of the record is when the message was sent, and only the time of the edit, which an
/// edited message alone has, is that of the lookup.
pub proof fn the_record_is_the_message(
    storing: Storing,
    k: int,
    params: UpsertMessageParams,
    chat_kind: String,
)
    requires
        storing.wf(),
        0 <= k < storing.events.len(),
        storing.actions[k] == (PersistAction::WriteMessage { params, chat_kind }),
    ensures
        ({
            let message = storing.states[0].message;
            &&& params.id == message.id
            &&& params.chat_id == message.chat_id()
            &&& params.sender_id == message.sender_id()
            &&& params.ts == message.date
            &&& params.from_me == message.outgoing
            &&& params.text@ == message.text@
            &&& message.reply_to is None ==> params.reply_to_id is None
            &&& message.reply_to matches Some(id) ==> (params.reply_to_id matches Some(n) && n
                == id)
            &&& params.topic_id == raw_topic(message.raw)
            &&& message.has_media ==> (params.media_type matches Some(kind) && kind@ == "media"@)
            &&& !message.has_media ==> params.media_type is None
            &&& !storing.states[0].is_edit ==> params.edit_ts is None
            &&& storing.states[0].is_edit ==> (storing.events[1] matches PersistEvent::ChatFound {
                now,
                ..
            } && params.edit_ts == Some(now))
        }),
{
    lemma_progress(storing, k);
    assert(storing.step(k));
    lemma_progress(storing, k + 1);
    lemma_looked_up(storing, k + 1);
}

/// The record names the kind of the chat: by the metadata, or else as the archive has it, or
/// else by the identity.
pub proof fn the_record_names_the_kind(
    storing: Storing,
    k: int,
    params: UpsertMessageParams,
    chat_kind: String,
)
    requires
        storing.wf(),
        0 <= k < storing.events.len(),
        storing.actions[k] == (PersistAction::WriteMessage { params, chat_kind }),
    ensures
        storing.events[1] matches PersistEvent::ChatFound { chat, .. } && ({
            let message = storing.states[0].message;
            let dialog = dialog_id(message.peer_id);
            match message.peer {
                Some(Peer::User(_)) => chat_kind@ == "user"@,
                Some(Peer::Group(_)) => chat_kind@ == "group"@,
                Some(Peer::Channel(channel)) => chat_kind@ == if channel.megagroup {
                    "group"@
                } else {
                    "channel"@
                },
                None => match chat {
                    Some(known) => chat_kind@ == known.kind@,
                    None => {
                        &&& dialog > 0 ==> chat_kind@ == "user"@
                        &&& -1_000_000_000_000 < dialog < 0 ==> chat_kind@ == "group"@
                        &&& dialog < -1_000_000_000_000 ==> chat_kind@ == "channel"@
                    },
                },
            }
        }),
{
    lemma_progress(storing, k);
    assert(storing.step(k));
    lemma_progress(storing, k + 1);
    lemma_looked_up(storing, k + 1);
    identities_tell_the_kind(storing.states[0].message.dialog());
}

/// An edit and a new message with the same content are stored alike: their records differ in the
/// time of the edit alone, whatever the times of the two lookups.
pub proof fn edits_are_stored_like_new_messages(
    new: Storing,
    edit: Storing,
    j: int,
    k: int,
    of_new: UpsertMessageParams,
    of_edit: UpsertMessageParams,
    new_kind: String,
    edit_kind: String,
)
    requires
        new.wf(),
        edit.wf(),
        new.states[0].message == edit.states[0].message,
        0 <= j < new.events.len(),
        0 <= k < edit.events.len(),
        new.actions[j] == (PersistAction::WriteMessage { params: of_new, chat_kind: new_kind }),
        edit.actions[k] == (PersistAction::WriteMessage { params: of_edit, chat_kind: edit_kind }),
    ensures
        of_new.id == of_edit.id,
        of_new.chat_id == of_edit.chat_id,
        of_new.sender_id == of_edit.sender_id,
        of_new.ts == of_edit.ts,
        of_new.from_me == of_edit.from_me,
        of_new.text@ == of_edit.text@,
        text_of(of_new.media_type) == text_of(of_edit.media_type),
        of_new.reply_to_id == of_edit.reply_to_id,
        of_new.topic_id == of_edit.topic_id,
        of_new.edit_ts is Some <==> new.states[0].is_edit,
        of_edit.edit_ts is Some <==> edit.states[0].is_edit,
{
    the_record_is_the_message(new, j, of_new, new_kind);
    the_record_is_the_message(edit, k, of_edit, edit_kind);
}

/// The line tells the message's own time and content, whether it is new or edited, and the time
/// of the lookup only as the time of an edit.
pub proof fn the_line_tells_the_message(storing: Storing, k: int, line: String)
    requires
        storing.wf(),
        0 <= k < storing.events.len(),
        storing.actions[k] == (PersistAction::WriteLine { line }),
    ensures
        storing.events[1] matches PersistEvent::ChatFound { now, .. } && ({
            let message = storing.states[0].message;
            let is_edit = storing.states[0].is_edit;
            line@ == object_text(
                message_fields(
                    is_edit,
                    message.chat_id() as i64,
                    message.id,
                    message.sender_id() as i64,
                    message.outgoing,
                    message.date,
                    if is_edit {
                        Some(now)
                    } else {
                        None
                    },
                    message.text@,
                    raw_topic(message.raw),
                    if message.has_media {
                        Some("media"@)
                    } else {
                        None
                    },
                ),
            )
        }),
{
    lemma_progress(storing, k);
    assert(storing.step(k));
    lemma_progress(storing, k + 1);
    lemma_looked_up(storing, k + 1);
}

/// Where there is a stream every written message is told of, at once, and where there is none no
/// message is.
pub proof fn every_write_is_told(storing: Storing, k: int)
    requires
        storing.wf(),
        0 <= k < storing.events.len(),
    ensures
        storing.actions[k] is WriteLine <==> storing.events[k] is MessageWritten
            && storing.args.stream,
{
    lemma_progress(storing, k);
    assert(storing.step(k));
}

/// The contact is the user who sent the message, with every name that the user gives and an
/// empty one for each that the user does not.
pub proof fn the_contact_is_the_sender(storing: Storing, k: int, contact: ContactRecord)
    requires
        storing.wf(),
        0 <= k < storing.events.len(),
        storing.actions[k] == (PersistAction::WriteContact { contact }),
    ensures
        storing.states[0].message.sender matches Some(Peer::User(user)) && ({
            &&& contact.user_id == user.id
            &&& contact.username matches Some(name) ==> (user.profile matches Some(profile)
                && profile.username matches Some(own) && own@ == name@)
            &&& user.profile is None ==> contact.username is None && contact.first_name@.len() == 0
                && contact.last_name@.len() == 0 && contact.phone@.len() == 0
            &&& user.profile matches Some(profile) ==> {
                &&& profile.username matches Some(own) ==> (contact.username matches Some(name)
                    && own@ == name@)
                &&& contact.first_name@ == (match profile.first_name {
                    Some(own) => own@,
                    None => seq![],
                })
                &&& contact.last_name@ == (match profile.last_name {
                    Some(own) => own@,
                    None => seq![],
                })
                &&& contact.phone@ == (match profile.phone {
                    Some(own) => own@,
                    None => seq![],
                })
            }
        }),
{
    reveal_strlit("");
    assert(""@ =~= seq![]);
    lemma_progress(storing, k);
    assert(storing.step(k));
}

/// The record of the chat is that of the message's own peer, last active when the message was
/// sent, and archived exactly when the archive had it so.
pub proof fn the_chat_record_is_the_chat(storing: Storing, k: int, chat: ChatRecord)
    requires
        storing.wf(),
        0 <= k < storing.events.len(),
        storing.actions[k] == (PersistAction::WriteChat { chat }),
    ensures
        storing.states[0].message.peer matches Some(peer) && ({
            &&& chat.chat_id == storing.states[0].message.chat_id()
            &&& chat.kind@ == peer_chat_kind(peer)
            &&& chat.name@ == peer_chat_name(peer)
            &&& text_of(chat.username) == peer_username(peer)
            &&& chat.is_forum == is_forum(peer)
            &&& chat.access_hash == peer_access_hash(peer)
            &&& chat.last_message_ts == Some(storing.states[0].message.date)
        }),
        storing.events[1] matches PersistEvent::ChatFound { chat: known, .. } && chat.archived
            == (known matches Some(stored) && stored.archived),
{
    lemma_progress(storing, k);
    assert(storing.step(k));
    lemma_progress(storing, k + 1);
    lemma_looked_up(storing, k + 1);
}

impl Storing {
    /// How many of the first events called for the write of the message.
    pub open spec fn records(self, n: int) -> nat
        decreases n,
    {
        if n <= 0 {
            0
        } else if self.actions[n - 1] is WriteMessage {
            self.records(n - 1) + 1
        } else {
            self.records(n - 1)
        }
    }

    /// The chat, if it was looked up, turned out to be one to ignore.
    pub open spec fn is_ignored(self) -> bool {
        ||| self.ignore_set.contains(self.states[0].message.chat_id() as i64)
        ||| self.args.ignore_channels && self.events.len() >= 2 && (
        self.events[1] matches PersistEvent::ChatFound { chat, .. } && is_broadcast(
            self.states[0].message,
            chat,
        ))
    }
}

proof fn lemma_records(storing: Storing, n: int)
    requires
        storing.wf(),
        storing.states[0].message.located(),
        !storing.is_ignored(),
        0 <= n <= storing.events.len(),
    ensures
        rank(storing.states[n].stage) <= 2 ==> storing.records(n) == 0,
        3 <= rank(storing.states[n].stage) <= 6 ==> storing.records(n) == 1,
        storing.states[n].stage is Finished ==> n > 0 && (if storing.actions[n - 1] is Fail {
            storing.records(n) <= 1 && storing.writes(n) == 0
        } else {
            storing.records(n) == 1 && storing.writes(n) == 1
        }),
    decreases n,
{
    if n > 0 {
        lemma_records(storing, n - 1);
        assert(storing.step(n - 1));
        lemma_progress(storing, n - 1);
        lemma_progress(storing, n);
        if storing.events[n - 1] is ChatFound {
            the_chat_is_looked_up_first(
                storing,
                n - 1,
                storing.events[n - 1]->chat,
                storing.events[n - 1]->now,
            );
            only_ignored_chats_are_skipped(
                storing,
                storing.events[n - 1]->chat,
                storing.events[n - 1]->now,
            );
        }
    }
}

/// Every message that is not to be ignored is stored: if the storing of one comes to its end
/// without a failure, the message was handed to the archive exactly once, and written there.
pub proof fn every_other_message_is_stored(storing: Storing)
    requires
        storing.wf(),
        storing.states[0].message.located(),
        storing.states.last().stage is Finished,
        !(storing.actions.last() is Fail),
        !storing.is_ignored(),
    ensures
        storing.records(storing.events.len() as int) == 1,
        storing.writes(storing.events.len() as int) == 1,
{
    lemma_records(storing, storing.events.len() as int);
}

/// A storing ends in failure only where the archive failed, before the message was in it.
pub proof fn only_the_archive_fails(storing: Storing, k: int)
    requires
        storing.wf(),
        0 <= k < storing.events.len(),
    ensures
        storing.actions[k] is Fail <==> storing.events[k] is Failed && rank(
            storing.states[k].stage,
        ) <= 3,
        storing.actions[k] matches PersistAction::Fail { context } ==> (context is Some
            <==> storing.states[k].stage is AwaitWrite),
{
    lemma_progress(storing, k);
    assert(storing.step(k));
}

/// Where nothing fails, the chat of a written message is stored if it is known, and the storing
/// ends without a warning exactly then.
pub proof fn known_chats_are_stored(storing: Storing)
    requires
        storing.wf(),
        storing.states.last().stage is Finished,
        storing.writes(storing.events.len() as int) == 1,
        !(storing.events.last() is Failed),
    ensures
        storing.states[0].message.peer is Some <==> storing.actions.last() == (
        PersistAction::Finish { warning: None }),
        storing.states[0].message.peer is Some ==> storing.events.len() >= 2
            && storing.actions[storing.events.len() - 2] is WriteChat,
{
    let n = storing.events.len() as int;
    lemma_progress(storing, n);
    assert(n > 0);
    lemma_progress(storing, n - 1);
    assert(storing.step(n - 1));
    if n > 1 {
        lemma_progress(storing, n - 2);
        assert(storing.step(n - 2));
    }
}

/// What is said of a message names it and its chat, whatever failed.
pub proof fn complaints_name_the_message(storing: Storing, k: int, text: String)
    requires
        storing.wf(),
        0 <= k < storing.events.len(),
    ensures
        ({
            let message = storing.states[0].message;
            let named = " message "@ + signed_decimal(message.id as int) + " in chat "@
                + signed_decimal(message.chat_id());
            let begun = "Message "@ + signed_decimal(message.id as int) + " in chat "@
                + signed_decimal(message.chat_id());
            &&& storing.actions[k] == (PersistAction::Fail { context: Some(text) }) ==> text@
                == "Failed to durably persist "@ + (if storing.states[0].is_edit {
                "edited"@
            } else {
                "new"@
            }) + named
            &&& storing.actions[k] == (PersistAction::Finish { warning: Some(text) }) ==> text@
                == begun + (match storing.events[k] {
                PersistEvent::Failed { error } =>
                    " persisted; peer enrichment queued after error: "@ + error@,
                _ => " persisted using raw peer ID; peer enrichment queued"@,
            })
        }),
{
    lemma_progress(storing, k);
    assert(storing.step(k));
    let message = storing.states[0].message;
    let id = signed_decimal(message.id as int);
    let chat = signed_decimal(message.chat_id());
    if storing.actions[k] == (PersistAction::Fail { context: Some(text) }) {
        let kind = if storing.states[0].is_edit {
            "edited"@
        } else {
            "new"@
        };
        assert(text@ =~= "Failed to durably persist "@ + kind + (" message "@ + id + " in chat "@
            + chat));
    }
    if storing.actions[k] == (PersistAction::Finish { warning: Some(text) }) {
        if let PersistEvent::Failed { error } = storing.events[k] {
            assert(text@ =~= ("Message "@ + id + " in chat "@ + chat) + (
            " persisted; peer enrichment queued after error: "@ + error@));
        }
    }
}

/// A message is skipped exactly where it is to be: for its chat's identifier, or for being in a
/// broadcast channel where those are to be ignored. Nothing else of it matters.
pub proof fn only_ignored_messages_are_skipped(
    args: DaemonArgs,
    ignore_set: Set<i64>,
    message: MessageUpdate,
    existing: Option<StoredChat>,
)
    requires
        message.located(),
    ensures
        skipped(args, ignore_set, message, existing) <==> ignore_set.contains(
            message.chat_id() as i64,
        ) || (args.ignore_channels && is_broadcast(message, existing)),
{
    only_broadcasts_count_as_channels(message, existing);
}

/// A counter counts one by one, up to its limit, where it begins again.
pub proof fn counters_count_one_by_one(n: u64)
    ensures
        n < u64::MAX ==> counted(n) == n + 1,
        n == u64::MAX ==> counted(n) == 0,
{
}

/// Whoever sent a stored message, and is known as a user, becomes a contact, whether the message
/// came in or went out and whatever its chat is: no storing of a written message ends before.
pub proof fn every_known_user_becomes_a_contact(storing: Storing, user: User) -> (j: int)
    requires
        storing.wf(),
        storing.states.last().stage is Finished,
        storing.writes(storing.events.len() as int) == 1,
        storing.states[0].message.sender == Some(Peer::User(user)),
    ensures
        0 <= j < storing.actions.len(),
        storing.actions[j] matches PersistAction::WriteContact { contact } && contact.user_id
            == user.id,
{
    senders_become_contacts(storing)
}

/// What a storing asked for may be answered: the archive may open, or not; the chat may be found
/// or not, as long as a message that is not to be ignored can be stored; the media may be had or
/// not; and each write may succeed or fail, but for the line, which is only written.
pub proof fn storings_take_any_answer(
    run: PersistRun,
    args: DaemonArgs,
    ignore_set: Set<i64>,
    chat: Option<StoredChat>,
    now: Timestamp,
    path: Option<String>,
    error: String,
)
    ensures
        ({
            let failed = PersistEvent::Failed { error };
            let found = PersistEvent::ChatFound { chat, now };
            &&& run.stage is AwaitStore ==> run.admits(args, ignore_set, PersistEvent::StoreOpened)
            &&& run.stage is AwaitChat && run.message.wf() && now.valid() ==> run.admits(
                args,
                ignore_set,
                found,
            )
            &&& run.stage is AwaitChat && run.message.wf() && !run.is_edit ==> run.admits(
                args,
                ignore_set,
                found,
            )
            &&& run.stage is AwaitChat && ignore_set.contains(run.message.chat_id() as i64)
                ==> run.admits(args, ignore_set, found)
            &&& run.stage is AwaitMedia ==> run.admits(
                args,
                ignore_set,
                (PersistEvent::MediaDownloaded { path }),
            )
            &&& run.stage is AwaitWrite ==> run.admits(
                args,
                ignore_set,
                PersistEvent::MessageWritten,
            )
            &&& run.stage is AwaitLine ==> run.admits(args, ignore_set, PersistEvent::LineWritten)
            &&& run.stage is AwaitContact ==> run.admits(
                args,
                ignore_set,
                PersistEvent::ContactWritten,
            )
            &&& run.stage is AwaitChatWrite ==> run.admits(
                args,
                ignore_set,
                PersistEvent::ChatWritten,
            )
            &&& run.admits(args, ignore_set, failed) <==> !(run.stage is AwaitMedia || run.stage
                is AwaitLine || run.stage is Finished)
        }),
{
}

} // verus!
