//! What holds of what is read from peers and messages.

use crate::message::{MessageUpdate, RawMessage, RawUpdate, ReplyHeader};
use crate::peer::{Channel, Group, Peer, RawPeer, User, UserProfile};
use vstd::prelude::*;

#[allow(unused_imports)]
use crate::message::{message_topic, raw_deletion, raw_topic};
#[allow(unused_imports)]
use crate::peer::{
    is_forum, peer_access_hash, peer_chat_kind, peer_chat_name, peer_username, raw_bare_id,
};
#[allow(unused_imports)]
use crate::peer_id::{
    dialog_chat_kind, dialog_id, has_bare_id, has_kind, peer_kind, unpacked_id, PeerKind,
};
#[allow(unused_imports)]
use crate::text::{signed_decimal, text_of};

verus! {

/// Only a broadcast channel is a channel: neither a user nor any group, nor a channel that is a
/// megagroup, is of that kind, and users and groups are told apart.
pub proof fn only_broadcasts_are_channels(peer: Peer)
    ensures
        peer_chat_kind(peer) == "channel"@ <==> (peer matches Peer::Channel(channel)
            && !channel.megagroup),
        peer_chat_kind(peer) == "user"@ <==> peer is User,
        peer is Group ==> peer_chat_kind(peer) == "group"@,
        (peer matches Peer::Channel(channel) && channel.megagroup) ==> peer_chat_kind(peer)
            == "group"@,
{
    reveal_strlit("channel");
    reveal_strlit("user");
    reveal_strlit("group");
    assert("channel"@.len() == 7 && "user"@.len() == 4 && "group"@.len() == 5);
}

/// Where nothing but the identity is known, the three ranges of packed identities, and the
/// placeholder of the own account, tell the kind of chat.
pub proof fn identities_tell_the_kind(dialog: int)
    ensures
        0 < dialog <= 0x100_0000_0000 ==> has_kind(dialog) && dialog_chat_kind(dialog) == "user"@,
        -1_000_000_000_000 < dialog < 0 ==> has_kind(dialog) && dialog_chat_kind(dialog)
            == "group"@,
        -1_997_852_516_352 <= dialog < -1_000_000_000_000 ==> has_kind(dialog)
            && dialog_chat_kind(dialog) == "channel"@,
        has_kind(dialog) && dialog_chat_kind(dialog) == "channel"@ ==> dialog < -1_000_000_000_000,
{
    reveal_strlit("channel");
    reveal_strlit("user");
    reveal_strlit("group");
    assert("channel"@.len() == 7 && "user"@.len() == 4 && "group"@.len() == 5);
}

/// Identities of one kind with one identifier are the same: within each of the three ranges,
/// different packed identities have different identifiers, all of them positive.
pub proof fn identifiers_are_distinct(a: int, b: int)
    requires
        has_bare_id(a),
        has_bare_id(b),
        unpacked_id(a) == unpacked_id(b),
        dialog_chat_kind(a) == dialog_chat_kind(b),
    ensures
        a == b,
        unpacked_id(a) >= 1,
        a > 0 ==> unpacked_id(a) == a,
        -1_000_000_000_000 < a < 0 ==> unpacked_id(a) + a == 0,
        a < -1_000_000_000_000 ==> unpacked_id(a) + a == -1_000_000_000_000,
{
    identities_tell_the_kind(a);
    identities_tell_the_kind(b);
    reveal_strlit("channel");
    reveal_strlit("user");
    reveal_strlit("group");
    assert("channel"@.len() == 7 && "user"@.len() == 4 && "group"@.len() == 5);
}

/// A user with a first name is called by it, and any other by a number of its own.
pub proof fn users_have_names(user: User, profile: UserProfile, name: String)
    ensures
        user.profile == Some(profile) && profile.first_name == Some(name) ==> peer_chat_name(
            Peer::User(user),
        ) == name@,
        user.profile is None || (user.profile == Some(profile) && profile.first_name is None)
            ==> peer_chat_name(Peer::User(user)) == "User "@ + signed_decimal(user.id as int),
{
}

/// A group or channel with a title is called by it, and a group without one by a number of its
/// own.
pub proof fn chats_have_names(channel: Channel, id: i64, title: String, rest: Group)
    ensures
        peer_chat_name(Peer::Channel(channel)) == channel.title@,
        peer_chat_name(Peer::Group(Group::Chat { id, title })) == title@,
        peer_chat_name(Peer::Group(Group::Forbidden { id, title })) == title@,
        rest matches Group::Channel { title, .. } ==> peer_chat_name(Peer::Group(rest)) == title@,
        rest matches Group::ChannelForbidden { title, .. } ==> peer_chat_name(Peer::Group(rest))
            == title@,
        peer_chat_name(Peer::Group(Group::Empty { id })) == "Group "@ + signed_decimal(id as int),
{
}

/// Whoever has a public name keeps it, and nobody else gets one.
pub proof fn public_names_are_kept(peer: Peer, name: Seq<char>)
    ensures
        peer_username(peer) == Some(name) <==> match peer {
            Peer::User(user) => user.profile matches Some(profile)
                && profile.username matches Some(own) && own@ == name,
            Peer::Channel(channel) => channel.username matches Some(own) && own@ == name,
            Peer::Group(group) => group matches Group::Channel { username, .. }
                && username matches Some(own) && own@ == name,
        },
{
}

/// A peer is a forum exactly when its own flag says so.
pub proof fn forums_say_so(peer: Peer)
    ensures
        peer is User ==> !is_forum(peer),
        peer matches Peer::Channel(channel) ==> is_forum(peer) == channel.forum,
        peer matches Peer::Group(Group::Channel { forum, .. }) ==> is_forum(peer) == forum,
        is_forum(peer) ==> (peer matches Peer::Channel(channel) && channel.forum) || (
        peer matches Peer::Group(Group::Channel { forum, .. }) && forum),
{
}

/// Every access hash that a peer carries is kept as it is, and no other is made up.
pub proof fn access_hashes_are_kept(peer: Peer, hash: i64)
    ensures
        peer_access_hash(peer) == Some(hash) <==> match peer {
            Peer::User(user) => user.profile matches Some(profile) && profile.access_hash == Some(
                hash,
            ),
            Peer::Channel(channel) => channel.access_hash == Some(hash),
            Peer::Group(Group::Channel { access_hash, .. }) => access_hash == Some(hash),
            Peer::Group(Group::ChannelForbidden { access_hash, .. }) => access_hash == hash,
            Peer::Group(_) => false,
        },
{
}

/// A message stands in the chat that its identity names.
pub proof fn messages_stand_in_their_chat(message: MessageUpdate)
    requires
        message.located(),
    ensures
        ({
            let dialog = dialog_id(message.peer_id);
            &&& dialog > 0 ==> message.chat_id() == dialog
            &&& -1_000_000_000_000 < dialog < 0 ==> message.chat_id() == -dialog
            &&& dialog < -1_000_000_000_000 ==> message.chat_id() == -dialog - 1_000_000_000_000
        }),
        1 <= message.chat_id() <= 0xff_ffff_ffff,
{
}

/// A message can be taken up exactly when its chat's identity is that of a user, a small group
/// or a channel.
pub proof fn located_messages(message: MessageUpdate)
    ensures
        message.located() <==> ({
            let dialog = dialog_id(message.peer_id);
            ||| 1 <= dialog <= 0xff_ffff_ffff
            ||| -999_999_999_999 <= dialog <= -1
            ||| -1_997_852_516_352 <= dialog <= -1_000_000_000_001
        }),
{
}

/// The known sender is the sender, whatever the raw message says and whoever it is.
pub proof fn known_senders_are_the_senders(message: MessageUpdate, sender: Peer)
    requires
        message.sender == Some(sender),
    ensures
        message.sender_id() == (match sender {
            Peer::User(user) => user.id,
            Peer::Channel(channel) => channel.id,
            Peer::Group(Group::Empty { id }) => id,
            Peer::Group(Group::Chat { id, .. }) => id,
            Peer::Group(Group::Forbidden { id, .. }) => id,
            Peer::Group(Group::Channel { id, .. }) => id,
            Peer::Group(Group::ChannelForbidden { id, .. }) => id,
        }),
{
}

/// Where no sender is known, the one that the raw message names is the sender: of a new or an
/// edited message, in a channel or not, a service message or not, outgoing or not.
pub proof fn named_senders_are_the_senders(message: MessageUpdate, raw: RawMessage, sender: RawPeer)
    requires
        message.sender is None,
        message.raw == RawUpdate::NewMessage(raw) || message.raw == RawUpdate::NewChannelMessage(
            raw,
        ) || message.raw == RawUpdate::EditMessage(raw) || message.raw
            == RawUpdate::EditChannelMessage(raw),
        (raw matches RawMessage::Message { from_id, .. } && from_id == Some(sender)) || raw == (
        RawMessage::Service { from_id: Some(sender) }),
    ensures
        sender matches RawPeer::User { user_id } ==> message.sender_id() == user_id,
        sender matches RawPeer::Chat { chat_id } ==> message.sender_id() == chat_id,
        sender matches RawPeer::Channel { channel_id } ==> message.sender_id() == channel_id,
{
}

/// Where nobody is named, an incoming message of a private chat is from its other side, and the
/// sender of any other is not known.
pub proof fn unnamed_senders(message: MessageUpdate)
    requires
        message.located(),
        message.sender is None,
        message.raw_sender() is None,
    ensures
        !message.outgoing && dialog_id(message.peer_id) > 0 ==> message.sender_id() == dialog_id(
            message.peer_id,
        ),
        message.outgoing || dialog_id(message.peer_id) < 0 ==> message.sender_id() == 0,
{
}

/// A message names nobody exactly where it holds no sender.
pub proof fn nobody_is_named(message: MessageUpdate)
    ensures
        message.raw_sender() is None <==> forall|raw: RawMessage, sender: RawPeer|
            message.raw == RawUpdate::NewMessage(raw) || message.raw
                == RawUpdate::NewChannelMessage(raw) || message.raw == RawUpdate::EditMessage(raw)
                || message.raw == RawUpdate::EditChannelMessage(raw) ==> !(#[trigger] names(
                raw,
                sender,
            )),
{
    if message.raw_sender() is Some {
        let sender = message.raw_sender()->0;
        let raw = match message.raw {
            RawUpdate::NewMessage(raw) => raw,
            RawUpdate::NewChannelMessage(raw) => raw,
            RawUpdate::EditMessage(raw) => raw,
            RawUpdate::EditChannelMessage(raw) => raw,
            _ => RawMessage::Empty,
        };
        assert(names(raw, sender));
    }
}

/// The raw message names the sender.
pub open spec fn names(raw: RawMessage, sender: RawPeer) -> bool {
    match raw {
        RawMessage::Empty => false,
        RawMessage::Message { from_id, reply_to } => from_id == Some(sender),
        RawMessage::Service { from_id } => from_id == Some(sender),
    }
}

/// A reply in a forum stands in the topic of its thread, and a reply without a thread in that
/// of the message it replies to.
pub proof fn replies_in_forums_have_topics(
    from_id: Option<RawPeer>,
    forum_topic: bool,
    top: Option<i32>,
    reply: Option<i32>,
    id: i32,
)
    ensures
        ({
            let raw = RawMessage::Message {
                from_id,
                reply_to: Some(
                    ReplyHeader::Message {
                        forum_topic,
                        reply_to_top_id: top,
                        reply_to_msg_id: reply,
                    },
                ),
            };
            &&& message_topic(raw) == Some(id) <==> forum_topic && (top == Some(id) || (top is None
                && reply == Some(id)))
            &&& raw_topic(RawUpdate::NewChannelMessage(raw)) == Some(id) <==> message_topic(raw)
                == Some(id)
            &&& raw_topic(RawUpdate::EditChannelMessage(raw)) == Some(id) <==> message_topic(raw)
                == Some(id)
        }),
{
}

/// Nothing but a reply to a message, in a channel, has a topic.
pub proof fn nothing_else_has_a_topic(raw: RawUpdate)
    requires
        raw_topic(raw) is Some,
    ensures
        ({
            let message = match raw {
                RawUpdate::NewChannelMessage(message) => message,
                RawUpdate::EditChannelMessage(message) => message,
                _ => RawMessage::Empty,
            };
            message matches RawMessage::Message { reply_to, .. } && reply_to matches Some(header)
                && header is Message
        }),
{
}

/// A deletion is told with all of its messages, and with its channel where it names one.
pub proof fn deletions_are_complete(channel_id: i64, messages: Vec<i32>, raw: RawUpdate)
    ensures
        raw_deletion((RawUpdate::DeleteMessages { messages })) == Some((None::<i64>, messages@)),
        raw_deletion((RawUpdate::DeleteChannelMessages { channel_id, messages })) == Some(
            (Some(channel_id), messages@),
        ),
        raw_deletion(raw) is Some <==> raw is DeleteMessages || raw is DeleteChannelMessages,
{
}

/// Identities are packed by their kind: a user as it is, a small group as its negation, and a
/// channel, be it a broadcast, a megagroup or one that is not accessible, below minus one
/// trillion.
pub proof fn identities_are_packed_by_kind(peer: Peer)
    ensures
        peer matches Peer::User(user) ==> peer.dialog() == user.id,
        peer matches Peer::Channel(channel) ==> peer.dialog() == -1_000_000_000_000 - channel.id,
        peer matches Peer::Group(Group::Empty { id }) ==> peer.dialog() == -id,
        peer matches Peer::Group(Group::Chat { id, .. }) ==> peer.dialog() == -id,
        peer matches Peer::Group(Group::Forbidden { id, .. }) ==> peer.dialog() == -id,
        peer matches Peer::Group(Group::Channel { id, .. }) ==> peer.dialog() == -1_000_000_000_000
            - id,
        peer matches Peer::Group(Group::ChannelForbidden { id, .. }) ==> peer.dialog()
            == -1_000_000_000_000 - id,
        peer.in_range() <==> has_bare_id(peer.dialog()) && 1 <= peer.bare() && (peer is User
            <==> peer.dialog() > 0) && unpacked_id(peer.dialog()) == peer.bare(),
{
}

/// A message can be stored exactly when its chat is named, its sender can be told, its group has
/// an identifier and its date can be written.
pub proof fn storable_messages(message: MessageUpdate)
    ensures
        message.wf() <==> {
            &&& message.located()
            &&& message.date.valid()
            &&& message.sender matches Some(sender) ==> sender.in_range()
            &&& message.peer matches Some(Peer::Group(Group::Empty { id })) ==> 1 <= id
                <= 999_999_999_999
        },
{
}

} // verus!
