//! Peers, and what the archive keeps of them.

use crate::text::append_signed;
use grammers_session::defs::PeerId;
use vstd::prelude::*;

#[allow(unused_imports)]
use crate::peer_id::{
    dialog_chat_kind, dialog_id, has_bare_id, is_channel_id, is_chat_id, is_user_id, unpacked_id,
};
#[allow(unused_imports)]
use crate::text::{signed_decimal, text_of};

verus! {

/// A peer as a raw update names it.
#[derive(Clone, Copy, Debug, PartialEq, Eq, Structural)]
pub enum RawPeer {
    User { user_id: i64 },
    Chat { chat_id: i64 },
    Channel { channel_id: i64 },
}

/// What Telegram tells of a user that it does not withhold.
#[derive(Debug)]
pub struct UserProfile {
    pub access_hash: Option<i64>,
    pub first_name: Option<String>,
    pub last_name: Option<String>,
    pub username: Option<String>,
    pub phone: Option<String>,
}

/// A user, with a profile unless Telegram sent an empty user.
#[derive(Debug)]
pub struct User {
    pub id: i64,
    pub profile: Option<UserProfile>,
}

/// A group, in the forms in which Telegram sends one.
#[derive(Debug)]
pub enum Group {
    Empty { id: i64 },
    Chat { id: i64, title: String },
    Forbidden { id: i64, title: String },
    Channel {
        id: i64,
        title: String,
        username: Option<String>,
        forum: bool,
        access_hash: Option<i64>,
    },
    ChannelForbidden { id: i64, title: String, access_hash: i64 },
}

/// A channel.
#[derive(Debug)]
pub struct Channel {
    pub id: i64,
    pub title: String,
    pub username: Option<String>,
    pub megagroup: bool,
    pub forum: bool,
    pub access_hash: Option<i64>,
}

/// A peer with its metadata.
#[derive(Debug)]
pub enum Peer {
    User(User),
    Group(Group),
    Channel(Channel),
}

/// The identifier that a raw peer carries.
pub open spec fn raw_bare_id(peer: RawPeer) -> i64 {
    match peer {
        RawPeer::User { user_id } => user_id,
        RawPeer::Chat { chat_id } => chat_id,
        RawPeer::Channel { channel_id } => channel_id,
    }
}

/// The identifier that a raw peer carries.
pub fn bare_id_from_raw_peer(peer: &RawPeer) -> (res: i64)
    ensures
        res == raw_bare_id(*peer),
{
    match peer {
        RawPeer::User { user_id } => *user_id,
        RawPeer::Chat { chat_id } => *chat_id,
        RawPeer::Channel { channel_id } => *channel_id,
    }
}

impl Group {
    /// The group's identifier, without its kind.
    pub open spec fn bare(self) -> i64 {
        match self {
            Group::Empty { id } => id,
            Group::Chat { id, .. } => id,
            Group::Forbidden { id, .. } => id,
            Group::Channel { id, .. } => id,
            Group::ChannelForbidden { id, .. } => id,
        }
    }

    /// The group is packed as a channel, not as a small group.
    pub open spec fn is_megagroup(self) -> bool {
        self is Channel || self is ChannelForbidden
    }

    /// The title, unless the group is inaccessible.
    pub open spec fn title(self) -> Option<Seq<char>> {
        match self {
            Group::Empty { id } => None,
            Group::Chat { title, .. } => Some(title@),
            Group::Forbidden { title, .. } => Some(title@),
            Group::Channel { title, .. } => Some(title@),
            Group::ChannelForbidden { title, .. } => Some(title@),
        }
    }

    /// The group's packed identity.
    pub fn id(&self) -> (res: PeerId)
        requires
            if self.is_megagroup() {
                is_channel_id(self.bare() as int)
            } else {
                is_chat_id(self.bare() as int)
            },
        ensures
            dialog_id(res) == (if self.is_megagroup() {
                -(1_000_000_000_000 + self.bare())
            } else {
                -self.bare()
            }),
    {
        match self {
            Group::Empty { id } => PeerId::chat(*id),
            Group::Chat { id, .. } => PeerId::chat(*id),
            Group::Forbidden { id, .. } => PeerId::chat(*id),
            Group::Channel { id, .. } => PeerId::channel(*id),
            Group::ChannelForbidden { id, .. } => PeerId::channel(*id),
        }
    }
}

impl Peer {
    /// The identifier of the peer, without its kind.
    pub open spec fn bare(self) -> i64 {
        match self {
            Peer::User(user) => user.id,
            Peer::Group(group) => group.bare(),
            Peer::Channel(channel) => channel.id,
        }
    }

    /// The identifier lies in the range of its kind.
    pub open spec fn in_range(self) -> bool {
        match self {
            Peer::User(user) => is_user_id(user.id as int),
            Peer::Group(group) => if group.is_megagroup() {
                is_channel_id(group.bare() as int)
            } else {
                is_chat_id(group.bare() as int)
            },
            Peer::Channel(channel) => is_channel_id(channel.id as int),
        }
    }

    /// The integer into which the peer's identity is packed.
    pub open spec fn dialog(self) -> int {
        match self {
            Peer::User(user) => user.id as int,
            Peer::Group(group) => if group.is_megagroup() {
                -(1_000_000_000_000 + group.bare())
            } else {
                -group.bare()
            },
            Peer::Channel(channel) => -(1_000_000_000_000 + channel.id),
        }
    }

    /// The peer's packed identity.
    pub fn id(&self) -> (res: PeerId)
        requires
            self.in_range(),
        ensures
            dialog_id(res) == self.dialog(),
            has_bare_id(dialog_id(res) as int),
            unpacked_id(dialog_id(res) as int) == self.bare(),
    {
        match self {
            Peer::User(user) => PeerId::user(user.id),
            Peer::Group(group) => group.id(),
            Peer::Channel(channel) => PeerId::channel(channel.id),
        }
    }

    /// Whether the identifier lies in the range of its kind.
    pub fn check_range(&self) -> (res: bool)
        ensures
            res == self.in_range(),
    {
        match self {
            Peer::User(user) => 1 <= user.id && user.id <= 0xff_ffff_ffff,
            Peer::Group(group) => match group {
                Group::Empty { id } => 1 <= *id && *id <= 999_999_999_999,
                Group::Chat { id, .. } => 1 <= *id && *id <= 999_999_999_999,
                Group::Forbidden { id, .. } => 1 <= *id && *id <= 999_999_999_999,
                Group::Channel { id, .. } => 1 <= *id && *id <= 997_852_516_352,
                Group::ChannelForbidden { id, .. } => 1 <= *id && *id <= 997_852_516_352,
            },
            Peer::Channel(channel) => 1 <= channel.id && channel.id <= 997_852_516_352,
        }
    }
}

/// The kind of chat that a peer stands for. A megagroup is a group.
pub open spec fn peer_chat_kind(peer: Peer) -> Seq<char> {
    match peer {
        Peer::User(_) => "user"@,
        Peer::Group(_) => "group"@,
        Peer::Channel(channel) => if channel.megagroup {
            "group"@
        } else {
            "channel"@
        },
    }
}

/// The kind of chat that a peer stands for.
pub fn chat_kind_from_peer(peer: &Peer) -> (res: &'static str)
    ensures
        res@ == peer_chat_kind(*peer),
{
    match peer {
        Peer::User(_) => "user",
        Peer::Group(_) => "group",
        Peer::Channel(channel) => if channel.megagroup {
            "group"
        } else {
            "channel"
        },
    }
}

/// The first name that a user gives.
pub open spec fn first_name(user: User) -> Option<Seq<char>> {
    match user.profile {
        Some(profile) => text_of(profile.first_name),
        None => None,
    }
}

/// The name of a chat: a user's first name, or else a name made of the identifier; a title, or
/// else a name made of the identifier.
pub open spec fn peer_chat_name(peer: Peer) -> Seq<char> {
    match peer {
        Peer::User(user) => match first_name(user) {
            Some(name) => name,
            None => "User "@ + signed_decimal(user.id as int),
        },
        Peer::Group(group) => match group.title() {
            Some(title) => title,
            None => "Group "@ + signed_decimal(group.bare() as int),
        },
        Peer::Channel(channel) => channel.title@,
    }
}

fn numbered(prefix: &str, id: i64) -> (res: String)
    ensures
        res@ == prefix@ + signed_decimal(id as int),
{
    let mut name = prefix.to_string();
    append_signed(&mut name, id);
    name
}

/// The name of a chat.
pub fn chat_name_from_peer(peer: &Peer) -> (res: String)
    requires
        *peer matches Peer::Group(Group::Empty { id }) ==> is_chat_id(id as int),
    ensures
        res@ == peer_chat_name(*peer),
{
    match peer {
        Peer::User(user) => match &user.profile {
            Some(profile) => match &profile.first_name {
                Some(name) => name.clone(),
                None => numbered("User ", user.id),
            },
            None => numbered("User ", user.id),
        },
        Peer::Group(group) => match group {
            Group::Empty { .. } => numbered("Group ", group.id().bare_id()),
            Group::Chat { title, .. } => title.clone(),
            Group::Forbidden { title, .. } => title.clone(),
            Group::Channel { title, .. } => title.clone(),
            Group::ChannelForbidden { title, .. } => title.clone(),
        },
        Peer::Channel(channel) => channel.title.clone(),
    }
}

/// The public name of a peer, where it has one. Of the groups only a megagroup can.
pub open spec fn peer_username(peer: Peer) -> Option<Seq<char>> {
    match peer {
        Peer::User(user) => match user.profile {
            Some(profile) => text_of(profile.username),
            None => None,
        },
        Peer::Channel(channel) => text_of(channel.username),
        Peer::Group(Group::Channel { username, .. }) => text_of(username),
        Peer::Group(_) => None,
    }
}

/// A copy of an optional string.
pub(crate) fn copy_text(value: &Option<String>) -> (res: Option<String>)
    ensures
        text_of(res) == text_of(*value),
{
    match value {
        Some(text) => Some(text.clone()),
        None => None,
    }
}

/// The public name of a peer.
pub fn username_from_peer(peer: &Peer) -> (res: Option<String>)
    ensures
        text_of(res) == peer_username(*peer),
{
    match peer {
        Peer::User(user) => match &user.profile {
            Some(profile) => copy_text(&profile.username),
            None => None,
        },
        Peer::Channel(channel) => copy_text(&channel.username),
        Peer::Group(Group::Channel { username, .. }) => copy_text(username),
        Peer::Group(_) => None,
    }
}

/// The peer is divided into topics.
pub open spec fn is_forum(peer: Peer) -> bool {
    match peer {
        Peer::Group(group) => group matches Group::Channel { forum, .. } && forum,
        Peer::Channel(channel) => channel.forum,
        Peer::User(_) => false,
    }
}

/// Whether the peer is divided into topics.
pub fn is_forum_peer(peer: &Peer) -> (res: bool)
    ensures
        res == is_forum(*peer),
{
    match peer {
        Peer::Group(group) => match group {
            Group::Channel { forum, .. } => *forum,
            _ => false,
        },
        Peer::Channel(channel) => channel.forum,
        Peer::User(_) => false,
    }
}

/// The hash that authorises access to a peer. A small group has none.
pub open spec fn peer_access_hash(peer: Peer) -> Option<i64> {
    match peer {
        Peer::User(user) => match user.profile {
            Some(profile) => profile.access_hash,
            None => None,
        },
        Peer::Channel(channel) => channel.access_hash,
        Peer::Group(group) => match group {
            Group::Channel { access_hash, .. } => access_hash,
            Group::ChannelForbidden { access_hash, .. } => Some(access_hash),
            _ => None,
        },
    }
}

/// The hash that authorises access to a peer.
pub fn access_hash_from_peer(peer: &Peer) -> (res: Option<i64>)
    ensures
        res == peer_access_hash(*peer),
{
    match peer {
        Peer::User(user) => match &user.profile {
            Some(profile) => profile.access_hash,
            None => None,
        },
        Peer::Channel(channel) => channel.access_hash,
        Peer::Group(group) => match group {
            Group::Channel { access_hash, .. } => *access_hash,
            Group::ChannelForbidden { access_hash, .. } => Some(*access_hash),
            _ => None,
        },
    }
}

/// The integer into which a raw peer's identity is packed.
pub open spec fn raw_dialog(peer: RawPeer) -> int {
    match peer {
        RawPeer::User { user_id } => user_id as int,
        RawPeer::Chat { chat_id } => -chat_id,
        RawPeer::Channel { channel_id } => -(1_000_000_000_000 + channel_id),
    }
}

/// A raw peer's identifier lies in the range of its kind.
pub open spec fn raw_in_range(peer: RawPeer) -> bool {
    match peer {
        RawPeer::User { user_id } => is_user_id(user_id as int),
        RawPeer::Chat { chat_id } => is_chat_id(chat_id as int),
        RawPeer::Channel { channel_id } => is_channel_id(channel_id as int),
    }
}

/// The packed identity of a raw peer tells, without any metadata, both the identifier that the
/// raw peer carries and the kind of chat.
pub proof fn raw_peers_are_classified_without_metadata(peer: RawPeer)
    requires
        raw_in_range(peer),
    ensures
        has_bare_id(raw_dialog(peer)),
        unpacked_id(raw_dialog(peer)) == raw_bare_id(peer),
        dialog_chat_kind(raw_dialog(peer)) == (match peer {
            RawPeer::User { .. } => "user"@,
            RawPeer::Chat { .. } => "group"@,
            RawPeer::Channel { .. } => "channel"@,
        }),
{
}

/// The metadata of a peer tells the same kind of chat as its identity alone, but for a
/// megagroup: that is a group whose identity is a channel's.
pub proof fn metadata_agrees_with_identity(peer: Peer)
    requires
        peer.in_range(),
    ensures
        has_bare_id(peer.dialog()),
        unpacked_id(peer.dialog()) == peer.bare(),
        peer is User ==> peer_chat_kind(peer) == dialog_chat_kind(peer.dialog()),
        peer matches Peer::Group(group) ==> (if group.is_megagroup() {
            dialog_chat_kind(peer.dialog()) == "channel"@
        } else {
            peer_chat_kind(peer) == dialog_chat_kind(peer.dialog())
        }),
        peer matches Peer::Channel(channel) ==> (!channel.megagroup ==> peer_chat_kind(peer)
            == dialog_chat_kind(peer.dialog())),
{
}

} // verus!
