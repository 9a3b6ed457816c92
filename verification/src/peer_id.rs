//! Telegram peer identities, packed and unpacked by grammers.

use grammers_session::defs::PeerId;
use vstd::prelude::*;

verus! {

/// `grammers_session::defs::PeerId`, carried as an opaque value.
#[verifier::external_type_specification]
#[verifier::external_body]
pub struct ExPeerId(PeerId);

/// What kind of peer an identity stands for.
#[derive(Clone, Copy, Debug, PartialEq, Eq, Structural)]
pub enum PeerKind {
    /// A user or bot account.
    User,
    /// The account that is logged in, its identifier not being known.
    UserSelf,
    /// A small group.
    Chat,
    /// A broadcast channel, megagroup or gigagroup.
    Channel,
}

/// The integer into which a peer identity is packed, in the Bot API dialog format:
/// what `PeerId::bot_api_dialog_id` returns. For the account that is logged in, where its
/// identifier is not known, it is a placeholder beyond all users.
pub uninterp spec fn dialog_id(id: PeerId) -> i64;

pub open spec fn is_user_dialog(dialog: int) -> bool {
    1 <= dialog <= 0xff_ffff_ffff
}

pub open spec fn is_self_dialog(dialog: int) -> bool {
    dialog == 0x100_0000_0000
}

pub open spec fn is_chat_dialog(dialog: int) -> bool {
    -999_999_999_999 <= dialog <= -1
}

pub open spec fn is_channel_dialog(dialog: int) -> bool {
    -1_997_852_516_352 <= dialog <= -1_000_000_000_001
}

/// A bare identifier of a user lies in this range.
pub open spec fn is_user_id(id: int) -> bool {
    1 <= id <= 0xff_ffff_ffff
}

/// A bare identifier of a small group lies in this range.
pub open spec fn is_chat_id(id: int) -> bool {
    1 <= id <= 999_999_999_999
}

/// A bare identifier of a channel lies in this range.
pub open spec fn is_channel_id(id: int) -> bool {
    1 <= id <= 997_852_516_352
}

/// The dialog is of a kind that grammers tells.
pub open spec fn has_kind(dialog: int) -> bool {
    is_self_dialog(dialog) || has_bare_id(dialog)
}

/// The dialog is one of which grammers tells the bare identifier.
pub open spec fn has_bare_id(dialog: int) -> bool {
    is_user_dialog(dialog) || is_chat_dialog(dialog) || is_channel_dialog(dialog)
}

/// The kind of peer behind a dialog.
pub open spec fn peer_kind(dialog: int) -> PeerKind {
    if is_user_dialog(dialog) {
        PeerKind::User
    } else if is_self_dialog(dialog) {
        PeerKind::UserSelf
    } else if is_chat_dialog(dialog) {
        PeerKind::Chat
    } else {
        PeerKind::Channel
    }
}

/// The identifier of the peer behind a dialog, without its kind.
pub open spec fn unpacked_id(dialog: int) -> int {
    if is_user_dialog(dialog) {
        dialog
    } else if is_chat_dialog(dialog) {
        -dialog
    } else {
        -dialog - 1_000_000_000_000
    }
}

/// `PeerId::bot_api_dialog_id` returns the packed integer.
pub assume_specification[ PeerId::bot_api_dialog_id ](id: &PeerId) -> (res: i64)
    ensures
        res == dialog_id(*id),
;

/// `PeerId::user` packs the identifier of a user as it is; outside its range it panics.
pub assume_specification[ PeerId::user ](id: i64) -> (res: PeerId)
    requires
        is_user_id(id as int),
    ensures
        dialog_id(res) == id,
;

/// `PeerId::chat` packs the identifier of a small group as its negation; outside its range it
/// panics.
pub assume_specification[ PeerId::chat ](id: i64) -> (res: PeerId)
    requires
        is_chat_id(id as int),
    ensures
        dialog_id(res) == -id,
;

/// `PeerId::channel` packs the identifier of a channel below minus one trillion; outside its
/// ranges, of which this is the one that `PeerId::kind` tells again, it panics.
pub assume_specification[ PeerId::channel ](id: i64) -> (res: PeerId)
    requires
        is_channel_id(id as int),
    ensures
        dialog_id(res) == -(1_000_000_000_000 + id),
;

/// `PeerId::bare_id` undoes the packing; it panics on the logged-in account's placeholder and
/// outside the ranges of users, small groups and channels.
pub assume_specification[ PeerId::bare_id ](id: &PeerId) -> (res: i64)
    requires
        has_bare_id(dialog_id(*id) as int),
    ensures
        res == unpacked_id(dialog_id(*id) as int),
;

/// `PeerId::kind` tells the kind by the range in which the packed integer lies; outside all of
/// them it panics.
#[verifier::external_body]
pub(crate) fn kind_of(id: PeerId) -> (res: PeerKind)
    requires
        has_kind(dialog_id(id) as int),
    ensures
        res == peer_kind(dialog_id(id) as int),
{
    match id.kind() {
        grammers_session::defs::PeerKind::User => PeerKind::User,
        grammers_session::defs::PeerKind::UserSelf => PeerKind::UserSelf,
        grammers_session::defs::PeerKind::Chat => PeerKind::Chat,
        grammers_session::defs::PeerKind::Channel => PeerKind::Channel,
    }
}

/// Whether grammers tells the bare identifier of a peer.
pub fn is_identified(id: &PeerId) -> (res: bool)
    ensures
        res == has_bare_id(dialog_id(*id) as int),
{
    let dialog = id.bot_api_dialog_id();
    (1 <= dialog && dialog <= 0xff_ffff_ffff) || (-999_999_999_999 <= dialog && dialog <= -1) || (
    -1_997_852_516_352 <= dialog && dialog <= -1_000_000_000_001)
}

/// The kind of chat behind a peer identity, as the archive names it.
pub open spec fn dialog_chat_kind(dialog: int) -> Seq<char> {
    match peer_kind(dialog) {
        PeerKind::User => "user"@,
        PeerKind::UserSelf => "user"@,
        PeerKind::Chat => "group"@,
        PeerKind::Channel => "channel"@,
    }
}

/// The kind of chat behind a peer of which nothing but the identity is known.
pub fn chat_kind_from_peer_id(peer_id: PeerId) -> (res: &'static str)
    requires
        has_kind(dialog_id(peer_id) as int),
    ensures
        res@ == dialog_chat_kind(dialog_id(peer_id) as int),
{
    match kind_of(peer_id) {
        PeerKind::User => "user",
        PeerKind::UserSelf => "user",
        PeerKind::Chat => "group",
        PeerKind::Channel => "channel",
    }
}

} // verus!
