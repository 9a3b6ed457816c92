use grammers_session::defs::PeerId;
use tgcli::peer::{
    access_hash_from_peer, bare_id_from_raw_peer, chat_kind_from_peer, chat_name_from_peer,
    is_forum_peer, username_from_peer, Channel, Group, Peer, RawPeer, User, UserProfile,
};
use tgcli::peer_id::{chat_kind_from_peer_id, is_identified};

fn user(id: i64, first_name: Option<&str>) -> Peer {
    Peer::User(User {
        id,
        profile: Some(UserProfile {
            access_hash: Some(77),
            first_name: first_name.map(String::from),
            last_name: None,
            username: Some("ada".to_string()),
            phone: None,
        }),
    })
}

fn channel(megagroup: bool, forum: bool) -> Peer {
    Peer::Channel(Channel {
        id: 42,
        title: "News".to_string(),
        username: Some("news".to_string()),
        megagroup,
        forum,
        access_hash: Some(5),
    })
}

#[test]
fn classifies_raw_peer_ids_without_resolving_metadata() {
    assert_eq!(chat_kind_from_peer_id(PeerId::user(42)), "user");
    assert_eq!(chat_kind_from_peer_id(PeerId::chat(42)), "group");
    assert_eq!(chat_kind_from_peer_id(PeerId::channel(42)), "channel");
}

#[test]
fn extracts_bare_ids_from_raw_peers() {
    assert_eq!(bare_id_from_raw_peer(&RawPeer::User { user_id: 11 }), 11);
    assert_eq!(bare_id_from_raw_peer(&RawPeer::Chat { chat_id: 22 }), 22);
    assert_eq!(bare_id_from_raw_peer(&RawPeer::Channel { channel_id: 33 }), 33);
}

#[test]
fn packs_and_unpacks_identities() {
    for id in [1, 42, 999_999_999_999, 0xff_ffff_ffff] {
        let peer = user(id, None);
        assert!(peer.check_range());
        assert_eq!(peer.id().bot_api_dialog_id(), id);
        assert_eq!(peer.id().bare_id(), id);
        assert_eq!(chat_kind_from_peer_id(peer.id()), "user");
    }
    for id in [1, 42, 999_999_999_999] {
        let peer = Peer::Group(Group::Chat { id, title: "Team".to_string() });
        assert!(peer.check_range());
        assert_eq!(peer.id().bot_api_dialog_id(), -id);
        assert_eq!(peer.id().bare_id(), id);
        assert_eq!(chat_kind_from_peer_id(peer.id()), "group");
    }
    for id in [1, 42, 997_852_516_352] {
        let peer = Peer::Group(Group::ChannelForbidden {
            id,
            title: "Gone".to_string(),
            access_hash: 3,
        });
        assert!(peer.check_range());
        assert_eq!(peer.id().bot_api_dialog_id(), -1_000_000_000_000 - id);
        assert_eq!(peer.id().bare_id(), id);
        assert_eq!(chat_kind_from_peer_id(peer.id()), "channel");
    }
}

#[test]
fn identifiers_out_of_range_are_told() {
    assert!(!user(0, None).check_range());
    assert!(!user(0x100_0000_0000, None).check_range());
    assert!(!Peer::Group(Group::Empty { id: 1_000_000_000_000 }).check_range());
    assert!(!Peer::Group(Group::Forbidden { id: -1, title: String::new() }).check_range());
    let far = Channel {
        id: 997_852_516_353,
        title: String::new(),
        username: None,
        megagroup: false,
        forum: false,
        access_hash: None,
    };
    assert!(!Peer::Channel(far).check_range());
}

#[test]
fn the_own_account_has_a_kind_but_no_identifier() {
    assert_eq!(chat_kind_from_peer_id(PeerId::self_user()), "user");
    assert!(!is_identified(&PeerId::self_user()));
    assert!(is_identified(&PeerId::user(1)));
    assert!(is_identified(&PeerId::chat(1)));
    assert!(is_identified(&PeerId::channel(1)));
}

#[test]
fn kinds_follow_the_metadata() {
    assert_eq!(chat_kind_from_peer(&user(1, None)), "user");
    assert_eq!(chat_kind_from_peer(&Peer::Group(Group::Empty { id: 1 })), "group");
    assert_eq!(chat_kind_from_peer(&channel(false, false)), "channel");
    assert_eq!(chat_kind_from_peer(&channel(true, false)), "group");
}

#[test]
fn names_fall_back_on_the_identifier() {
    assert_eq!(chat_name_from_peer(&user(9, Some("Ada"))), "Ada");
    assert_eq!(chat_name_from_peer(&user(9, Some(""))), "");
    assert_eq!(chat_name_from_peer(&user(9, None)), "User 9");
    assert_eq!(chat_name_from_peer(&Peer::User(User { id: 10, profile: None })), "User 10");
    assert_eq!(chat_name_from_peer(&Peer::Group(Group::Empty { id: 12 })), "Group 12");
    let team = Peer::Group(Group::Forbidden { id: 12, title: "Team".to_string() });
    assert_eq!(chat_name_from_peer(&team), "Team");
    assert_eq!(chat_name_from_peer(&channel(false, false)), "News");
}

#[test]
fn usernames_are_kept_where_there_are_any() {
    assert_eq!(username_from_peer(&user(1, None)), Some("ada".to_string()));
    assert_eq!(username_from_peer(&channel(false, false)), Some("news".to_string()));
    assert_eq!(username_from_peer(&Peer::Group(Group::Empty { id: 1 })), None);
    let named = |username: Option<String>| {
        Peer::Group(Group::Channel {
            id: 1,
            title: "Team".to_string(),
            username,
            forum: false,
            access_hash: None,
        })
    };
    assert_eq!(username_from_peer(&named(Some("team".to_string()))), Some("team".to_string()));
    assert_eq!(username_from_peer(&named(None)), None);
    assert_eq!(username_from_peer(&Peer::User(User { id: 1, profile: None })), None);
}

#[test]
fn only_channels_and_their_groups_are_forums() {
    let forum = Group::Channel { id: 1, title: String::new(), username: None, forum: true, access_hash: None };
    let plain = Group::Channel { id: 1, title: String::new(), username: None, forum: false, access_hash: None };
    assert!(is_forum_peer(&Peer::Group(forum)));
    assert!(!is_forum_peer(&Peer::Group(plain)));
    assert!(!is_forum_peer(&Peer::Group(Group::Empty { id: 1 })));
    assert!(is_forum_peer(&channel(false, true)));
    assert!(!is_forum_peer(&channel(true, false)));
    assert!(!is_forum_peer(&user(1, None)));
}

#[test]
fn small_groups_have_no_access_hash() {
    assert_eq!(access_hash_from_peer(&user(1, None)), Some(77));
    assert_eq!(access_hash_from_peer(&Peer::User(User { id: 1, profile: None })), None);
    assert_eq!(access_hash_from_peer(&channel(false, false)), Some(5));
    let open = Group::Channel { id: 1, title: String::new(), username: None, forum: false, access_hash: Some(8) };
    assert_eq!(access_hash_from_peer(&Peer::Group(open)), Some(8));
    let shut = Group::ChannelForbidden { id: 1, title: String::new(), access_hash: 6 };
    assert_eq!(access_hash_from_peer(&Peer::Group(shut)), Some(6));
    let small = Group::Chat { id: 1, title: String::new() };
    assert_eq!(access_hash_from_peer(&Peer::Group(small)), None);
}
