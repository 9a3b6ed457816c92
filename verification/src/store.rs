//! The records that the archive keeps.

use crate::time::Timestamp;
use vstd::prelude::*;

verus! {

/// A message to be stored.
#[derive(Debug)]
pub struct UpsertMessageParams {
    pub id: i64,
    pub chat_id: i64,
    pub sender_id: i64,
    pub ts: Timestamp,
    pub edit_ts: Option<Timestamp>,
    pub from_me: bool,
    pub text: String,
    pub media_type: Option<String>,
    pub media_path: Option<String>,
    pub reply_to_id: Option<i64>,
    pub topic_id: Option<i32>,
}

/// What the archive knows of a chat, as far as the daemon reads it.
#[derive(Debug)]
pub struct StoredChat {
    pub kind: String,
    pub archived: bool,
}

/// A contact to be stored.
#[derive(Debug)]
pub struct ContactRecord {
    pub user_id: i64,
    pub username: Option<String>,
    pub first_name: String,
    pub last_name: String,
    pub phone: String,
}

/// A chat to be stored.
#[derive(Debug)]
pub struct ChatRecord {
    pub chat_id: i64,
    pub kind: &'static str,
    pub name: String,
    pub username: Option<String>,
    pub last_message_ts: Option<Timestamp>,
    pub is_forum: bool,
    pub access_hash: Option<i64>,
    pub archived: bool,
}

} // verus!
