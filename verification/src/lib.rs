//! The rules of a daemon that keeps a local archive of Telegram messages: what it stores of an
//! update, what it tells of it, when it reconciles, and how it imports older history. What the
//! daemon does outside, on the network, the disk and the terminal, it is told to do by actions,
//! and what came of them it learns by events.

pub mod args;
pub mod backfill;
pub mod daemon;
pub mod daemon_laws;
pub mod document;
pub mod fsperm;
pub mod history;
pub mod history_laws;
pub mod ingest;
pub mod ingest_laws;
pub mod json;
pub mod message;
pub mod notice;
pub mod onboarding;
pub mod peer;
pub mod peer_id;
pub mod peer_laws;
pub mod private_file;
pub mod report;
pub mod store;
pub mod stream;
pub mod stream_laws;
pub mod sync;
pub mod sync_laws;
pub mod text;
pub mod time;
pub mod version;
