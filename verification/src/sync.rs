//! Syncs of recent history.

use crate::args::DaemonArgs;
use crate::text::append_decimal;
use crate::time::{days_before, Timestamp, MIN_SECONDS, SECONDS_PER_DAY};
use vstd::prelude::*;

#[allow(unused_imports)]
use crate::text::{decimal, text_of};

verus! {

/// A reconciliation covers the chats that were active within this many days, so that it polls
/// a few hundred chats and not every one.
pub const STARTUP_CATCHUP_DAYS: u32 = 30;

/// Messages that a sync asks for in each chat.
pub const SYNC_MESSAGES_PER_CHAT: usize = 50;

/// Chats that a sync works on at a time.
pub const SYNC_CONCURRENCY: usize = 4;

/// What a sync writes on the terminal.
#[derive(Clone, Copy, Debug, PartialEq, Eq, Structural)]
pub enum OutputMode {
    Silent,
    Text,
    Json,
}

/// What a sync is to cover, and how.
#[derive(Debug)]
pub struct SyncOptions {
    pub output: OutputMode,
    pub mark_read: bool,
    pub download_media: bool,
    pub ignore_chat_ids: Vec<i64>,
    pub ignore_channels: bool,
    pub show_progress: bool,
    pub incremental: bool,
    pub messages_per_chat: usize,
    pub concurrency: usize,
    pub chat_filter: Option<i64>,
    pub prune_after: Option<u64>,
    pub skip_archived: bool,
    pub archived_only: bool,
    pub active_since: Option<Timestamp>,
}

impl SyncOptions {
    /// The sync is one of the daemon's: it stores what is missing, of every chat that is not to
    /// be ignored, and leaves no trace on Telegram's side.
    pub open spec fn is_daemon_sync(self, args: DaemonArgs) -> bool {
        &&& self.output is Silent
        &&& !self.mark_read
        &&& !self.download_media
        &&& self.ignore_chat_ids@ == args.ignore_chat_ids@
        &&& self.ignore_channels == args.ignore_channels
        &&& self.incremental
        &&& self.messages_per_chat == SYNC_MESSAGES_PER_CHAT
        &&& self.concurrency == SYNC_CONCURRENCY
        &&& self.chat_filter is None
        &&& self.prune_after is None
        &&& !self.skip_archived
        &&& !self.archived_only
    }
}

/// The time from which on a chat counts as active: so many days before now.
pub open spec fn catchup_start(now: Timestamp) -> Timestamp {
    Timestamp {
        seconds: (now.seconds - STARTUP_CATCHUP_DAYS * SECONDS_PER_DAY) as i64,
        nanos: now.nanos,
    }
}

/// The time from which on a chat counts as active is one that chrono represents.
pub open spec fn catchup_fits(now: Timestamp) -> bool {
    &&& now.valid()
    &&& MIN_SECONDS <= now.seconds - STARTUP_CATCHUP_DAYS * SECONDS_PER_DAY
}

/// Whether the time from which on a chat counts as active is one that chrono represents.
pub fn check_catchup(now: Timestamp) -> (res: bool)
    ensures
        res == catchup_fits(now),
{
    now.check() && MIN_SECONDS + STARTUP_CATCHUP_DAYS as i64 * SECONDS_PER_DAY <= now.seconds
}

/// A sync of the daemon's.
fn daemon_sync(args: &DaemonArgs, show_progress: bool, active_since: Option<Timestamp>) -> (res:
    SyncOptions)
    ensures
        res.is_daemon_sync(*args),
        res.show_progress == show_progress,
        res.active_since == active_since,
{
    SyncOptions {
        output: OutputMode::Silent,
        mark_read: false,
        download_media: false,
        ignore_chat_ids: args.ignore_chat_ids.clone(),
        ignore_channels: args.ignore_channels,
        show_progress,
        incremental: true,
        messages_per_chat: SYNC_MESSAGES_PER_CHAT,
        concurrency: SYNC_CONCURRENCY,
        chat_filter: None,
        prune_after: None,
        skip_archived: false,
        archived_only: false,
        active_since,
    }
}

/// The sync of a reconciliation: silent, and of the chats that were active lately.
pub fn reconcile_options(args: &DaemonArgs, now: Timestamp) -> (res: SyncOptions)
    requires
        catchup_fits(now),
    ensures
        res.is_daemon_sync(*args),
        !res.show_progress,
        res.active_since == Some(catchup_start(now)),
        res.ignore_channels == args.ignore_channels,
        res.ignore_chat_ids@ == args.ignore_chat_ids@,
{
    daemon_sync(args, false, Some(days_before(now, STARTUP_CATCHUP_DAYS)))
}

/// The background sync: of all chats, with its progress shown unless the daemon is quiet.
pub fn backfill_options(args: &DaemonArgs) -> (res: SyncOptions)
    ensures
        res.is_daemon_sync(*args),
        res.show_progress == !args.quiet,
        res.active_since is None,
        res.ignore_channels == args.ignore_channels,
        res.ignore_chat_ids@ == args.ignore_chat_ids@,
{
    daemon_sync(args, !args.quiet, None)
}

/// Where a reconciliation stands.
#[derive(Clone, Copy, Debug, PartialEq, Eq, Structural)]
pub enum ReconcileStage {
    Begin,
    AwaitDialogs,
    AwaitSync { dialogs_refreshed: u64, pending_peers: u64 },
    Finished,
}

/// A reconciliation, under the name of its occasion.
#[derive(Debug)]
pub struct ReconcileRun {
    pub stage: ReconcileStage,
    pub phase: &'static str,
}

/// What happened outside.
#[derive(Clone, Copy, Debug, PartialEq, Eq, Structural)]
pub enum ReconcileEvent {
    Started,
    /// The dialogs were refreshed, and the clock was read.
    DialogsRefreshed { dialogs_refreshed: u64, pending_peers: u64, now: Timestamp },
    Synced { messages_stored: u64, chats_stored: u64 },
    /// What was awaited failed.
    Failed,
}

/// What is to be done next.
#[derive(Debug)]
pub enum ReconcileAction {
    RefreshDialogs { ignore_chat_ids: Vec<i64>, ignore_channels: bool },
    Sync { options: SyncOptions },
    /// Nothing; the first text goes to the log, the second to the terminal.
    Finish { log: String, notice: Option<String> },
    /// Report what failed.
    Fail,
}

/// What the log says of a reconciliation.
pub open spec fn reconciled_log(
    phase: Seq<char>,
    dialogs_refreshed: nat,
    messages_stored: nat,
    chats_stored: nat,
    pending_peers: nat,
) -> Seq<char> {
    phase + " reconciliation: "@ + decimal(dialogs_refreshed) + " dialogs / "@ + decimal(
        messages_stored,
    ) + " msgs / "@ + decimal(chats_stored) + " chats / "@ + decimal(pending_peers)
        + " peers pending"@
}

/// What the terminal is told of a reconciliation.
pub open spec fn reconciled_notice(
    phase: Seq<char>,
    messages_stored: nat,
    chats_stored: nat,
    pending_peers: nat,
) -> Seq<char> {
    phase + " reconciliation complete: "@ + decimal(messages_stored) + " new messages across "@
        + decimal(chats_stored) + " chats ("@ + decimal(pending_peers) + " peers pending)"@
}

impl ReconcileRun {
    /// The event is one that the run awaits.
    pub open spec fn admits(self, event: ReconcileEvent) -> bool {
        match (self.stage, event) {
            (ReconcileStage::Begin, ReconcileEvent::Started) => true,
            (
                ReconcileStage::AwaitDialogs,
                ReconcileEvent::DialogsRefreshed { dialogs_refreshed, pending_peers, now },
            ) => catchup_fits(now),
            (ReconcileStage::AwaitDialogs, ReconcileEvent::Failed) => true,
            (
                ReconcileStage::AwaitSync { dialogs_refreshed, pending_peers },
                ReconcileEvent::Synced { messages_stored, chats_stored },
            ) => true,
            (
                ReconcileStage::AwaitSync { dialogs_refreshed, pending_peers },
                ReconcileEvent::Failed,
            ) => true,
            _ => false,
        }
    }

    /// How an event moves a run on, and what it calls for.
    pub open spec fn moves(
        self,
        args: DaemonArgs,
        event: ReconcileEvent,
        next: ReconcileRun,
        action: ReconcileAction,
    ) -> bool {
        &&& next.phase == self.phase
        &&& match (self.stage, event) {
            (ReconcileStage::Begin, _) => next.has_begun(args, self.phase@, action),
            (_, ReconcileEvent::DialogsRefreshed { dialogs_refreshed, pending_peers, now }) => {
                &&& next.stage == ReconcileStage::AwaitSync { dialogs_refreshed, pending_peers }
                &&& action matches ReconcileAction::Sync { options }
                &&& options.is_daemon_sync(args)
                &&& !options.show_progress
                &&& options.active_since == Some(catchup_start(now))
            },
            (
                ReconcileStage::AwaitSync { dialogs_refreshed, pending_peers },
                ReconcileEvent::Synced { messages_stored, chats_stored },
            ) => {
                &&& next.stage is Finished
                &&& action matches ReconcileAction::Finish { log, notice }
                &&& log@ == reconciled_log(
                    self.phase@,
                    dialogs_refreshed as nat,
                    messages_stored as nat,
                    chats_stored as nat,
                    pending_peers as nat,
                )
                &&& text_of(notice) == if args.quiet {
                    None
                } else {
                    Some(
                        reconciled_notice(
                            self.phase@,
                            messages_stored as nat,
                            chats_stored as nat,
                            pending_peers as nat,
                        ),
                    )
                }
            },
            _ => {
                &&& next.stage is Finished
                &&& action is Fail
            },
        }
    }

    /// A reconciliation has just begun, with the refresh of the dialogs.
    pub open spec fn has_begun(
        self,
        args: DaemonArgs,
        phase: Seq<char>,
        action: ReconcileAction,
    ) -> bool {
        &&& self.stage is AwaitDialogs
        &&& self.phase@ == phase
        &&& action matches ReconcileAction::RefreshDialogs { ignore_chat_ids, ignore_channels }
        &&& ignore_chat_ids@ == args.ignore_chat_ids@
        &&& ignore_channels == args.ignore_channels
    }

    /// A reconciliation that has not begun.
    pub fn start(phase: &'static str) -> (res: ReconcileRun)
        ensures
            res == (ReconcileRun { stage: ReconcileStage::Begin, phase }),
    {
        ReconcileRun { stage: ReconcileStage::Begin, phase }
    }
}

fn log_text(
    phase: &str,
    dialogs_refreshed: u64,
    messages_stored: u64,
    chats_stored: u64,
    pending_peers: u64,
) -> (res: String)
    ensures
        res@ == reconciled_log(
            phase@,
            dialogs_refreshed as nat,
            messages_stored as nat,
            chats_stored as nat,
            pending_peers as nat,
        ),
{
    let mut text = phase.to_string();
    text.append(" reconciliation: ");
    append_decimal(&mut text, dialogs_refreshed);
    text.append(" dialogs / ");
    append_decimal(&mut text, messages_stored);
    text.append(" msgs / ");
    append_decimal(&mut text, chats_stored);
    text.append(" chats / ");
    append_decimal(&mut text, pending_peers);
    text.append(" peers pending");
    text
}

fn notice_text(phase: &str, messages_stored: u64, chats_stored: u64, pending_peers: u64) -> (res:
    String)
    ensures
        res@ == reconciled_notice(
            phase@,
            messages_stored as nat,
            chats_stored as nat,
            pending_peers as nat,
        ),
{
    let mut text = phase.to_string();
    text.append(" reconciliation complete: ");
    append_decimal(&mut text, messages_stored);
    text.append(" new messages across ");
    append_decimal(&mut text, chats_stored);
    text.append(" chats (");
    append_decimal(&mut text, pending_peers);
    text.append(" peers pending)");
    text
}

/// Reconciles dialogs and recent history: moves the run on by what happened outside, and
/// returns what is to be done next.
pub fn reconcile_recent_history(
    args: &DaemonArgs,
    run: &mut ReconcileRun,
    event: ReconcileEvent,
) -> (res: ReconcileAction)
    requires
        old(run).admits(event),
    ensures
        old(run).moves(*args, event, *final(run), res),
{
    match (run.stage, event) {
        (ReconcileStage::Begin, _) => {
            run.stage = ReconcileStage::AwaitDialogs;
            ReconcileAction::RefreshDialogs {
                ignore_chat_ids: args.ignore_chat_ids.clone(),
                ignore_channels: args.ignore_channels,
            }
        },
        (_, ReconcileEvent::DialogsRefreshed { dialogs_refreshed, pending_peers, now }) => {
            run.stage = ReconcileStage::AwaitSync { dialogs_refreshed, pending_peers };
            ReconcileAction::Sync { options: reconcile_options(args, now) }
        },
        (
            ReconcileStage::AwaitSync { dialogs_refreshed, pending_peers },
            ReconcileEvent::Synced { messages_stored, chats_stored },
        ) => {
            run.stage = ReconcileStage::Finished;
            let notice = if args.quiet {
                None
            } else {
                Some(notice_text(run.phase, messages_stored, chats_stored, pending_peers))
            };
            ReconcileAction::Finish {
                log: log_text(
                    run.phase,
                    dialogs_refreshed,
                    messages_stored,
                    chats_stored,
                    pending_peers,
                ),
                notice,
            }
        },
        _ => {
            run.stage = ReconcileStage::Finished;
            ReconcileAction::Fail
        },
    }
}

} // verus!
