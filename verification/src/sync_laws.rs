//! What holds of every sync that the daemon asks for.

use crate::args::DaemonArgs;
use crate::backfill::{BackfillAction, BackfillEvent, BackfillStep, BackfillTask};
use crate::message::MessageUpdate;
use crate::store::StoredChat;
use crate::sync::{ReconcileAction, ReconcileEvent, ReconcileRun, SyncOptions};
use crate::time::Timestamp;
use vstd::prelude::*;

#[allow(unused_imports)]
use crate::ingest::skipped;
#[allow(unused_imports)]
use crate::ingest_laws::{is_broadcast, only_ignored_messages_are_skipped};
#[allow(unused_imports)]
use crate::notice::texts;
#[allow(unused_imports)]
use crate::sync::catchup_fits;
#[allow(unused_imports)]
use crate::text::decimal;

verus! {

/// The sync stores what is missing, fifty messages of each chat and four chats at a time, and
/// leaves no trace.
pub open spec fn stores_what_is_missing(options: SyncOptions) -> bool {
    &&& options.output is Silent
    &&& !options.mark_read
    &&& !options.download_media
    &&& options.incremental
    &&& options.messages_per_chat == 50
    &&& options.concurrency == 4
}

/// The sync covers the chat with this identifier, archived or not, a channel or not.
pub open spec fn covers(options: SyncOptions, id: i64, is_channel: bool, is_archived: bool) -> bool {
    &&& !options.ignore_chat_ids@.contains(id)
    &&& !(options.ignore_channels && is_channel)
    &&& !(options.skip_archived && is_archived)
    &&& !(options.archived_only && !is_archived)
    &&& options.chat_filter is None || options.chat_filter == Some(id)
    &&& options.prune_after is None
}

/// A reconciliation recovers what the listener would have heard: its sync covers a chat exactly
/// when the daemon does not ignore it, archived or not, and goes thirty days back from the time
/// at which the dialogs were refreshed, to the nanosecond.
pub proof fn reconciliation_covers_what_is_heard(
    args: DaemonArgs,
    run: ReconcileRun,
    event: ReconcileEvent,
    next: ReconcileRun,
    options: SyncOptions,
    id: i64,
    is_channel: bool,
    is_archived: bool,
)
    requires
        run.admits(event),
        run.moves(args, event, next, (ReconcileAction::Sync { options })),
    ensures
        covers(options, id, is_channel, is_archived) <==> !args.ignore_chat_ids@.contains(id) && !(
        args.ignore_channels && is_channel),
        options.ignore_channels == args.ignore_channels,
        options.ignore_chat_ids@ == args.ignore_chat_ids@,
        stores_what_is_missing(options),
        !options.show_progress,
        event matches ReconcileEvent::DialogsRefreshed { now, .. } && (
        options.active_since matches Some(since) && now.seconds - since.seconds == 30 * 24 * 60 * 60
            && since.nanos == now.nanos),
{
}

/// Refreshing the dialogs is the first thing that a reconciliation asks for, with the same chats
/// left out, and the sync comes after it; what fails is reported, and nothing else is.
pub proof fn reconciliation_goes_in_order(
    args: DaemonArgs,
    run: ReconcileRun,
    event: ReconcileEvent,
    next: ReconcileRun,
    action: ReconcileAction,
)
    requires
        run.admits(event),
        run.moves(args, event, next, action),
    ensures
        event is Started <==> action is RefreshDialogs,
        event is DialogsRefreshed <==> action is Sync,
        event is Synced <==> action is Finish,
        event is Failed <==> action is Fail,
        action matches ReconcileAction::RefreshDialogs { ignore_chat_ids, ignore_channels } ==> {
            &&& ignore_chat_ids@ == args.ignore_chat_ids@
            &&& ignore_channels == args.ignore_channels
        },
        next.phase == run.phase,
        !(event is Failed) ==> !(next.admits(ReconcileEvent::Started)),
{
}

/// What a reconciliation tells are the numbers that it was given, each in its place: how many
/// dialogs there were and how many peers are pending from the refresh, how many messages and
/// chats from the sync.
pub proof fn reconciliation_tells_its_numbers(
    args: DaemonArgs,
    before: ReconcileRun,
    refreshed: ReconcileEvent,
    run: ReconcileRun,
    sync: ReconcileAction,
    synced: ReconcileEvent,
    next: ReconcileRun,
    log: String,
    notice: Option<String>,
)
    requires
        before.admits(refreshed),
        before.moves(args, refreshed, run, sync),
        run.admits(synced),
        run.moves(args, synced, next, (ReconcileAction::Finish { log, notice })),
    ensures
        (refreshed matches ReconcileEvent::DialogsRefreshed { dialogs_refreshed, pending_peers, .. }
            && synced matches ReconcileEvent::Synced { messages_stored, chats_stored } && {
            let messages = decimal(messages_stored as nat);
            let chats = decimal(chats_stored as nat);
            let pending = decimal(pending_peers as nat);
            &&& log@ == before.phase@ + " reconciliation: "@ + decimal(dialogs_refreshed as nat)
                + " dialogs / "@ + messages + " msgs / "@ + chats + " chats / "@ + pending
                + " peers pending"@
            &&& args.quiet <==> notice is None
            &&& notice matches Some(text) ==> text@ == before.phase@
                + " reconciliation complete: "@ + messages + " new messages across "@ + chats
                + " chats ("@ + pending + " peers pending)"@
        }),
{
}

/// The background sync covers the same chats as the listener, however long they were silent.
pub proof fn the_background_sync_covers_what_is_heard(
    args: DaemonArgs,
    task: BackfillTask,
    event: BackfillEvent,
    next: BackfillTask,
    step: BackfillStep,
    options: SyncOptions,
    id: i64,
    is_channel: bool,
    is_archived: bool,
)
    requires
        task.admits(event),
        task.moves(args, event, next, step),
        step.action == (BackfillAction::Sync { options }),
    ensures
        covers(options, id, is_channel, is_archived) <==> !args.ignore_chat_ids@.contains(id) && !(
        args.ignore_channels && is_channel),
        options.ignore_channels == args.ignore_channels,
        options.ignore_chat_ids@ == args.ignore_chat_ids@,
        stores_what_is_missing(options),
        options.show_progress <==> !args.quiet,
        options.active_since is None,
{
}

/// The background sync waits two seconds, opens an application of its own and syncs, unless it is
/// stopped meanwhile; it counts as running from the end of the wait to the end of the sync.
pub proof fn the_background_sync_goes_in_order(
    args: DaemonArgs,
    task: BackfillTask,
    event: BackfillEvent,
    next: BackfillTask,
    step: BackfillStep,
)
    requires
        task.admits(event),
        task.moves(args, event, next, step),
    ensures
        event is Started <==> step.action == (BackfillAction::Delay { seconds: 2 }),
        step.action is OpenApp <==> (event matches BackfillEvent::DelayOver { stopping }
            && !stopping),
        step.action is Sync <==> event is AppOpened,
        step.action is Fail <==> event is AppFailed,
        event is Synced || event is SyncFailed || event is Cancelled ==> step.action is Done,
        next.progress() is Running <==> step.action is OpenApp || step.action is Sync,
        next.progress() is Over <==> step.action is Done || step.action is Fail,
{
}

/// What the background sync says: that it starts, what it stored, and why it failed, unless the
/// daemon is stopping anyway or quiet; a failure that is told is logged too.
pub proof fn the_background_sync_says_what_it_does(
    args: DaemonArgs,
    task: BackfillTask,
    event: BackfillEvent,
    next: BackfillTask,
    step: BackfillStep,
)
    requires
        task.admits(event),
        task.moves(args, event, next, step),
    ensures
        args.quiet ==> step.notices@.len() == 0,
        !args.quiet ==> match event {
            BackfillEvent::DelayOver { stopping: false } => step.notices@.len() == 1
                && step.notices@[0]@ == "Background sync starting..."@,
            BackfillEvent::Synced { chats_stored, messages_stored } => step.notices@.len() == 1
                && step.notices@[0]@ == "Background sync complete: "@ + decimal(chats_stored as nat)
                + " chats, "@ + decimal(messages_stored as nat) + " messages"@,
            BackfillEvent::SyncFailed { error, stopping: false } => step.notices@.len() == 1
                && step.notices@[0]@ == "Background sync failed: "@ + error@,
            _ => step.notices@.len() == 0,
        },
        step.log is Some <==> (event matches BackfillEvent::SyncFailed { stopping, .. }
            && !stopping),
        step.log matches Some(line) ==> line.level is Error,
        step.log matches Some(line) ==> (event matches BackfillEvent::SyncFailed { error, .. }
            && line.text@ == "Background sync failed: "@ + error@),
{
    assert(args.quiet ==> texts(step.notices@).len() == 0);
    assert(texts(step.notices@).len() == step.notices@.len());
    if step.notices@.len() > 0 {
        assert(texts(step.notices@)[0] == step.notices@[0]@);
    }
}

/// The syncs and the listener agree: a chat is covered by either sync exactly when the listener
/// does not skip a message in it.
pub proof fn syncs_and_the_listener_agree(
    args: DaemonArgs,
    run: ReconcileRun,
    event: ReconcileEvent,
    next: ReconcileRun,
    recent: SyncOptions,
    task: BackfillTask,
    task_event: BackfillEvent,
    next_task: BackfillTask,
    step: BackfillStep,
    all: SyncOptions,
    message: MessageUpdate,
    existing: Option<StoredChat>,
    is_archived: bool,
)
    requires
        run.admits(event),
        run.moves(args, event, next, (ReconcileAction::Sync { options: recent })),
        task.admits(task_event),
        task.moves(args, task_event, next_task, step),
        step.action == (BackfillAction::Sync { options: all }),
        message.located(),
    ensures
        ({
            let id = message.chat_id() as i64;
            let is_channel = is_broadcast(message, existing);
            let skips = skipped(args, args.ignore_chat_ids@.to_set(), message, existing);
            &&& covers(recent, id, is_channel, is_archived) <==> !skips
            &&& covers(all, id, is_channel, is_archived) <==> !skips
        }),
{
    only_ignored_messages_are_skipped(args, args.ignore_chat_ids@.to_set(), message, existing);
    assert(args.ignore_chat_ids@.to_set().contains(message.chat_id() as i64)
        <==> args.ignore_chat_ids@.contains(message.chat_id() as i64));
}

/// A reconciliation goes on from any time from which thirty days can be counted back.
pub proof fn any_recent_time_will_do(now: Timestamp)
    ensures
        catchup_fits(now) <==> -8_334_601_228_800 + 30 * 24 * 60 * 60 <= now.seconds
            <= 8_210_266_876_799 && now.nanos < 1_000_000_000,
{
}

/// What a sync asked for may be answered, and may fail.
pub proof fn syncs_take_any_answer(
    run: ReconcileRun,
    refreshed: ReconcileEvent,
    synced: ReconcileEvent,
    task: BackfillTask,
    event: BackfillEvent,
)
    ensures
        run.stage is Begin ==> run.admits(ReconcileEvent::Started),
        run.stage is AwaitDialogs ==> (refreshed matches ReconcileEvent::DialogsRefreshed {
            now,
            ..
        } && catchup_fits(now) ==> run.admits(refreshed)),
        run.stage is AwaitSync && synced is Synced ==> run.admits(synced),
        run.admits(ReconcileEvent::Failed) <==> run.stage is AwaitDialogs || run.stage is AwaitSync,
        task.stage is Begin && event is Started ==> task.admits(event),
        task.stage is AwaitDelay && (event is DelayOver || event is Cancelled) ==> task.admits(
            event,
        ),
        task.stage is AwaitApp && (event is AppOpened || event is AppFailed) ==> task.admits(event),
        task.stage is AwaitSync && (event is Synced || event is SyncFailed) ==> task.admits(event),
{
}

} // verus!
