use tgcli::args::DaemonArgs;
use tgcli::sync::{
    backfill_options, check_catchup, reconcile_options, reconcile_recent_history, OutputMode, ReconcileAction,
    ReconcileEvent, ReconcileRun, ReconcileStage, SyncOptions,
};
use tgcli::time::Timestamp;

fn now() -> Timestamp {
    Timestamp { seconds: 1_700_000_000, nanos: 5 }
}

fn check_daemon_sync(options: &SyncOptions) {
    assert_eq!(options.output, OutputMode::Silent);
    assert!(!options.mark_read);
    assert!(!options.download_media);
    assert_eq!(options.ignore_chat_ids, vec![4, 2]);
    assert!(options.ignore_channels);
    assert!(options.incremental);
    assert_eq!(options.messages_per_chat, 50);
    assert_eq!(options.concurrency, 4);
    assert_eq!(options.chat_filter, None);
    assert_eq!(options.prune_after, None);
    assert!(!options.skip_archived);
    assert!(!options.archived_only);
}

fn args() -> DaemonArgs {
    DaemonArgs { ignore_chat_ids: vec![4, 2], ignore_channels: true, ..DaemonArgs::default() }
}

#[test]
fn a_reconciliation_goes_thirty_days_back() {
    let options = reconcile_options(&args(), now());
    check_daemon_sync(&options);
    assert!(!options.show_progress);
    assert_eq!(options.active_since, Some(Timestamp { seconds: 1_697_408_000, nanos: 5 }));
}

#[test]
fn a_background_sync_covers_everything() {
    let options = backfill_options(&args());
    check_daemon_sync(&options);
    assert!(options.show_progress);
    assert_eq!(options.active_since, None);
    assert!(!backfill_options(&DaemonArgs { quiet: true, ..args() }).show_progress);
}

fn reconcile(args: &DaemonArgs, phase: &'static str) -> (String, Option<String>) {
    let mut run = ReconcileRun::start(phase);
    match reconcile_recent_history(args, &mut run, ReconcileEvent::Started) {
        ReconcileAction::RefreshDialogs { ignore_chat_ids, ignore_channels } => {
            assert_eq!(ignore_chat_ids, args.ignore_chat_ids);
            assert_eq!(ignore_channels, args.ignore_channels);
        }
        other => panic!("{other:?}"),
    }
    let event =
        ReconcileEvent::DialogsRefreshed { dialogs_refreshed: 120, pending_peers: 3, now: now() };
    match reconcile_recent_history(args, &mut run, event) {
        ReconcileAction::Sync { options } => {
            assert_eq!(options.active_since, Some(Timestamp { seconds: 1_697_408_000, nanos: 5 }))
        }
        other => panic!("{other:?}"),
    }
    let event = ReconcileEvent::Synced { messages_stored: 17, chats_stored: 9 };
    let action = reconcile_recent_history(args, &mut run, event);
    assert_eq!(run.stage, ReconcileStage::Finished);
    match action {
        ReconcileAction::Finish { log, notice } => (log, notice),
        other => panic!("{other:?}"),
    }
}

#[test]
fn a_reconciliation_tells_what_it_found() {
    let (log, notice) = reconcile(&args(), "Startup");
    assert_eq!(log, "Startup reconciliation: 120 dialogs / 17 msgs / 9 chats / 3 peers pending");
    assert_eq!(
        notice.unwrap(),
        "Startup reconciliation complete: 17 new messages across 9 chats (3 peers pending)"
    );
    let (log, notice) = reconcile(&DaemonArgs { quiet: true, ..args() }, "Periodic");
    assert_eq!(log, "Periodic reconciliation: 120 dialogs / 17 msgs / 9 chats / 3 peers pending");
    assert_eq!(notice, None);
}

#[test]
fn a_reconciliation_fails_with_what_it_awaits() {
    let mut run = ReconcileRun::start("Periodic");
    reconcile_recent_history(&args(), &mut run, ReconcileEvent::Started);
    let action = reconcile_recent_history(&args(), &mut run, ReconcileEvent::Failed);
    assert!(matches!(action, ReconcileAction::Fail));
    assert_eq!(run.stage, ReconcileStage::Finished);
}

#[test]
fn a_clock_too_early_is_told() {
    let first = tgcli::time::MIN_SECONDS + 30 * 86_400;
    assert!(check_catchup(Timestamp { seconds: first, nanos: 0 }));
    let options = reconcile_options(&args(), Timestamp { seconds: first, nanos: 0 });
    let start = Timestamp { seconds: tgcli::time::MIN_SECONDS, nanos: 0 };
    assert_eq!(options.active_since, Some(start));
    assert!(!check_catchup(Timestamp { seconds: first - 1, nanos: 0 }));
    assert!(!check_catchup(Timestamp { seconds: 0, nanos: 1_000_000_000 }));
}
