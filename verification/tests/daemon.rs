use grammers_session::defs::PeerId;
use tgcli::args::DaemonArgs;
use tgcli::backfill::BackfillPhase;
use tgcli::daemon::{
    run, DaemonAction, DaemonEvent, DaemonRun, DaemonStage, DaemonStep, LiveUpdate,
};
use tgcli::history::HistoryEvent;
use tgcli::ingest::{PersistAction, PersistEvent};
use tgcli::message::{MessageUpdate, RawMessage, RawUpdate};
use tgcli::notice::LogLevel;
use tgcli::onboarding::Health;
use tgcli::report::{ReportAction, ReportEvent};
use tgcli::sync::{ReconcileAction, ReconcileEvent};
use tgcli::time::Timestamp;

const PENDING: BackfillPhase = BackfillPhase::Pending;

fn opened_app() -> DaemonEvent {
    DaemonEvent::AppOpened { health: Health::default() }
}

fn now() -> Timestamp {
    Timestamp { seconds: 1_700_000_000, nanos: 0 }
}

fn message() -> MessageUpdate {
    MessageUpdate {
        id: 7,
        peer_id: PeerId::user(42),
        peer: None,
        sender: None,
        outgoing: false,
        text: "hi".to_string(),
        date: now(),
        reply_to: None,
        has_media: false,
        raw: RawUpdate::NewMessage(RawMessage::Empty),
    }
}

fn lines(step: &DaemonStep) -> Vec<&str> {
    step.notices.iter().map(String::as_str).collect()
}

fn opened(args: DaemonArgs) -> (DaemonRun, DaemonStep) {
    let mut daemon = DaemonRun::new(args);
    let step = run(&mut daemon, DaemonEvent::Started, PENDING);
    assert!(matches!(step.action, DaemonAction::OpenApp));
    let step = run(&mut daemon, opened_app(), PENDING);
    (daemon, step)
}

fn listening(args: DaemonArgs) -> DaemonRun {
    let skips = args.no_startup_catchup;
    let no_backfill = args.no_backfill;
    let (mut daemon, step) = opened(args);
    if skips {
        assert!(matches!(step.action, DaemonAction::TakeReceiver));
    } else {
        reconcile(&mut daemon);
    }
    let step = run(&mut daemon, DaemonEvent::ReceiverTaken, PENDING);
    assert!(matches!(step.action, DaemonAction::StartStream { catch_up: true }));
    let mut step = run(&mut daemon, DaemonEvent::StreamStarted, PENDING);
    if !no_backfill {
        assert!(matches!(step.action, DaemonAction::SpawnBackfill));
        step = run(&mut daemon, DaemonEvent::BackfillSpawned, PENDING);
    }
    assert!(matches!(step.action, DaemonAction::StartTimer { .. }));
    let step = run(&mut daemon, DaemonEvent::TimerStarted, PENDING);
    assert!(matches!(step.action, DaemonAction::Listen { .. }));
    daemon
}

fn reconcile(daemon: &mut DaemonRun) -> DaemonStep {
    let event =
        ReconcileEvent::DialogsRefreshed { dialogs_refreshed: 1, pending_peers: 2, now: now() };
    let step = run(daemon, DaemonEvent::Reconciled { event }, PENDING);
    assert!(matches!(
        step.action,
        DaemonAction::Reconcile { action: ReconcileAction::Sync { .. } }
    ));
    let event = ReconcileEvent::Synced { messages_stored: 3, chats_stored: 4 };
    run(daemon, DaemonEvent::Reconciled { event }, PENDING)
}

fn receive(daemon: &mut DaemonRun, update: LiveUpdate) -> DaemonStep {
    run(daemon, DaemonEvent::UpdateReceived { update }, PENDING)
}

fn skipping() -> DaemonArgs {
    DaemonArgs { no_startup_catchup: true, ..DaemonArgs::default() }
}

fn error(text: &str) -> String {
    text.to_string()
}

#[test]
fn catches_up_before_it_listens() {
    let (mut daemon, step) = opened(DaemonArgs::default());
    assert_eq!(lines(&step), vec!["Startup catch-up sync..."]);
    assert!(matches!(
        step.action,
        DaemonAction::Reconcile { action: ReconcileAction::RefreshDialogs { .. } }
    ));
    let step = reconcile(&mut daemon);
    assert!(matches!(step.action, DaemonAction::TakeReceiver));
    assert_eq!(
        lines(&step),
        vec!["Startup reconciliation complete: 3 new messages across 4 chats (2 peers pending)"]
    );
    let log = step.log.unwrap();
    assert_eq!(log.level, LogLevel::Info);
    assert_eq!(
        log.text,
        "Startup reconciliation: 1 dialogs / 3 msgs / 4 chats / 2 peers pending"
    );
}

#[test]
fn a_failed_catch_up_is_not_fatal() {
    let (mut daemon, _) = opened(DaemonArgs::default());
    let event = DaemonEvent::ReconcileFailed { error: error("offline") };
    let step = run(&mut daemon, event, PENDING);
    assert!(matches!(step.action, DaemonAction::TakeReceiver));
    assert_eq!(lines(&step), vec!["Startup catch-up failed (continuing): offline"]);
    let log = step.log.unwrap();
    assert_eq!(log.level, LogLevel::Warn);
    assert_eq!(log.text, "startup catch-up failed (continuing to live listen): offline");
}

#[test]
fn says_what_it_starts() {
    let (mut daemon, _) = opened(skipping());
    let step = run(&mut daemon, DaemonEvent::ReceiverTaken, PENDING);
    assert_eq!(lines(&step), vec!["Daemon starting...", "  Listening for real-time updates"]);
    let step = run(&mut daemon, DaemonEvent::StreamStarted, PENDING);
    assert_eq!(lines(&step), vec!["Daemon ready. Press Ctrl+C to stop."]);
    assert!(matches!(step.action, DaemonAction::StartTimer { period_seconds: 10_800, report_seconds: 30 }));

    let (mut daemon, _) = opened(DaemonArgs { no_backfill: false, ..skipping() });
    let step = run(&mut daemon, DaemonEvent::ReceiverTaken, PENDING);
    assert_eq!(
        lines(&step),
        vec![
            "Daemon starting...",
            "  Listening for real-time updates",
            "  Background sync will start after connection established",
        ]
    );
    let step = run(&mut daemon, DaemonEvent::StreamStarted, PENDING);
    assert!(matches!(step.action, DaemonAction::SpawnBackfill));
    let step = run(&mut daemon, DaemonEvent::BackfillSpawned, PENDING);
    assert_eq!(lines(&step), vec!["Daemon ready. Press Ctrl+C to stop."]);
}

#[test]
fn fails_where_it_cannot_begin() {
    let mut daemon = DaemonRun::new(skipping());
    run(&mut daemon, DaemonEvent::Started, PENDING);
    let step = run(&mut daemon, DaemonEvent::Failed, PENDING);
    assert!(matches!(step.action, DaemonAction::Fail { context: None }));

    let (mut daemon, _) = opened(skipping());
    let step = run(&mut daemon, DaemonEvent::Failed, PENDING);
    match step.action {
        DaemonAction::Fail { context } => {
            assert_eq!(context.unwrap(), "Updates receiver not available")
        }
        other => panic!("{other:?}"),
    }
    assert_eq!(daemon.stage, DaemonStage::Finished);
}

#[test]
fn ticks_only_where_it_may() {
    for (seconds, backfill, expected) in [
        (10, BackfillPhase::Pending, true),
        (10, BackfillPhase::Running, false),
        (10, BackfillPhase::Over, true),
        (0, BackfillPhase::Pending, false),
        (0, BackfillPhase::Running, false),
    ] {
        let (mut daemon, _) =
            opened(DaemonArgs { reconcile_interval_seconds: seconds, ..skipping() });
        run(&mut daemon, DaemonEvent::ReceiverTaken, PENDING);
        run(&mut daemon, DaemonEvent::StreamStarted, PENDING);
        let step = run(&mut daemon, DaemonEvent::TimerStarted, backfill);
        match step.action {
            DaemonAction::Listen { ticks } => assert_eq!(ticks, expected),
            other => panic!("{other:?}"),
        }
    }
}

#[test]
fn reconciles_when_the_timer_ticks() {
    let mut daemon = listening(skipping());
    let step = run(&mut daemon, DaemonEvent::TimerTicked, PENDING);
    assert_eq!(lines(&step), vec!["Periodic reconciliation sync..."]);
    let step = reconcile(&mut daemon);
    assert!(matches!(step.action, DaemonAction::Listen { ticks: true }));
    assert_eq!(
        lines(&step),
        vec!["Periodic reconciliation complete: 3 new messages across 4 chats (2 peers pending)"]
    );

    run(&mut daemon, DaemonEvent::TimerTicked, PENDING);
    let event = DaemonEvent::ReconcileFailed { error: error("offline") };
    let step = run(&mut daemon, event, PENDING);
    assert!(matches!(step.action, DaemonAction::Listen { ticks: true }));
    assert_eq!(lines(&step), vec!["Periodic reconciliation failed (will retry): offline"]);
    assert_eq!(step.log.unwrap().text, "periodic reconciliation failed (will retry): offline");
}

#[test]
fn stores_messages_and_counts_them() {
    let mut daemon = listening(skipping());
    let step = receive(&mut daemon, LiveUpdate::NewMessage(message()));
    assert!(matches!(step.action, DaemonAction::OpenStore));
    assert_eq!((daemon.messages_received, daemon.messages_stored), (1, 0));
    run(&mut daemon, DaemonEvent::Persisted { event: PersistEvent::StoreOpened }, PENDING);
    let event = PersistEvent::ChatFound { chat: None, now: now() };
    let step = run(&mut daemon, DaemonEvent::Persisted { event }, PENDING);
    match step.action {
        DaemonAction::Persist { action: PersistAction::WriteMessage { params, chat_kind } } => {
            assert_eq!(params.sender_id, 42);
            assert_eq!(chat_kind, "user");
            assert_eq!(params.edit_ts, None);
        }
        other => panic!("{other:?}"),
    }
    let event = PersistEvent::MessageWritten;
    let step = run(&mut daemon, DaemonEvent::Persisted { event }, BackfillPhase::Running);
    assert!(matches!(step.action, DaemonAction::Listen { ticks: false }));
    let log = step.log.unwrap();
    assert_eq!(log.level, LogLevel::Warn);
    assert_eq!(
        log.text,
        "Message 7 in chat 42 persisted using raw peer ID; peer enrichment queued"
    );
    assert_eq!((daemon.messages_received, daemon.messages_stored), (1, 1));
}

#[test]
fn stores_edits_with_their_time() {
    let mut daemon = listening(skipping());
    receive(&mut daemon, LiveUpdate::MessageEdited(message()));
    run(&mut daemon, DaemonEvent::Persisted { event: PersistEvent::StoreOpened }, PENDING);
    let event = PersistEvent::ChatFound { chat: None, now: now() };
    let step = run(&mut daemon, DaemonEvent::Persisted { event }, PENDING);
    match step.action {
        DaemonAction::Persist { action: PersistAction::WriteMessage { params, .. } } => {
            assert_eq!(params.edit_ts, Some(now()))
        }
        other => panic!("{other:?}"),
    }
}

#[test]
fn a_message_that_cannot_be_stored_ends_the_daemon() {
    let mut daemon = listening(skipping());
    receive(&mut daemon, LiveUpdate::NewMessage(message()));
    let event = PersistEvent::Failed { error: error("locked") };
    let step = run(&mut daemon, DaemonEvent::Persisted { event }, PENDING);
    assert!(matches!(step.action, DaemonAction::Fail { context: None }));
    assert_eq!(daemon.stage, DaemonStage::Finished);
    assert_eq!((daemon.messages_received, daemon.messages_stored), (1, 0));
}

#[test]
fn deletions_are_told_and_nothing_else() {
    let deletion = || {
        LiveUpdate::MessageDeleted(RawUpdate::DeleteChannelMessages {
            channel_id: 9,
            messages: vec![1, 2],
        })
    };
    let mut daemon = listening(DaemonArgs { stream: true, ..skipping() });
    match receive(&mut daemon, deletion()).action {
        DaemonAction::WriteLine { line } => assert_eq!(
            line,
            "{\"chat_id\":9,\"message_ids\":[1,2],\"type\":\"message_deleted\"}"
        ),
        other => panic!("{other:?}"),
    }
    let step = run(&mut daemon, DaemonEvent::LineWritten, PENDING);
    assert!(matches!(step.action, DaemonAction::Listen { ticks: true }));

    let mut daemon = listening(skipping());
    let step = receive(&mut daemon, deletion());
    assert!(matches!(step.action, DaemonAction::Listen { ticks: true }));
    assert_eq!((daemon.messages_received, daemon.messages_stored), (1, 0));
}

#[test]
fn other_updates_are_counted_and_passed_over() {
    let mut daemon = listening(DaemonArgs { stream: true, ..skipping() });
    let step = receive(&mut daemon, LiveUpdate::Other);
    assert!(matches!(step.action, DaemonAction::Listen { ticks: true }));
    let step = receive(&mut daemon, LiveUpdate::MessageDeleted(RawUpdate::Other));
    assert!(matches!(step.action, DaemonAction::Listen { ticks: true }));
    assert_eq!(daemon.messages_received, 2);
}

#[test]
fn only_a_dropped_stream_is_fatal() {
    let mut daemon = listening(skipping());
    let event = DaemonEvent::StreamFailed { error: error("timeout") };
    let step = run(&mut daemon, event, PENDING);
    assert!(matches!(step.action, DaemonAction::Listen { ticks: true }));
    assert_eq!(lines(&step), vec!["Update stream error: timeout"]);
    assert_eq!(step.log.unwrap().level, LogLevel::Error);

    let event = DaemonEvent::StreamFailed { error: error("request was Dropped") };
    let step = run(&mut daemon, event, PENDING);
    assert!(matches!(step.action, DaemonAction::SyncSession));
    assert_eq!(
        lines(&step),
        vec!["Update stream error: request was Dropped", "Syncing session state..."]
    );
}

#[test]
fn stops_gracefully() {
    let mut daemon = listening(skipping());
    receive(&mut daemon, LiveUpdate::Other);
    let step = run(&mut daemon, DaemonEvent::StopRequested, PENDING);
    assert_eq!(lines(&step), vec!["\nShutting down gracefully...", "Syncing session state..."]);
    assert!(matches!(step.action, DaemonAction::SyncSession));
    let step = run(&mut daemon, DaemonEvent::SessionSynced, PENDING);
    assert_eq!(lines(&step), vec!["Daemon stopped. Updates received: 1, stored: 0"]);
    assert!(matches!(step.action, DaemonAction::Done));
    assert_eq!(daemon.stage, DaemonStage::Finished);
}

#[test]
fn waits_for_the_background_sync() {
    for (running, expected) in [
        (
            BackfillPhase::Running,
            vec!["\nShutting down gracefully...", "Waiting for background sync to complete..."],
        ),
        (BackfillPhase::Over, vec!["\nShutting down gracefully..."]),
    ] {
        let mut daemon = listening(DaemonArgs { no_backfill: false, ..skipping() });
        let step = run(&mut daemon, DaemonEvent::StopRequested, running);
        assert_eq!(lines(&step), expected);
        assert!(matches!(step.action, DaemonAction::AwaitBackfill { timeout_seconds: 5 }));
        let step = run(&mut daemon, DaemonEvent::BackfillAwaited, PENDING);
        assert_eq!(lines(&step), vec!["Syncing session state..."]);
        assert!(matches!(step.action, DaemonAction::SyncSession));
    }
}

#[test]
fn a_quiet_daemon_is_silent_throughout() {
    let mut daemon = listening(DaemonArgs { quiet: true, ..DaemonArgs::default() });
    let step = run(&mut daemon, DaemonEvent::TimerTicked, PENDING);
    assert!(step.notices.is_empty());
    let step = reconcile(&mut daemon);
    assert!(step.notices.is_empty());
    let event = DaemonEvent::StreamFailed { error: error("Dropped") };
    let step = run(&mut daemon, event, PENDING);
    assert!(step.notices.is_empty());
    let step = run(&mut daemon, DaemonEvent::SessionSynced, PENDING);
    assert!(step.notices.is_empty());
}

fn deletion(channel_id: i64) -> LiveUpdate {
    LiveUpdate::MessageDeleted(RawUpdate::DeleteChannelMessages { channel_id, messages: vec![1] })
}

#[test]
fn deletions_in_ignored_chats_are_not_told() {
    let args = DaemonArgs { stream: true, ignore_chat_ids: vec![9], ..skipping() };
    let mut daemon = listening(args);
    let step = receive(&mut daemon, deletion(9));
    assert!(matches!(step.action, DaemonAction::Listen { ticks: true }));
    let step = receive(&mut daemon, deletion(8));
    assert!(matches!(step.action, DaemonAction::WriteLine { .. }));
    assert_eq!(daemon.messages_received, 2);
}

#[test]
fn deletions_in_ignored_channels_are_not_told() {
    for (kind, told) in [(None, false), (Some("channel"), false), (Some("group"), true)] {
        let args = DaemonArgs { stream: true, ignore_channels: true, ..skipping() };
        let mut daemon = listening(args);
        let step = receive(&mut daemon, deletion(9));
        assert!(matches!(step.action, DaemonAction::FindDeletionChat { chat_id: 9 }));
        let event = DaemonEvent::DeletionChatFound { kind: kind.map(String::from) };
        let step = run(&mut daemon, event, PENDING);
        if told {
            match step.action {
                DaemonAction::WriteLine { line } => assert_eq!(
                    line,
                    "{\"chat_id\":9,\"message_ids\":[1],\"type\":\"message_deleted\"}"
                ),
                other => panic!("{other:?}"),
            }
        } else {
            assert!(matches!(step.action, DaemonAction::Listen { ticks: true }));
        }
    }
    let args = DaemonArgs { stream: true, ignore_channels: true, ..skipping() };
    let mut daemon = listening(args);
    let anywhere = RawUpdate::DeleteMessages { messages: vec![1] };
    let step = receive(&mut daemon, LiveUpdate::MessageDeleted(anywhere));
    assert!(matches!(step.action, DaemonAction::WriteLine { .. }));
}

fn report(daemon: &mut DaemonRun, backfill: BackfillPhase) -> DaemonStep {
    let step = run(daemon, DaemonEvent::ReportTicked, backfill);
    assert!(matches!(
        step.action,
        DaemonAction::Report { action: ReportAction::Probe { timeout_seconds: 15 } }
    ));
    let event = ReportEvent::Probed { now: now(), account: Some(5), archive_ok: true };
    let step = run(daemon, DaemonEvent::Reported { event }, backfill);
    assert!(matches!(
        step.action,
        DaemonAction::Report { action: ReportAction::WriteHealth { .. } }
    ));
    let event = ReportEvent::HealthWritten;
    run(daemon, DaemonEvent::Reported { event }, backfill)
}

#[test]
fn reports_and_imports_when_it_is_time() {
    let mut daemon = listening(skipping());
    let step = report(&mut daemon, PENDING);
    assert!(matches!(step.action, DaemonAction::Report { action: ReportAction::ReadRequest }));
    let event = ReportEvent::Imported { event: HistoryEvent::RequestMissing };
    let step = run(&mut daemon, DaemonEvent::Reported { event }, PENDING);
    assert!(matches!(step.action, DaemonAction::Listen { ticks: true }));
    assert_eq!(daemon.report.health.account_id, Some("5".to_string()));
}

#[test]
fn imports_nothing_beside_the_background_sync() {
    for (backfill, imports) in [
        (BackfillPhase::Pending, false),
        (BackfillPhase::Running, false),
        (BackfillPhase::Over, true),
    ] {
        let mut daemon = listening(DaemonArgs { no_backfill: false, ..skipping() });
        let step = report(&mut daemon, backfill);
        if imports {
            assert!(matches!(
                step.action,
                DaemonAction::Report { action: ReportAction::ReadRequest }
            ));
        } else {
            assert!(matches!(step.action, DaemonAction::Listen { .. }));
        }
    }
}

#[test]
fn goes_on_from_the_health_last_reported() {
    let mut daemon = DaemonRun::new(skipping());
    run(&mut daemon, DaemonEvent::Started, PENDING);
    let health = Health { account_id: Some("8".to_string()), ..Health::default() };
    run(&mut daemon, DaemonEvent::AppOpened { health }, PENDING);
    assert_eq!(daemon.report.health.account_id, Some("8".to_string()));
}
