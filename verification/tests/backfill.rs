use tgcli::args::DaemonArgs;
use tgcli::backfill::{
    run_backfill, BackfillAction, BackfillEvent, BackfillPhase, BackfillStage, BackfillStep,
    BackfillTask,
};
use tgcli::notice::LogLevel;

fn tell(args: &DaemonArgs, task: &mut BackfillTask, event: BackfillEvent) -> BackfillStep {
    run_backfill(args, task, event)
}

fn syncing(args: &DaemonArgs) -> BackfillTask {
    let mut task = BackfillTask::new();
    let step = tell(args, &mut task, BackfillEvent::Started);
    assert!(matches!(step.action, BackfillAction::Delay { seconds: 2 }));
    assert_ne!(task.phase(), BackfillPhase::Running);
    let step = tell(args, &mut task, BackfillEvent::DelayOver { stopping: false });
    assert!(matches!(step.action, BackfillAction::OpenApp));
    if args.quiet {
        assert!(step.notices.is_empty());
    } else {
        assert_eq!(step.notices, vec!["Background sync starting...".to_string()]);
    }
    assert_eq!(task.phase(), BackfillPhase::Running);
    let step = tell(args, &mut task, BackfillEvent::AppOpened);
    match step.action {
        BackfillAction::Sync { options } => assert_eq!(options.show_progress, !args.quiet),
        other => panic!("{other:?}"),
    }
    assert_eq!(task.phase(), BackfillPhase::Running);
    task
}

#[test]
fn a_background_sync_tells_what_it_stored() {
    let args = DaemonArgs::default();
    let mut task = syncing(&args);
    let event = BackfillEvent::Synced { chats_stored: 5, messages_stored: 250 };
    let step = tell(&args, &mut task, event);
    assert_eq!(step.notices, vec!["Background sync complete: 5 chats, 250 messages".to_string()]);
    assert!(matches!(step.action, BackfillAction::Done));
    assert_ne!(task.phase(), BackfillPhase::Running);
    assert_eq!(task.stage, BackfillStage::Finished);
}

#[test]
fn a_failed_background_sync_runs_no_more() {
    let args = DaemonArgs::default();
    let mut task = syncing(&args);
    let event = BackfillEvent::SyncFailed { error: "flood".to_string(), stopping: false };
    let step = tell(&args, &mut task, event);
    assert_eq!(step.notices, vec!["Background sync failed: flood".to_string()]);
    let log = step.log.unwrap();
    assert_eq!(log.level, LogLevel::Error);
    assert_eq!(log.text, "Background sync failed: flood");
    assert!(matches!(step.action, BackfillAction::Done));
    assert_ne!(task.phase(), BackfillPhase::Running);
}

#[test]
fn a_sync_that_fails_while_stopping_says_nothing() {
    let args = DaemonArgs::default();
    let mut task = syncing(&args);
    let event = BackfillEvent::SyncFailed { error: "flood".to_string(), stopping: true };
    let step = tell(&args, &mut task, event);
    assert!(step.notices.is_empty());
    assert!(step.log.is_none());
    assert_ne!(task.phase(), BackfillPhase::Running);
}

#[test]
fn a_quiet_background_sync_says_nothing() {
    let args = DaemonArgs { quiet: true, ..DaemonArgs::default() };
    let mut task = syncing(&args);
    let event = BackfillEvent::SyncFailed { error: "flood".to_string(), stopping: false };
    let step = tell(&args, &mut task, event);
    assert!(step.notices.is_empty());
    assert_eq!(step.log.unwrap().text, "Background sync failed: flood");
}

#[test]
fn a_stop_during_the_delay_ends_the_task() {
    let args = DaemonArgs::default();
    for event in [BackfillEvent::Cancelled, BackfillEvent::DelayOver { stopping: true }] {
        let mut task = BackfillTask::new();
        tell(&args, &mut task, BackfillEvent::Started);
        let step = tell(&args, &mut task, event);
        assert!(matches!(step.action, BackfillAction::Done));
        assert!(step.notices.is_empty());
        assert_ne!(task.phase(), BackfillPhase::Running);
    }
}

#[test]
fn a_task_without_its_application_is_over() {
    let args = DaemonArgs::default();
    let mut task = BackfillTask::new();
    assert_eq!(task.phase(), BackfillPhase::Pending);
    tell(&args, &mut task, BackfillEvent::Started);
    assert_eq!(task.phase(), BackfillPhase::Pending);
    tell(&args, &mut task, BackfillEvent::DelayOver { stopping: false });
    assert_eq!(task.phase(), BackfillPhase::Running);
    let step = tell(&args, &mut task, BackfillEvent::AppFailed);
    assert!(matches!(step.action, BackfillAction::Fail));
    assert_eq!(task.phase(), BackfillPhase::Over);
}
