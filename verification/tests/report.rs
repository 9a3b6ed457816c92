use tgcli::history::{HistoryAction, HistoryEvent};
use tgcli::notice::LogLevel;
use tgcli::onboarding::Health;
use tgcli::report::{
    report, ReportAction, ReportEvent, ReportRun, ReportStage, REPORT_INTERVAL_SECONDS,
};
use tgcli::time::Timestamp;

fn probed(account: Option<i64>, archive_ok: bool) -> ReportEvent {
    ReportEvent::Probed { now: Timestamp { seconds: 0, nanos: 0 }, account, archive_ok }
}

fn importing() -> ReportRun {
    let mut run = ReportRun::new(Health::default());
    report(&mut run, true, ReportEvent::TimerTicked);
    report(&mut run, true, probed(Some(5), true));
    let step = report(&mut run, true, ReportEvent::HealthWritten);
    assert!(matches!(step.action, ReportAction::ReadRequest));
    assert!(step.log.is_none());
    run
}

#[test]
fn a_tick_leads_to_a_report_and_a_page() {
    assert_eq!(REPORT_INTERVAL_SECONDS, 30);
    let mut run = ReportRun::new(Health::default());
    let step = report(&mut run, true, ReportEvent::TimerTicked);
    assert!(matches!(step.action, ReportAction::Probe { timeout_seconds: 15 }));
    let step = report(&mut run, true, probed(Some(5), true));
    match step.action {
        ReportAction::WriteHealth { text } => {
            assert!(text.contains("\"accountId\":\"5\""));
            assert!(text.contains("\"checkedAt\":\"1970-01-01T00:00:00+00:00\""));
        }
        other => panic!("{other:?}"),
    }
    assert_eq!(run.health.account_id, Some("5".to_string()));

    let mut run = importing();
    let event = HistoryEvent::RequestRead { chat_ids: vec![9] };
    let step = report(&mut run, true, ReportEvent::Imported { event });
    assert!(matches!(step.action, ReportAction::Import { action: HistoryAction::ReadState }));
    let event = HistoryEvent::StateMissing;
    let step = report(&mut run, true, ReportEvent::Imported { event });
    assert!(matches!(
        step.action,
        ReportAction::Import { action: HistoryAction::FindOldest { chat_id: 9 } }
    ));
    let step = report(&mut run, true, ReportEvent::ImportFailed { error: "locked".to_string() });
    assert!(matches!(step.action, ReportAction::Rest));
    assert_eq!(step.log.unwrap().text, "history import failed: locked");
    assert_eq!(run.stage, ReportStage::Resting);
}

#[test]
fn an_import_tells_why_it_failed() {
    let mut run = importing();
    let event = HistoryEvent::RequestRead { chat_ids: vec![1; 10_001] };
    let step = report(&mut run, true, ReportEvent::Imported { event });
    assert!(matches!(step.action, ReportAction::Rest));
    let log = step.log.unwrap();
    assert_eq!(log.level, LogLevel::Warn);
    assert_eq!(log.text, "history import failed: Too many history requests");

    let mut run = importing();
    let event = HistoryEvent::RequestRead { chat_ids: vec![1] };
    report(&mut run, true, ReportEvent::Imported { event });
    let event = HistoryEvent::StateInvalid;
    let step = report(&mut run, true, ReportEvent::Imported { event });
    assert_eq!(step.log.unwrap().text, "history import failed: Invalid history state");
}

#[test]
fn a_report_that_could_not_be_written_stops_nothing() {
    let mut run = ReportRun::new(Health::default());
    report(&mut run, true, ReportEvent::TimerTicked);
    let step = report(&mut run, true, probed(None, false));
    assert!(step.log.is_none());
    assert_eq!(run.health.error, Some("Local archive needs attention".to_string()));
    let event = ReportEvent::HealthFailed { error: "full".to_string() };
    let step = report(&mut run, true, event);
    assert!(matches!(step.action, ReportAction::ReadRequest));
    assert_eq!(step.log.unwrap().text, "health report failed: full");
    let event = HistoryEvent::RequestMissing;
    let step = report(&mut run, true, ReportEvent::Imported { event });
    assert!(matches!(step.action, ReportAction::Rest));
    let step = report(&mut run, true, ReportEvent::TimerTicked);
    assert!(matches!(step.action, ReportAction::Probe { timeout_seconds: 15 }));
}

#[test]
fn a_report_without_an_import_rests() {
    let mut run = ReportRun::new(Health::default());
    report(&mut run, false, ReportEvent::TimerTicked);
    report(&mut run, false, probed(Some(5), true));
    let step = report(&mut run, false, ReportEvent::HealthWritten);
    assert!(matches!(step.action, ReportAction::Rest));
    assert_eq!(run.stage, ReportStage::Resting);
}
