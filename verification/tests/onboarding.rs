use tgcli::onboarding::{health_json, probe, record_probe, Health, CONTRACT};
use tgcli::private_file::{temporary_extension, write_private_json, WriteAction, WriteEvent, WriteStage};
use tgcli::time::Timestamp;
use tgcli::version;

fn text(value: &str) -> Option<String> {
    Some(value.to_string())
}

#[test]
fn a_probe_tells_the_account() {
    let mut health = Health::default();
    let report = probe(&mut health, Timestamp { seconds: 86_400, nanos: 0 }, Some(-7), true);
    assert_eq!(
        report,
        "{\"contract\":\"northstar-macos-v1\",\"checkedAt\":\"1970-01-02T00:00:00+00:00\",\
         \"connectedAt\":\"1970-01-02T00:00:00+00:00\",\
         \"captureCheckedAt\":\"1970-01-02T00:00:00+00:00\",\"accountId\":\"-7\",\
         \"error\":null}"
    );
    assert_eq!(health.contract, "northstar-macos-v1");
    assert_eq!(health.checked_at, "1970-01-02T00:00:00+00:00");
    assert_eq!(health.connected_at, text("1970-01-02T00:00:00+00:00"));
    assert_eq!(health.capture_checked_at, text("1970-01-02T00:00:00+00:00"));
    assert_eq!(health.account_id, text("-7"));
    assert_eq!(health.error, None);
}

#[test]
fn failures_keep_what_was_known() {
    let mut health = Health::default();
    record_probe(&mut health, "one".to_string(), Some(7), true);
    record_probe(&mut health, "two".to_string(), None, true);
    assert_eq!(health.checked_at, "two");
    assert_eq!(health.connected_at, text("one"));
    assert_eq!(health.capture_checked_at, text("two"));
    assert_eq!(health.account_id, text("7"));
    assert_eq!(health.error, text("Telegram connection needs attention"));
    record_probe(&mut health, "three".to_string(), Some(8), false);
    assert_eq!(health.connected_at, text("three"));
    assert_eq!(health.capture_checked_at, text("two"));
    assert_eq!(health.account_id, text("8"));
    assert_eq!(health.error, text("Local archive needs attention"));
    record_probe(&mut health, "four".to_string(), None, false);
    assert_eq!(health.error, text("Local archive needs attention"));
    record_probe(&mut health, "five".to_string(), Some(8), true);
    assert_eq!(health.error, None);
}

#[test]
fn a_report_names_what_is_missing() {
    let mut health = Health::default();
    record_probe(&mut health, "now".to_string(), None, false);
    assert_eq!(
        health_json(&health),
        "{\"contract\":\"northstar-macos-v1\",\"checkedAt\":\"now\",\"connectedAt\":null,\
         \"captureCheckedAt\":null,\"accountId\":null,\
         \"error\":\"Local archive needs attention\"}"
    );
}

#[test]
fn a_report_escapes_what_json_escapes() {
    let health = Health {
        checked_at: "a \"b\" \\ c\n\u{1}é".to_string(),
        ..Health::default()
    };
    let report = health_json(&health);
    assert!(report.contains("\"checkedAt\":\"a \\\"b\\\" \\\\ c\\n\\u0001é\""));
    assert!(!report.contains('\n'));
}

#[test]
fn health_starts_empty() {
    let health = Health::default();
    assert_eq!(health.contract, "");
    assert_eq!(health.checked_at, "");
    assert_eq!(health.connected_at, None);
    assert_eq!(health.capture_checked_at, None);
    assert_eq!(health.account_id, None);
    assert_eq!(health.error, None);
}

#[test]
fn a_file_is_renamed_when_it_is_on_the_disk() {
    let mut stage = WriteStage::Begin;
    for (event, action, after) in [
        (WriteEvent::Started, WriteAction::OpenTemporary { mode: 0o600 }, WriteStage::AwaitOpen),
        (WriteEvent::Opened, WriteAction::WriteAll, WriteStage::AwaitWrite),
        (WriteEvent::Written, WriteAction::SyncAll, WriteStage::AwaitSync),
        (WriteEvent::Synced, WriteAction::Rename, WriteStage::AwaitRename),
        (WriteEvent::Renamed, WriteAction::Done, WriteStage::Finished),
    ] {
        assert_eq!(write_private_json(&mut stage, event), action);
        assert_eq!(stage, after);
    }
}

#[test]
fn a_failed_write_renames_nothing() {
    for done in [
        vec![],
        vec![WriteEvent::Opened],
        vec![WriteEvent::Opened, WriteEvent::Written],
        vec![WriteEvent::Opened, WriteEvent::Written, WriteEvent::Synced],
    ] {
        let mut stage = WriteStage::Begin;
        write_private_json(&mut stage, WriteEvent::Started);
        for event in done {
            write_private_json(&mut stage, event);
        }
        assert_eq!(write_private_json(&mut stage, WriteEvent::Failed), WriteAction::Fail);
        assert_eq!(stage, WriteStage::Finished);
    }
}

#[test]
fn each_process_has_its_temporary_file() {
    assert_eq!(temporary_extension(4321), "4321.tmp");
    assert_eq!(temporary_extension(0), "0.tmp");
    assert_eq!(temporary_extension(u32::MAX), "4294967295.tmp");
}

#[test]
fn tells_the_version() {
    assert_eq!(version::run(false, "1.2.3"), "tgcli 1.2.3");
    assert_eq!(
        version::run(true, "1.2.3"),
        "{\"contract\":\"northstar-macos-v1\",\"version\":\"1.2.3\"}"
    );
    assert_eq!(CONTRACT, "northstar-macos-v1");
}
