use tgcli::args::DaemonArgs;

#[test]
fn defaults_avoid_the_background_sync() {
    let args = DaemonArgs::default();
    assert!(args.no_backfill);
    assert!(!args.download_media);
    assert!(args.ignore_chat_ids.is_empty());
    assert!(!args.ignore_channels);
    assert!(!args.quiet);
    assert!(!args.stream);
    assert!(!args.no_startup_catchup);
    assert_eq!(args.reconcile_interval_seconds, 3 * 60 * 60);
}

#[test]
fn the_ignore_set_holds_each_chat_once() {
    let args = DaemonArgs { ignore_chat_ids: vec![3, -1, 3], ..DaemonArgs::default() };
    let set = args.ignore_set();
    assert_eq!(set.len(), 2);
    assert!(set.contains(&3));
    assert!(set.contains(&-1));
    assert!(!set.contains(&1));
}

#[test]
fn a_zero_interval_disables_reconciliation() {
    for (seconds, enabled, period) in [(0, false, 1), (1, true, 1), (2, true, 2), (10_800, true, 10_800)] {
        let args = DaemonArgs { reconcile_interval_seconds: seconds, ..DaemonArgs::default() };
        assert_eq!(args.reconciliation_enabled(), enabled);
        assert_eq!(args.reconciliation_period(), period);
    }
}
