use tgcli::fsperm::{harden_dir, harden_file, set_mode, ModeOutcome};

#[test]
fn hardens_for_the_owner_alone() {
    let dir = harden_dir("/store");
    assert_eq!((dir.path.as_str(), dir.mode, dir.kind), ("/store", 0o700, "directory"));
    let file = harden_file("/store/session");
    assert_eq!((file.path.as_str(), file.mode, file.kind), ("/store/session", 0o600, "file"));
}

#[test]
fn warns_only_of_real_failures() {
    let dir = harden_dir("/store");
    assert_eq!(set_mode(&dir, &ModeOutcome::Applied), None);
    assert_eq!(set_mode(&dir, &ModeOutcome::NotFound), None);
    let failed = ModeOutcome::Failed("Read-only file system".to_string());
    assert_eq!(
        set_mode(&dir, &failed).unwrap(),
        "could not restrict permissions on directory '/store': Read-only file system"
    );
    assert_eq!(
        set_mode(&harden_file("a.db"), &failed).unwrap(),
        "could not restrict permissions on file 'a.db': Read-only file system"
    );
}
