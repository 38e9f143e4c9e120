use ninjaedit_tui::notices::{
    check_due, copied_notice, discard_notice, disk_change_notice, entry_search, run_entry,
    save_notice, DiskChange, Discarded,
};

#[test]
fn the_status_bar_says_what_happened_to_the_files() {
    assert_eq!(disk_change_notice("a.rs", &DiskChange::Unchanged), None);
    assert_eq!(
        disk_change_notice("a.rs", &DiskChange::Reloaded).as_deref(),
        Some("a.rs changed on disk: reloaded")
    );
    assert_eq!(
        disk_change_notice("a.rs", &DiskChange::Deleted).as_deref(),
        Some("a.rs was deleted on disk: save to recreate it")
    );
    assert_eq!(
        disk_change_notice("a.rs", &DiskChange::Failed("denied".to_string())).as_deref(),
        Some("Could not read a.rs: denied")
    );
    assert_eq!(save_notice("a.rs", None), "Saved a.rs");
    assert_eq!(save_notice("a.rs", Some("full")), "Could not save a.rs: full");
    assert_eq!(
        discard_notice("a.rs", &Discarded::Discarded),
        "Discarded unsaved changes to a.rs (undo brings them back)"
    );
    assert_eq!(discard_notice("a.rs", &Discarded::Unmodified), "a.rs has no unsaved changes");
    assert_eq!(copied_notice(1), "Copied 1 line to the clipboard");
    assert_eq!(copied_notice(2), "Copied 2 lines to the clipboard");
}

#[test]
fn files_are_checked_when_hinted_or_every_two_seconds() {
    assert!(check_due(false, None));
    assert!(check_due(true, Some(0)));
    assert!(!check_due(false, Some(1_999_999_999)));
    assert!(check_due(false, Some(2_000_000_000)));
}

#[test]
fn a_target_runs_from_the_command_palette() {
    let entry = run_entry("b", Some("release"), "Cargo.toml");
    assert_eq!(entry.label, "Run b");
    assert_eq!(
        entry.detail,
        "Build and run it with release in Cargo.toml, without making it the current target"
    );
    assert_eq!(entry.search, format!("Run b {}", entry.detail));
    let plain = run_entry("tool", None, "native/CMakeLists.txt");
    assert_eq!(
        plain.detail,
        "Build and run it in native/CMakeLists.txt, without making it the current target"
    );
    assert_eq!(entry_search("dev", "Cargo.toml"), "dev Cargo.toml");
}
