use ninjaedit_tui::file_list::{find_key, keep_selection, same_key, select_after_fold, Folds, RowKey};

fn dir(p: &str) -> RowKey {
    RowKey::Dir(p.to_string())
}

fn file(p: &str) -> RowKey {
    RowKey::File(p.to_string())
}

#[test]
fn a_directory_folded_by_hand_stays_folded_across_scans() {
    let mut folds = Folds::new();
    let oracles = "tests/oracles".to_string();
    folds.set(&oracles, true);
    folds.set(&"src".to_string(), true);
    folds.set(&"src".to_string(), false);
    assert!(folds.is_folded(&oracles));
    let dirs = vec!["src".to_string(), "tests/oracles".to_string()];
    assert_eq!(folds.collapsed(&dirs), vec![false, true]);
    // The list empties and fills again: still folded.
    assert_eq!(folds.collapsed(&vec![]), Vec::<bool>::new());
    assert_eq!(folds.collapsed(&dirs), vec![false, true]);
    folds.set(&oracles, true);
    folds.set(&oracles, false);
    assert_eq!(folds.collapsed(&dirs), vec![false, false]);
}

#[test]
fn the_selection_stays_on_its_row_across_a_rebuild() {
    let keys = vec![dir("src"), file("src/main.rs"), dir("tests"), file("tests/a.rs")];
    assert!(same_key(&dir("src"), &dir("src")));
    assert!(!same_key(&dir("src"), &file("src")));
    assert_eq!(find_key(&keys, &file("tests/a.rs")), Some(3));
    assert_eq!(keep_selection(&keys, Some(&file("src/main.rs")), 3), 1);
    assert_eq!(keep_selection(&keys, Some(&file("gone.rs")), 2), 2);
    assert_eq!(keep_selection(&keys, Some(&file("gone.rs")), 9), 3);
    assert_eq!(keep_selection(&vec![], None, 9), 0);
    // A row folded out of sight leaves the selection on its directory.
    let folded = vec![dir("src"), dir("tests"), file("tests/a.rs")];
    assert_eq!(select_after_fold(&folded, Some(&file("src/main.rs")), &"src".to_string()), Some(0));
    assert_eq!(select_after_fold(&folded, Some(&file("tests/a.rs")), &"src".to_string()), Some(2));
    assert_eq!(select_after_fold(&folded, None, &"gone".to_string()), None);
}
