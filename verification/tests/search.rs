use ninjaedit_tui::recent::{front_first, modes_order, track_view};
use ninjaedit_tui::search::{
    conflict_notice, find_next, line_for, no_matches, search_hint, single_line_selection,
    typed_query, ConflictStep, FindNext, SearchState,
};
use ninjaedit_tui::tabs::{file_detail, window_title};

#[test]
fn the_search_box_says_how_many_matches() {
    let done = |count| SearchState { regex: false, count, done: true };
    assert_eq!(search_hint(true, None, done(3)), None);
    assert_eq!(search_hint(false, None, done(0)).as_deref(), Some("no matches"));
    assert_eq!(search_hint(false, None, done(1)).as_deref(), Some("1 match"));
    assert_eq!(search_hint(false, None, done(2)).as_deref(), Some("2 matches"));
    let regex = SearchState { regex: true, count: 5, done: false };
    assert_eq!(search_hint(false, None, regex).as_deref(), Some("regex, searching… 5 so far"));
    assert_eq!(
        search_hint(false, Some("unclosed group"), regex).as_deref(),
        Some("invalid regex: unclosed group")
    );
}

#[test]
fn conflict_commands_say_when_they_wrap_or_find_nothing() {
    assert_eq!(conflict_notice(ConflictStep::Moved, true), (None, true));
    assert_eq!(
        conflict_notice(ConflictStep::Wrapped, true),
        (Some("Wrapped around to the first conflict in the file".to_string()), true)
    );
    assert_eq!(
        conflict_notice(ConflictStep::Wrapped, false),
        (Some("Wrapped around to the last conflict in the file".to_string()), true)
    );
    assert_eq!(
        conflict_notice(ConflictStep::NoConflicts, false),
        (Some("No merge conflicts in this file".to_string()), false)
    );
}

#[test]
fn ctrl_g_repeats_the_last_search() {
    assert_eq!(find_next(true, &"x".to_string()), FindNext::Step);
    assert_eq!(find_next(false, &String::new()), FindNext::OpenBox);
    assert_eq!(find_next(false, &"needle".to_string()), FindNext::Repeat("needle".to_string()));
    assert_eq!(no_matches("needle"), "No matches for needle");
    assert_eq!(line_for(0), 0);
    assert_eq!(line_for(12), 11);
}

#[test]
fn a_search_is_seeded_from_a_selection_within_one_line() {
    assert_eq!(single_line_selection(Some(" world".to_string())), Some(" world".to_string()));
    assert_eq!(single_line_selection(Some("a\nb".to_string())), None);
    assert_eq!(single_line_selection(Some("a\rb".to_string())), None);
    assert_eq!(single_line_selection(None), None);
    let seed = "needle".to_string();
    assert_eq!(typed_query("needle".to_string(), Some(&seed)), None);
    assert_eq!(typed_query("other".to_string(), Some(&seed)), Some("other".to_string()));
    assert_eq!(typed_query(String::new(), None), None);
    assert_eq!(typed_query("x".to_string(), None), Some("x".to_string()));
}

#[test]
fn the_modes_palette_lists_the_view_before_second() {
    let all = vec![0, 1, 2, 3, 4];
    let mut history = Vec::new();
    let mut last = 0;
    track_view(&mut history, &mut last, 3);
    track_view(&mut history, &mut last, 1);
    assert_eq!((history.clone(), last), (vec![0, 3], 1));
    assert_eq!(modes_order(1, &history, &all), vec![1, 3, 0, 2, 4]);
    // Back to the first: it leaves the history, the one left joins it.
    track_view(&mut history, &mut last, 0);
    assert_eq!((history.clone(), last), (vec![3, 1], 0));
    assert_eq!(modes_order(0, &history, &all), vec![0, 1, 3, 2, 4]);
    track_view(&mut history, &mut last, 0);
    assert_eq!(history, vec![3, 1]);
}

#[test]
fn the_last_run_entry_comes_first() {
    assert_eq!(front_first(4, Some(2)), vec![2, 0, 1, 3]);
    assert_eq!(front_first(4, Some(0)), vec![0, 1, 2, 3]);
    assert_eq!(front_first(4, Some(9)), vec![0, 1, 2, 3]);
    assert_eq!(front_first(3, None), vec![0, 1, 2]);
    assert_eq!(front_first(0, Some(0)), Vec::<usize>::new());
}

#[test]
fn the_window_and_the_file_search_name_where_things_are() {
    assert_eq!(window_title("demo"), "Ninja Edit — demo");
    assert_eq!(file_detail("src/bin/main.rs", "main.rs", '/'), "src/bin");
    assert_eq!(file_detail("main.rs", "main.rs", '/'), "");
    assert_eq!(file_detail("a.rs", "main.rs", '/'), "");
    assert_eq!(file_detail("src//x", "x", '/'), "src");
}
