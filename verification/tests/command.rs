use ninjaedit_tui::command::{BuildContext, Command, Context, FileContext, Page};

fn available(context: &Context) -> Vec<Command> {
    Command::ALL
        .into_iter()
        .filter(|command| command.is_available(context))
        .collect()
}

#[test]
fn nothing_open_lists_only_what_applies_everywhere() {
    assert_eq!(
        available(&Context::default()),
        [
            Command::OpenFile,
            Command::SearchProject,
            Command::SwitchView,
            Command::Quit
        ]
    );
}

#[test]
fn a_file_brings_the_editor_commands_as_its_state_allows() {
    let mut context = Context {
        file: Some(FileContext::default()),
        has_tabs: true,
        ..Context::default()
    };
    let listed = available(&context);
    for command in [
        Command::SwitchTab,
        Command::Save,
        Command::CloseTab,
        Command::Find,
        Command::GoToLine,
        Command::Paste,
        Command::SelectAll,
    ] {
        assert!(listed.contains(&command), "{command:?} in {listed:?}");
    }
    // Nothing to undo, discard, cut, or step to yet.
    for command in [
        Command::DiscardChanges,
        Command::FindNext,
        Command::NextConflict,
        Command::PreviousConflict,
        Command::Undo,
        Command::Redo,
        Command::Cut,
        Command::Copy,
    ] {
        assert!(!listed.contains(&command), "{command:?} in {listed:?}");
    }
    context.file = Some(FileContext {
        modified: true,
        can_undo: true,
        can_redo: true,
        has_selection: true,
        has_conflicts: true,
        can_find_next: true,
    });
    let listed = available(&context);
    for command in [
        Command::DiscardChanges,
        Command::FindNext,
        Command::NextConflict,
        Command::PreviousConflict,
        Command::Undo,
        Command::Redo,
        Command::Cut,
        Command::Copy,
    ] {
        assert!(listed.contains(&command), "{command:?} in {listed:?}");
    }
}

#[test]
fn a_page_lists_its_own_commands_and_not_the_editors() {
    let context = Context {
        page: Page::Changes,
        has_tabs: true,
        has_unstaged: true,
        ..Context::default()
    };
    let listed = available(&context);
    for command in [
        Command::Commit,
        Command::StageAll,
        Command::ToggleAmend,
        Command::SwitchTab,
        Command::SearchProject,
    ] {
        assert!(listed.contains(&command), "{command:?} in {listed:?}");
    }
    for command in [
        Command::Save,
        Command::UnstageAll,
        Command::OpenChange,
        Command::Fetch,
        Command::ResetSetting,
        Command::AddBuildEntry,
    ] {
        assert!(!listed.contains(&command), "{command:?} in {listed:?}");
    }
    let context = Context {
        page: Page::GitLog,
        commit_selected: true,
        ..Context::default()
    };
    let listed = available(&context);
    assert!(listed.contains(&Command::Fetch));
    assert!(listed.contains(&Command::CheckoutCommit));
    assert!(!listed.contains(&Command::Commit));
}

#[test]
fn building_needs_something_to_build_and_stopping_a_job_running() {
    let context = Context {
        build: BuildContext {
            has_roots: true,
            has_configurations: true,
            has_targets: true,
            has_current: true,
            ..BuildContext::default()
        },
        job_running: true,
        tool_pane_visible: true,
        ..Context::default()
    };
    let listed = available(&context);
    for command in [
        Command::Build,
        Command::Run,
        Command::StopJob,
        Command::SelectConfiguration,
        Command::SelectTarget,
        Command::DeleteBuildDir,
        Command::DeleteAllBuildDirs,
        Command::NextView,
    ] {
        assert!(listed.contains(&command), "{command:?} in {listed:?}");
    }
    assert!(!listed.contains(&Command::DismissOutput));
    let context = Context {
        output_idle: true,
        ..Context::default()
    };
    let listed = available(&context);
    assert!(listed.contains(&Command::DismissOutput));
    assert!(!listed.contains(&Command::StopJob));
    assert!(!listed.contains(&Command::Build));
}

#[test]
fn every_command_has_a_label_and_a_description() {
    for command in Command::ALL {
        assert!(!command.label().is_empty(), "{command:?}");
        assert!(!command.description().is_empty(), "{command:?}");
    }
}

#[test]
fn the_palette_lists_what_is_available_in_order() {
    let context = Context {
        page: Page::Build,
        build: BuildContext {
            can_remove: true,
            ..BuildContext::default()
        },
        ..Context::default()
    };
    assert_eq!(Command::available(&context), available(&context));
    assert_eq!(
        Command::available(&context),
        [
            Command::OpenFile,
            Command::SearchProject,
            Command::AddBuildEntry,
            Command::RemoveBuildEntry,
            Command::SwitchView,
            Command::Quit
        ]
    );
}

#[test]
fn labels_descriptions_and_keys_read_as_the_palette_shows_them() {
    assert_eq!(Command::OpenFile.label(), "Open file");
    assert_eq!(
        Command::OpenFile.description(),
        "Search the project's files and open one"
    );
    assert_eq!(Command::OpenFile.shortcut(), Some("Ctrl+O"));
    assert_eq!(Command::Commit.shortcut(), Some("Ctrl+S"));
    assert_eq!(Command::StageAll.shortcut(), None);
    assert_eq!(Command::Quit.label(), "Quit");
    assert_eq!(Command::ALL.len(), 40);
    assert_eq!(Command::ALL[0], Command::OpenFile);
    assert_eq!(Command::ALL[39], Command::Quit);
}

#[test]
fn no_key_is_shown_for_two_listed_commands() {
    let file = FileContext {
        modified: true,
        can_undo: true,
        can_redo: true,
        has_selection: true,
        has_conflicts: true,
        can_find_next: true,
    };
    let build = BuildContext {
        has_roots: true,
        has_configurations: true,
        has_targets: true,
        has_current: true,
        can_duplicate: true,
        can_remove: true,
    };
    let everything = Context {
        file: Some(file),
        has_tabs: true,
        build,
        job_running: true,
        tool_pane_visible: true,
        output_idle: true,
        commit_selected: true,
        has_unstaged: true,
        has_staged: true,
        change_selected: true,
        ..Context::default()
    };
    for page in [Page::Editor, Page::Settings, Page::Build, Page::GitLog, Page::Changes] {
        let context = Context {
            page,
            file: if page == Page::Editor { Some(file) } else { None },
            ..everything
        };
        let keys: Vec<&str> = available(&context)
            .into_iter()
            .filter_map(|command| command.shortcut())
            .collect();
        for (i, key) in keys.iter().enumerate() {
            assert!(!keys[i + 1..].contains(key), "{key} shown twice on {page:?}");
        }
    }
}
