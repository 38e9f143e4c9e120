//! The editor's commands, as the command palette (Ctrl+P) lists them:
//! everything a key does that isn't editing the text or moving around
//! in it, plus a few things that shouldn't be a keystroke away.
//!
//! Each command has a name to search for, a line about what it does,
//! and the key bound to it when there is one. Not every command makes
//! sense all the time, so the palette lists only the commands that
//! apply to what is showing and what is going on, which each command
//! decides for itself from a [`Context`] the application fills in: see
//! [`Command::is_available`]. A page's own keys are commands listed on
//! that page and nowhere else, and the commands that open something (a
//! file, the project search, a view) apply everywhere.
//!
//! The application runs the commands; this module only describes them.

use vstd::prelude::*;

verus! {

/// A command the palette can run.
#[derive(Clone, Copy, Debug, PartialEq, Eq, Structural)]
pub enum Command {
    OpenFile,
    SwitchTab,
    Save,
    DiscardChanges,
    CloseTab,
    Find,
    FindNext,
    SearchProject,
    GoToLine,
    NextConflict,
    PreviousConflict,
    Undo,
    Redo,
    Cut,
    Copy,
    Paste,
    SelectAll,
    Build,
    Run,
    StopJob,
    SelectConfiguration,
    SelectTarget,
    DeleteBuildDir,
    DeleteAllBuildDirs,
    /// The build page's Ctrl+N.
    AddBuildEntry,
    /// The build page's Ctrl+D.
    DuplicateBuildEntry,
    /// The build page's Delete.
    RemoveBuildEntry,
    /// The settings page's Ctrl+D.
    ResetSetting,
    /// The git log page's F5.
    Fetch,
    /// The git log page's Space.
    CheckoutCommit,
    /// The changes page's Ctrl+S.
    Commit,
    /// The changes page's `a` in the unstaged list.
    StageAll,
    /// The changes page's `a` in the staged list.
    UnstageAll,
    /// The changes page's `o`.
    OpenChange,
    /// The changes page's `m`.
    ToggleAmend,
    SwitchView,
    NextView,
    PreviousView,
    /// The output tool's Ctrl+D once its job is over.
    DismissOutput,
    Quit,
}

/// What the upper part of the screen shows, as far as the commands
/// care.
#[derive(Clone, Copy, Debug, PartialEq, Eq, Structural)]
pub enum Page {
    Editor,
    Settings,
    Build,
    GitLog,
    Changes,
}

/// The state of the editor's active file, for the commands that act on
/// it.
#[derive(Clone, Copy, Debug, PartialEq, Eq, Structural)]
pub struct FileContext {
    /// Whether it has unsaved changes.
    pub modified: bool,
    pub can_undo: bool,
    pub can_redo: bool,
    pub has_selection: bool,
    /// Whether it holds merge conflict markers.
    pub has_conflicts: bool,
    /// Whether Ctrl+G has a search to go on with: one going in the
    /// file, or a query searched before to search for again.
    pub can_find_next: bool,
}

/// The state of the build configuration, for the commands that build.
#[derive(Clone, Copy, Debug, PartialEq, Eq, Structural)]
pub struct BuildContext {
    pub has_roots: bool,
    pub has_configurations: bool,
    /// Whether any root has a target that isn't disabled.
    pub has_targets: bool,
    /// Whether there is a current target to build: Ctrl+B has something
    /// to do.
    pub has_current: bool,
    /// On the build page, whether a configuration or a target is
    /// selected, for Ctrl+D to duplicate.
    pub can_duplicate: bool,
    /// On the build page, whether a root, a configuration, or a target
    /// is selected, for Delete to remove.
    pub can_remove: bool,
}

/// What is showing and what is going on, as far as which commands make
/// sense depends on it. The default is an editor with nothing open and
/// nothing running: the few commands that always apply are all it
/// lists.
#[derive(Clone, Copy, Debug, PartialEq, Eq, Structural)]
pub struct Context {
    pub page: Page,
    /// The editor's active file, when the editor is showing and has
    /// one; `None` with no file open, and while a page stands in for
    /// the editor.
    pub file: Option<FileContext>,
    /// Whether the tab search would have anything to list.
    pub has_tabs: bool,
    pub build: BuildContext,
    /// Whether a build or run is under way in the output tool.
    pub job_running: bool,
    /// Whether the tool pane shows, so there is a view to move the
    /// keyboard to.
    pub tool_pane_visible: bool,
    /// Whether the output tool shows with its job over, so Ctrl+D would
    /// dismiss it.
    pub output_idle: bool,
    /// On the git log page, whether a commit is selected to check out.
    pub commit_selected: bool,
    /// On the changes page, whether there is anything to stage.
    pub has_unstaged: bool,
    /// On the changes page, whether there is anything to unstage.
    pub has_staged: bool,
    /// On the changes page, whether a file (not a directory) is
    /// selected to open.
    pub change_selected: bool,
}

/// A file with nothing to undo, redo, find, or resolve, and nothing
/// selected or modified.
pub open spec fn plain_file() -> FileContext {
    FileContext {
        modified: false,
        can_undo: false,
        can_redo: false,
        has_selection: false,
        has_conflicts: false,
        can_find_next: false,
    }
}

/// No build root, configuration, or target.
pub open spec fn no_build() -> BuildContext {
    BuildContext {
        has_roots: false,
        has_configurations: false,
        has_targets: false,
        has_current: false,
        can_duplicate: false,
        can_remove: false,
    }
}

/// The editor with nothing open and nothing running.
pub open spec fn idle_context() -> Context {
    Context {
        page: Page::Editor,
        file: None,
        has_tabs: false,
        build: no_build(),
        job_running: false,
        tool_pane_visible: false,
        output_idle: false,
        commit_selected: false,
        has_unstaged: false,
        has_staged: false,
        change_selected: false,
    }
}

impl Default for Page {
    fn default() -> (page: Page)
        ensures
            page == Page::Editor,
    {
        Page::Editor
    }
}

impl Default for FileContext {
    fn default() -> (file: FileContext)
        ensures
            file == plain_file(),
    {
        FileContext {
            modified: false,
            can_undo: false,
            can_redo: false,
            has_selection: false,
            has_conflicts: false,
            can_find_next: false,
        }
    }
}

impl Default for BuildContext {
    fn default() -> (build: BuildContext)
        ensures
            build == no_build(),
    {
        BuildContext {
            has_roots: false,
            has_configurations: false,
            has_targets: false,
            has_current: false,
            can_duplicate: false,
            can_remove: false,
        }
    }
}

impl Default for Context {
    fn default() -> (context: Context)
        ensures
            context == idle_context(),
    {
        Context {
            page: Page::Editor,
            file: None,
            has_tabs: false,
            build: BuildContext::default(),
            job_running: false,
            tool_pane_visible: false,
            output_idle: false,
            commit_selected: false,
            has_unstaged: false,
            has_staged: false,
            change_selected: false,
        }
    }
}

/// Whether the active file has a property, `false` with no file.
pub open spec fn file_has(file: Option<FileContext>, property: spec_fn(FileContext) -> bool) -> bool {
    match file {
        Some(f) => property(f),
        None => false,
    }
}

/// Whether `command` makes sense in `context`, so that the palette lists
/// it.
pub open spec fn applies(command: Command, context: Context) -> bool {
    match command {
        Command::OpenFile | Command::SearchProject | Command::SwitchView | Command::Quit => true,
        Command::SwitchTab => context.has_tabs,
        Command::Save
        | Command::CloseTab
        | Command::Find
        | Command::GoToLine
        | Command::Paste
        | Command::SelectAll => context.file is Some,
        Command::DiscardChanges => file_has(context.file, |f: FileContext| f.modified),
        Command::FindNext => file_has(context.file, |f: FileContext| f.can_find_next),
        Command::NextConflict | Command::PreviousConflict => file_has(context.file, |f: FileContext| f.has_conflicts),
        Command::Undo => file_has(context.file, |f: FileContext| f.can_undo),
        Command::Redo => file_has(context.file, |f: FileContext| f.can_redo),
        Command::Cut | Command::Copy => file_has(context.file, |f: FileContext| f.has_selection),
        Command::Build | Command::Run | Command::DeleteBuildDir => context.build.has_current,
        Command::StopJob => context.job_running,
        Command::SelectConfiguration => context.build.has_configurations,
        Command::SelectTarget => context.build.has_targets,
        Command::DeleteAllBuildDirs => context.build.has_roots,
        Command::AddBuildEntry => context.page == Page::Build,
        Command::DuplicateBuildEntry => context.page == Page::Build && context.build.can_duplicate,
        Command::RemoveBuildEntry => context.page == Page::Build && context.build.can_remove,
        Command::ResetSetting => context.page == Page::Settings,
        Command::Fetch => context.page == Page::GitLog,
        Command::CheckoutCommit => context.page == Page::GitLog && context.commit_selected,
        Command::Commit | Command::ToggleAmend => context.page == Page::Changes,
        Command::StageAll => context.page == Page::Changes && context.has_unstaged,
        Command::UnstageAll => context.page == Page::Changes && context.has_staged,
        Command::OpenChange => context.page == Page::Changes && context.change_selected,
        Command::NextView | Command::PreviousView => context.tool_pane_visible,
        Command::DismissOutput => context.output_idle,
    }
}

/// The name the palette shows and matches first.
pub open spec fn label_of(command: Command) -> Seq<char> {
    match command {
        Command::OpenFile => "Open file"@,
        Command::SwitchTab => "Switch tab"@,
        Command::Save => "Save file"@,
        Command::DiscardChanges => "Discard unsaved changes"@,
        Command::CloseTab => "Close tab"@,
        Command::Find => "Find in file"@,
        Command::FindNext => "Find next"@,
        Command::SearchProject => "Search in project"@,
        Command::GoToLine => "Go to line"@,
        Command::NextConflict => "Next conflict"@,
        Command::PreviousConflict => "Previous conflict"@,
        Command::Undo => "Undo"@,
        Command::Redo => "Redo"@,
        Command::Cut => "Cut"@,
        Command::Copy => "Copy"@,
        Command::Paste => "Paste"@,
        Command::SelectAll => "Select all"@,
        Command::Build => "Build"@,
        Command::Run => "Run"@,
        Command::StopJob => "Stop build or run"@,
        Command::SelectConfiguration => "Select build configuration"@,
        Command::SelectTarget => "Select build target"@,
        Command::DeleteBuildDir => "Delete build directory"@,
        Command::DeleteAllBuildDirs => "Delete all build directories"@,
        Command::AddBuildEntry => "Add build configuration or target"@,
        Command::DuplicateBuildEntry => "Duplicate build configuration or target"@,
        Command::RemoveBuildEntry => "Remove build configuration, target, or root"@,
        Command::ResetSetting => "Reset setting to default"@,
        Command::Fetch => "Fetch from remotes"@,
        Command::CheckoutCommit => "Check out commit"@,
        Command::Commit => "Commit"@,
        Command::StageAll => "Stage all changes"@,
        Command::UnstageAll => "Unstage all changes"@,
        Command::OpenChange => "Open changed file"@,
        Command::ToggleAmend => "Toggle amend"@,
        Command::SwitchView => "Switch view"@,
        Command::NextView => "Focus next view"@,
        Command::PreviousView => "Focus previous view"@,
        Command::DismissOutput => "Dismiss output"@,
        Command::Quit => "Quit"@,
    }
}

/// A line about what the command does.
pub open spec fn description_of(command: Command) -> Seq<char> {
    match command {
        Command::OpenFile => "Search the project's files and open one"@,
        Command::SwitchTab => "Search the open tabs and switch to one"@,
        Command::Save => "Save the active file"@,
        Command::DiscardChanges => "Reload the active file from disk, dropping its unsaved edits (undo brings them back)"@,
        Command::CloseTab => "Close the active file's tab"@,
        Command::Find => "Search the active file"@,
        Command::FindNext => "Go to the next match of the last search"@,
        Command::SearchProject => "Search every file in the project"@,
        Command::GoToLine => "Move the cursor to a line by number"@,
        Command::NextConflict => "Move the cursor to the start of the next merge conflict, wrapping around the end of the file"@,
        Command::PreviousConflict => "Move the cursor to the start of the previous merge conflict, wrapping around the start of the file"@,
        Command::Undo => "Undo the last edit"@,
        Command::Redo => "Redo the last undone edit"@,
        Command::Cut => "Cut the selection to the clipboard"@,
        Command::Copy => "Copy the selection to the clipboard"@,
        Command::Paste => "Paste from the clipboard"@,
        Command::SelectAll => "Select the whole file"@,
        Command::Build => "Build the current target with the current configuration"@,
        Command::Run => "Build and run the current target"@,
        Command::StopJob => "End the build or run under way in the output tool, as Ctrl+C in it does"@,
        Command::SelectConfiguration => "Pick the build configuration to build with"@,
        Command::SelectTarget => "Pick the target to build and run"@,
        Command::DeleteBuildDir => "Clean: delete what the current configuration has built, to build again from nothing"@,
        Command::DeleteAllBuildDirs => "Clean everything: delete what every configuration of every build root has built"@,
        Command::AddBuildEntry => "On the build page, add to the list the selection is in: a configuration or a target, or a build root with a root or nothing selected"@,
        Command::DuplicateBuildEntry => "On the build page, copy the selected configuration or target and select the copy"@,
        Command::RemoveBuildEntry => "On the build page, remove what is selected (Delete in the tree), on a second press of Delete; a discovered target is disabled instead, or enabled again"@,
        Command::ResetSetting => "On the settings page, put the focused setting back to its default"@,
        Command::Fetch => "On the git log page, fetch every remote of the repository in the background and refresh the page"@,
        Command::CheckoutCommit => "On the git log page, check out the selected commit (Space in the log): its branch, a new one tracking a remote's, or HEAD detached"@,
        Command::Commit => "On the changes page, commit what is staged with the message in the box"@,
        Command::StageAll => "On the changes page, stage every unstaged file (a in the unstaged list)"@,
        Command::UnstageAll => "On the changes page, unstage every staged file (a in the staged list)"@,
        Command::OpenChange => "On the changes page, open the selected file in the editor (o in a list), at its first conflict if it has one"@,
        Command::ToggleAmend => "On the changes page, make the commit replace the last one (git commit --amend), or follow it (m in a list)"@,
        Command::SwitchView => "Editor, a page, or a tool"@,
        Command::NextView => "Move the keyboard to the next view"@,
        Command::PreviousView => "Move the keyboard to the previous view"@,
        Command::DismissOutput => "Hide the output tool now that its job is over, giving the editor the keyboard (Ctrl+D in it)"@,
        Command::Quit => "Quit the editor"@,
    }
}

/// The key the command is bound to, if any.
pub open spec fn shortcut_of(command: Command) -> Option<Seq<char>> {
    match command {
        Command::OpenFile => Some("Ctrl+O"@),
        Command::SwitchTab => Some("Ctrl+T"@),
        Command::Save => Some("Ctrl+S"@),
        Command::DiscardChanges => None,
        Command::CloseTab => Some("Ctrl+W"@),
        Command::Find => Some("Ctrl+F"@),
        Command::FindNext => Some("Ctrl+G"@),
        Command::SearchProject => Some("Ctrl+Shift+F"@),
        Command::GoToLine => Some("Ctrl+J"@),
        Command::NextConflict => None,
        Command::PreviousConflict => None,
        Command::Undo => Some("Ctrl+Z"@),
        Command::Redo => Some("Ctrl+Y"@),
        Command::Cut => Some("Ctrl+X"@),
        Command::Copy => Some("Ctrl+C"@),
        Command::Paste => Some("Ctrl+V"@),
        Command::SelectAll => Some("Ctrl+A"@),
        Command::Build => Some("Ctrl+B"@),
        Command::Run => Some("Ctrl+R"@),
        Command::StopJob => None,
        Command::SelectConfiguration => None,
        Command::SelectTarget => None,
        Command::DeleteBuildDir => None,
        Command::DeleteAllBuildDirs => None,
        Command::AddBuildEntry => Some("Ctrl+N"@),
        Command::DuplicateBuildEntry => Some("Ctrl+D"@),
        Command::RemoveBuildEntry => None,
        Command::ResetSetting => Some("Ctrl+D"@),
        Command::Fetch => Some("F5"@),
        Command::CheckoutCommit => None,
        Command::Commit => Some("Ctrl+S"@),
        Command::StageAll => None,
        Command::UnstageAll => None,
        Command::OpenChange => None,
        Command::ToggleAmend => None,
        Command::SwitchView => Some("Ctrl+E"@),
        Command::NextView => Some("Ctrl+."@),
        Command::PreviousView => Some("Ctrl+,"@),
        Command::DismissOutput => None,
        Command::Quit => Some("Ctrl+Q"@),
    }
}

/// Every command, in the order the palette lists them before anything
/// is typed: files, searching, editing, building, the pages, views, and
/// quitting last.
pub open spec fn command_order() -> Seq<Command> {
    seq![
        Command::OpenFile,
        Command::SwitchTab,
        Command::Save,
        Command::DiscardChanges,
        Command::CloseTab,
        Command::Find,
        Command::FindNext,
        Command::SearchProject,
        Command::GoToLine,
        Command::NextConflict,
        Command::PreviousConflict,
        Command::Undo,
        Command::Redo,
        Command::Cut,
        Command::Copy,
        Command::Paste,
        Command::SelectAll,
        Command::Build,
        Command::Run,
        Command::StopJob,
        Command::SelectConfiguration,
        Command::SelectTarget,
        Command::DeleteBuildDir,
        Command::DeleteAllBuildDirs,
        Command::AddBuildEntry,
        Command::DuplicateBuildEntry,
        Command::RemoveBuildEntry,
        Command::ResetSetting,
        Command::Fetch,
        Command::CheckoutCommit,
        Command::Commit,
        Command::StageAll,
        Command::UnstageAll,
        Command::OpenChange,
        Command::ToggleAmend,
        Command::SwitchView,
        Command::NextView,
        Command::PreviousView,
        Command::DismissOutput,
        Command::Quit,
    ]
}

impl Command {
    /// Every command, in the order the palette lists them before anything
    /// is typed.
    pub const ALL: [Command; 40] = [
        Command::OpenFile,
        Command::SwitchTab,
        Command::Save,
        Command::DiscardChanges,
        Command::CloseTab,
        Command::Find,
        Command::FindNext,
        Command::SearchProject,
        Command::GoToLine,
        Command::NextConflict,
        Command::PreviousConflict,
        Command::Undo,
        Command::Redo,
        Command::Cut,
        Command::Copy,
        Command::Paste,
        Command::SelectAll,
        Command::Build,
        Command::Run,
        Command::StopJob,
        Command::SelectConfiguration,
        Command::SelectTarget,
        Command::DeleteBuildDir,
        Command::DeleteAllBuildDirs,
        Command::AddBuildEntry,
        Command::DuplicateBuildEntry,
        Command::RemoveBuildEntry,
        Command::ResetSetting,
        Command::Fetch,
        Command::CheckoutCommit,
        Command::Commit,
        Command::StageAll,
        Command::UnstageAll,
        Command::OpenChange,
        Command::ToggleAmend,
        Command::SwitchView,
        Command::NextView,
        Command::PreviousView,
        Command::DismissOutput,
        Command::Quit,
    ];

    /// Whether the command makes sense now, so the palette lists it.
    /// A command that would only report that there is nothing for it
    /// to do (undo with nothing to undo, a commit to check out with
    /// none selected) is left out, as is one that belongs to a page
    /// that isn't showing; the ones that open something (a file, the
    /// project search, a view) apply everywhere.
    pub fn is_available(self, context: &Context) -> (available: bool)
        ensures
            available == applies(self, *context),
    {
        let file = context.file;
        let build = context.build;
        let page = context.page;
        match self {
            Command::OpenFile | Command::SearchProject | Command::SwitchView | Command::Quit => true,
            Command::SwitchTab => context.has_tabs,
            Command::Save
            | Command::CloseTab
            | Command::Find
            | Command::GoToLine
            | Command::Paste
            | Command::SelectAll => file.is_some(),
            Command::DiscardChanges => match file { Some(f) => f.modified, None => false },
            Command::FindNext => match file { Some(f) => f.can_find_next, None => false },
            Command::NextConflict | Command::PreviousConflict => match file {
                Some(f) => f.has_conflicts,
                None => false,
            },
            Command::Undo => match file { Some(f) => f.can_undo, None => false },
            Command::Redo => match file { Some(f) => f.can_redo, None => false },
            Command::Cut | Command::Copy => match file { Some(f) => f.has_selection, None => false },
            Command::Build | Command::Run | Command::DeleteBuildDir => build.has_current,
            Command::StopJob => context.job_running,
            Command::SelectConfiguration => build.has_configurations,
            Command::SelectTarget => build.has_targets,
            Command::DeleteAllBuildDirs => build.has_roots,
            Command::AddBuildEntry => page == Page::Build,
            Command::DuplicateBuildEntry => page == Page::Build && build.can_duplicate,
            Command::RemoveBuildEntry => page == Page::Build && build.can_remove,
            Command::ResetSetting => page == Page::Settings,
            Command::Fetch => page == Page::GitLog,
            Command::CheckoutCommit => page == Page::GitLog && context.commit_selected,
            Command::Commit | Command::ToggleAmend => page == Page::Changes,
            Command::StageAll => page == Page::Changes && context.has_unstaged,
            Command::UnstageAll => page == Page::Changes && context.has_staged,
            Command::OpenChange => page == Page::Changes && context.change_selected,
            Command::NextView | Command::PreviousView => context.tool_pane_visible,
            Command::DismissOutput => context.output_idle,
        }
    }

    /// The name the palette shows and matches first.
    pub fn label(self) -> (label: &'static str)
        ensures
            label@ == label_of(self),
    {
        match self {
            Command::OpenFile => "Open file",
            Command::SwitchTab => "Switch tab",
            Command::Save => "Save file",
            Command::DiscardChanges => "Discard unsaved changes",
            Command::CloseTab => "Close tab",
            Command::Find => "Find in file",
            Command::FindNext => "Find next",
            Command::SearchProject => "Search in project",
            Command::GoToLine => "Go to line",
            Command::NextConflict => "Next conflict",
            Command::PreviousConflict => "Previous conflict",
            Command::Undo => "Undo",
            Command::Redo => "Redo",
            Command::Cut => "Cut",
            Command::Copy => "Copy",
            Command::Paste => "Paste",
            Command::SelectAll => "Select all",
            Command::Build => "Build",
            Command::Run => "Run",
            Command::StopJob => "Stop build or run",
            Command::SelectConfiguration => "Select build configuration",
            Command::SelectTarget => "Select build target",
            Command::DeleteBuildDir => "Delete build directory",
            Command::DeleteAllBuildDirs => "Delete all build directories",
            Command::AddBuildEntry => "Add build configuration or target",
            Command::DuplicateBuildEntry => "Duplicate build configuration or target",
            Command::RemoveBuildEntry => "Remove build configuration, target, or root",
            Command::ResetSetting => "Reset setting to default",
            Command::Fetch => "Fetch from remotes",
            Command::CheckoutCommit => "Check out commit",
            Command::Commit => "Commit",
            Command::StageAll => "Stage all changes",
            Command::UnstageAll => "Unstage all changes",
            Command::OpenChange => "Open changed file",
            Command::ToggleAmend => "Toggle amend",
            Command::SwitchView => "Switch view",
            Command::NextView => "Focus next view",
            Command::PreviousView => "Focus previous view",
            Command::DismissOutput => "Dismiss output",
            Command::Quit => "Quit",
        }
    }

    /// A line about what the command does, shown after the name and
    /// matched when the name doesn't.
    pub fn description(self) -> (description: &'static str)
        ensures
            description@ == description_of(self),
    {
        match self {
            Command::OpenFile => "Search the project's files and open one",
            Command::SwitchTab => "Search the open tabs and switch to one",
            Command::Save => "Save the active file",
            Command::DiscardChanges => "Reload the active file from disk, dropping its unsaved edits (undo brings them back)",
            Command::CloseTab => "Close the active file's tab",
            Command::Find => "Search the active file",
            Command::FindNext => "Go to the next match of the last search",
            Command::SearchProject => "Search every file in the project",
            Command::GoToLine => "Move the cursor to a line by number",
            Command::NextConflict => "Move the cursor to the start of the next merge conflict, wrapping around the end of the file",
            Command::PreviousConflict => "Move the cursor to the start of the previous merge conflict, wrapping around the start of the file",
            Command::Undo => "Undo the last edit",
            Command::Redo => "Redo the last undone edit",
            Command::Cut => "Cut the selection to the clipboard",
            Command::Copy => "Copy the selection to the clipboard",
            Command::Paste => "Paste from the clipboard",
            Command::SelectAll => "Select the whole file",
            Command::Build => "Build the current target with the current configuration",
            Command::Run => "Build and run the current target",
            Command::StopJob => "End the build or run under way in the output tool, as Ctrl+C in it does",
            Command::SelectConfiguration => "Pick the build configuration to build with",
            Command::SelectTarget => "Pick the target to build and run",
            Command::DeleteBuildDir => "Clean: delete what the current configuration has built, to build again from nothing",
            Command::DeleteAllBuildDirs => "Clean everything: delete what every configuration of every build root has built",
            Command::AddBuildEntry => "On the build page, add to the list the selection is in: a configuration or a target, or a build root with a root or nothing selected",
            Command::DuplicateBuildEntry => "On the build page, copy the selected configuration or target and select the copy",
            Command::RemoveBuildEntry => "On the build page, remove what is selected (Delete in the tree), on a second press of Delete; a discovered target is disabled instead, or enabled again",
            Command::ResetSetting => "On the settings page, put the focused setting back to its default",
            Command::Fetch => "On the git log page, fetch every remote of the repository in the background and refresh the page",
            Command::CheckoutCommit => "On the git log page, check out the selected commit (Space in the log): its branch, a new one tracking a remote's, or HEAD detached",
            Command::Commit => "On the changes page, commit what is staged with the message in the box",
            Command::StageAll => "On the changes page, stage every unstaged file (a in the unstaged list)",
            Command::UnstageAll => "On the changes page, unstage every staged file (a in the staged list)",
            Command::OpenChange => "On the changes page, open the selected file in the editor (o in a list), at its first conflict if it has one",
            Command::ToggleAmend => "On the changes page, make the commit replace the last one (git commit --amend), or follow it (m in a list)",
            Command::SwitchView => "Editor, a page, or a tool",
            Command::NextView => "Move the keyboard to the next view",
            Command::PreviousView => "Move the keyboard to the previous view",
            Command::DismissOutput => "Hide the output tool now that its job is over, giving the editor the keyboard (Ctrl+D in it)",
            Command::Quit => "Quit the editor",
        }
    }

    /// The key the command is bound to, if any, as the palette shows
    /// it: a key that does the command wherever the command is listed.
    /// A page's key that works in only one of its panes is named in
    /// the description instead.
    pub fn shortcut(self) -> (shortcut: Option<&'static str>)
        ensures
            shortcut is Some == shortcut_of(self) is Some,
            shortcut is Some ==> shortcut.unwrap()@ == shortcut_of(self).unwrap(),
    {
        match self {
            Command::OpenFile => Some("Ctrl+O"),
            Command::SwitchTab => Some("Ctrl+T"),
            Command::Save => Some("Ctrl+S"),
            Command::DiscardChanges => None,
            Command::CloseTab => Some("Ctrl+W"),
            Command::Find => Some("Ctrl+F"),
            Command::FindNext => Some("Ctrl+G"),
            Command::SearchProject => Some("Ctrl+Shift+F"),
            Command::GoToLine => Some("Ctrl+J"),
            Command::NextConflict => None,
            Command::PreviousConflict => None,
            Command::Undo => Some("Ctrl+Z"),
            Command::Redo => Some("Ctrl+Y"),
            Command::Cut => Some("Ctrl+X"),
            Command::Copy => Some("Ctrl+C"),
            Command::Paste => Some("Ctrl+V"),
            Command::SelectAll => Some("Ctrl+A"),
            Command::Build => Some("Ctrl+B"),
            Command::Run => Some("Ctrl+R"),
            Command::StopJob => None,
            Command::SelectConfiguration => None,
            Command::SelectTarget => None,
            Command::DeleteBuildDir => None,
            Command::DeleteAllBuildDirs => None,
            Command::AddBuildEntry => Some("Ctrl+N"),
            Command::DuplicateBuildEntry => Some("Ctrl+D"),
            Command::RemoveBuildEntry => None,
            Command::ResetSetting => Some("Ctrl+D"),
            Command::Fetch => Some("F5"),
            Command::CheckoutCommit => None,
            Command::Commit => Some("Ctrl+S"),
            Command::StageAll => None,
            Command::UnstageAll => None,
            Command::OpenChange => None,
            Command::ToggleAmend => None,
            Command::SwitchView => Some("Ctrl+E"),
            Command::NextView => Some("Ctrl+."),
            Command::PreviousView => Some("Ctrl+,"),
            Command::DismissOutput => None,
            Command::Quit => Some("Ctrl+Q"),
        }
    }
}


impl Command {
    /// The commands that make sense in `context`, in the palette's
    /// order: what the palette lists before anything is typed.
    pub fn available(context: &Context) -> (listed: Vec<Command>)
        ensures
            listed@ == command_order().filter(|command: Command| applies(command, *context)),
    {
        let all = Command::ALL;
        assert(all@ =~= command_order());
        let mut listed: Vec<Command> = Vec::new();
        let mut i: usize = 0;
        while i < 40
            invariant
                i <= 40,
                all@ == command_order(),
                listed@ == command_order().take(i as int).filter(
                    |command: Command| applies(command, *context),
                ),
            decreases 40 - i,
        {
            let command = all[i];
            proof {
                let pred = |command: Command| applies(command, *context);
                assert(command_order().take(i as int + 1).drop_last() =~= command_order().take(i as int));
                reveal(Seq::filter);
            }
            if command.is_available(context) {
                listed.push(command);
            }
            i = i + 1;
        }
        assert(command_order().take(40) =~= command_order());
        listed
    }
}

/// The commands that open something (a file, the project search, a
/// view) and quitting apply everywhere, whatever the context.
pub proof fn openers_apply_everywhere(context: Context)
    ensures
        applies(Command::OpenFile, context),
        applies(Command::SearchProject, context),
        applies(Command::SwitchView, context),
        applies(Command::Quit, context),
{
}

/// A page's own commands are listed on that page and nowhere else: the
/// build page's entries, the settings page's reset, the git log's fetch
/// and checkout, and the changes page's commit, staging, opening, and
/// amending.
pub proof fn page_commands_stay_on_their_page(command: Command, context: Context)
    requires
        applies(command, context),
    ensures
        command is AddBuildEntry || command is DuplicateBuildEntry || command is RemoveBuildEntry
            ==> context.page == Page::Build,
        command is ResetSetting ==> context.page == Page::Settings,
        command is Fetch || command is CheckoutCommit ==> context.page == Page::GitLog,
        command is Commit || command is StageAll || command is UnstageAll || command is OpenChange
            || command is ToggleAmend ==> context.page == Page::Changes,
{
}

/// With no file open (or a page standing in for the editor) none of the
/// commands that act on the active file is offered.
pub proof fn file_commands_need_a_file(command: Command, context: Context)
    requires
        context.file is None,
        command is Save || command is DiscardChanges || command is CloseTab || command is Find
            || command is FindNext || command is GoToLine || command is NextConflict
            || command is PreviousConflict || command is Undo || command is Redo || command is Cut
            || command is Copy || command is Paste || command is SelectAll,
    ensures
        !applies(command, context),
{
}

/// The default context, an editor with nothing open and nothing running,
/// lists the commands that apply everywhere and nothing else.
pub proof fn idle_context_lists_only_the_openers(command: Command)
    ensures
        applies(command, idle_context()) <==> (command is OpenFile || command is SearchProject
            || command is SwitchView || command is Quit),
{
}

/// No key is shown for two listed commands: wherever two commands are
/// listed together, at most one of them is bound to a given key. (The
/// keys shared across pages, Ctrl+S and Ctrl+D, never meet, since a page
/// standing in for the editor leaves no file to save.)
pub proof fn no_key_names_two_listed_commands(first: Command, second: Command, context: Context)
    requires
        context.page != Page::Editor ==> context.file is None,
        first != second,
        applies(first, context),
        applies(second, context),
    ensures
        shortcut_of(first) is None || shortcut_of(first) != shortcut_of(second),
{
    reveal_strlit("Ctrl+,");
    reveal_strlit("Ctrl+.");
    reveal_strlit("Ctrl+A");
    reveal_strlit("Ctrl+B");
    reveal_strlit("Ctrl+C");
    reveal_strlit("Ctrl+D");
    reveal_strlit("Ctrl+E");
    reveal_strlit("Ctrl+F");
    reveal_strlit("Ctrl+G");
    reveal_strlit("Ctrl+J");
    reveal_strlit("Ctrl+N");
    reveal_strlit("Ctrl+O");
    reveal_strlit("Ctrl+Q");
    reveal_strlit("Ctrl+R");
    reveal_strlit("Ctrl+S");
    reveal_strlit("Ctrl+Shift+F");
    reveal_strlit("Ctrl+T");
    reveal_strlit("Ctrl+V");
    reveal_strlit("Ctrl+W");
    reveal_strlit("Ctrl+X");
    reveal_strlit("Ctrl+Y");
    reveal_strlit("Ctrl+Z");
    reveal_strlit("F5");
    if shortcut_of(first) is Some && shortcut_of(first) == shortcut_of(second) {
        let key = shortcut_of(first).unwrap();
        let other = shortcut_of(second).unwrap();
        assert(key.len() == other.len());
        assert(key[key.len() - 1] == other[other.len() - 1]);
        assert(false);
    }
}

/// The commands on the active file follow its state: discarding needs
/// unsaved changes, undo and redo something to undo or redo, cut and copy
/// a selection, Ctrl+G a search to go on with, the conflict steps
/// conflicts; the rest of them a file open at all.
pub proof fn file_commands_follow_the_file(context: Context)
    ensures
        applies(Command::DiscardChanges, context) <==> (context.file matches Some(f) && f.modified),
        applies(Command::Undo, context) <==> (context.file matches Some(f) && f.can_undo),
        applies(Command::Redo, context) <==> (context.file matches Some(f) && f.can_redo),
        applies(Command::Cut, context) <==> (context.file matches Some(f) && f.has_selection),
        applies(Command::Copy, context) <==> (context.file matches Some(f) && f.has_selection),
        applies(Command::FindNext, context) <==> (context.file matches Some(f) && f.can_find_next),
        applies(Command::NextConflict, context) <==> (context.file matches Some(f) && f.has_conflicts),
        applies(Command::PreviousConflict, context) <==> (context.file matches Some(f)
            && f.has_conflicts),
        applies(Command::Save, context) <==> context.file is Some,
        applies(Command::CloseTab, context) <==> context.file is Some,
        applies(Command::Find, context) <==> context.file is Some,
        applies(Command::GoToLine, context) <==> context.file is Some,
        applies(Command::Paste, context) <==> context.file is Some,
        applies(Command::SelectAll, context) <==> context.file is Some,
{
}

/// The commands that build follow the build configuration and the job:
/// building, running, and deleting the build directory need a current
/// target; picking a configuration needs one to pick, a target one that
/// isn't disabled; deleting every build directory a root; stopping a
/// job a job running; dismissing the output its job over; and moving
/// between views a tool pane to move to.
pub proof fn build_commands_follow_the_build(context: Context)
    ensures
        applies(Command::Build, context) <==> context.build.has_current,
        applies(Command::Run, context) <==> context.build.has_current,
        applies(Command::DeleteBuildDir, context) <==> context.build.has_current,
        applies(Command::SelectConfiguration, context) <==> context.build.has_configurations,
        applies(Command::SelectTarget, context) <==> context.build.has_targets,
        applies(Command::DeleteAllBuildDirs, context) <==> context.build.has_roots,
        applies(Command::StopJob, context) <==> context.job_running,
        applies(Command::DismissOutput, context) <==> context.output_idle,
        applies(Command::NextView, context) <==> context.tool_pane_visible,
        applies(Command::PreviousView, context) <==> context.tool_pane_visible,
        applies(Command::SwitchTab, context) <==> context.has_tabs,
{
}

/// A page's commands need what they act on: duplicating and removing an
/// entry a selected one, checking out a selected commit, staging
/// something unstaged, unstaging something staged, opening a selected
/// file; adding an entry, resetting a setting, fetching, committing and
/// amending only their page.
pub proof fn page_commands_need_what_they_act_on(context: Context)
    ensures
        applies(Command::AddBuildEntry, context) <==> context.page == Page::Build,
        applies(Command::DuplicateBuildEntry, context) <==> (context.page == Page::Build
            && context.build.can_duplicate),
        applies(Command::RemoveBuildEntry, context) <==> (context.page == Page::Build
            && context.build.can_remove),
        applies(Command::ResetSetting, context) <==> context.page == Page::Settings,
        applies(Command::Fetch, context) <==> context.page == Page::GitLog,
        applies(Command::CheckoutCommit, context) <==> (context.page == Page::GitLog
            && context.commit_selected),
        applies(Command::Commit, context) <==> context.page == Page::Changes,
        applies(Command::ToggleAmend, context) <==> context.page == Page::Changes,
        applies(Command::StageAll, context) <==> (context.page == Page::Changes && context.has_unstaged),
        applies(Command::UnstageAll, context) <==> (context.page == Page::Changes && context.has_staged),
        applies(Command::OpenChange, context) <==> (context.page == Page::Changes
            && context.change_selected),
{
}

/// The palette's list holds every command exactly once.
pub proof fn every_command_is_listed_once(command: Command)
    ensures
        command_order().len() == 40,
        command_order().contains(command),
        forall|i: int, j: int|
            0 <= i < j < command_order().len() ==> command_order()[i] != command_order()[j],
{
    let order = command_order();
    assert(order.len() == 40);
    match command {
        Command::OpenFile => { assert(order[0] == command); }
        Command::SwitchTab => { assert(order[1] == command); }
        Command::Save => { assert(order[2] == command); }
        Command::DiscardChanges => { assert(order[3] == command); }
        Command::CloseTab => { assert(order[4] == command); }
        Command::Find => { assert(order[5] == command); }
        Command::FindNext => { assert(order[6] == command); }
        Command::SearchProject => { assert(order[7] == command); }
        Command::GoToLine => { assert(order[8] == command); }
        Command::NextConflict => { assert(order[9] == command); }
        Command::PreviousConflict => { assert(order[10] == command); }
        Command::Undo => { assert(order[11] == command); }
        Command::Redo => { assert(order[12] == command); }
        Command::Cut => { assert(order[13] == command); }
        Command::Copy => { assert(order[14] == command); }
        Command::Paste => { assert(order[15] == command); }
        Command::SelectAll => { assert(order[16] == command); }
        Command::Build => { assert(order[17] == command); }
        Command::Run => { assert(order[18] == command); }
        Command::StopJob => { assert(order[19] == command); }
        Command::SelectConfiguration => { assert(order[20] == command); }
        Command::SelectTarget => { assert(order[21] == command); }
        Command::DeleteBuildDir => { assert(order[22] == command); }
        Command::DeleteAllBuildDirs => { assert(order[23] == command); }
        Command::AddBuildEntry => { assert(order[24] == command); }
        Command::DuplicateBuildEntry => { assert(order[25] == command); }
        Command::RemoveBuildEntry => { assert(order[26] == command); }
        Command::ResetSetting => { assert(order[27] == command); }
        Command::Fetch => { assert(order[28] == command); }
        Command::CheckoutCommit => { assert(order[29] == command); }
        Command::Commit => { assert(order[30] == command); }
        Command::StageAll => { assert(order[31] == command); }
        Command::UnstageAll => { assert(order[32] == command); }
        Command::OpenChange => { assert(order[33] == command); }
        Command::ToggleAmend => { assert(order[34] == command); }
        Command::SwitchView => { assert(order[35] == command); }
        Command::NextView => { assert(order[36] == command); }
        Command::PreviousView => { assert(order[37] == command); }
        Command::DismissOutput => { assert(order[38] == command); }
        Command::Quit => { assert(order[39] == command); }
    }
}

/// Every command has a name and a line about what it does.
pub proof fn every_command_is_described(command: Command)
    ensures
        label_of(command).len() > 0,
        description_of(command).len() > 0,
{
    match command {
            Command::OpenFile => { reveal_strlit("Open file"); }
            Command::SwitchTab => { reveal_strlit("Switch tab"); }
            Command::Save => { reveal_strlit("Save file"); }
            Command::DiscardChanges => { reveal_strlit("Discard unsaved changes"); }
            Command::CloseTab => { reveal_strlit("Close tab"); }
            Command::Find => { reveal_strlit("Find in file"); }
            Command::FindNext => { reveal_strlit("Find next"); }
            Command::SearchProject => { reveal_strlit("Search in project"); }
            Command::GoToLine => { reveal_strlit("Go to line"); }
            Command::NextConflict => { reveal_strlit("Next conflict"); }
            Command::PreviousConflict => { reveal_strlit("Previous conflict"); }
            Command::Undo => { reveal_strlit("Undo"); }
            Command::Redo => { reveal_strlit("Redo"); }
            Command::Cut => { reveal_strlit("Cut"); }
            Command::Copy => { reveal_strlit("Copy"); }
            Command::Paste => { reveal_strlit("Paste"); }
            Command::SelectAll => { reveal_strlit("Select all"); }
            Command::Build => { reveal_strlit("Build"); }
            Command::Run => { reveal_strlit("Run"); }
            Command::StopJob => { reveal_strlit("Stop build or run"); }
            Command::SelectConfiguration => { reveal_strlit("Select build configuration"); }
            Command::SelectTarget => { reveal_strlit("Select build target"); }
            Command::DeleteBuildDir => { reveal_strlit("Delete build directory"); }
            Command::DeleteAllBuildDirs => { reveal_strlit("Delete all build directories"); }
            Command::AddBuildEntry => { reveal_strlit("Add build configuration or target"); }
            Command::DuplicateBuildEntry => { reveal_strlit("Duplicate build configuration or target"); }
            Command::RemoveBuildEntry => { reveal_strlit("Remove build configuration, target, or root"); }
            Command::ResetSetting => { reveal_strlit("Reset setting to default"); }
            Command::Fetch => { reveal_strlit("Fetch from remotes"); }
            Command::CheckoutCommit => { reveal_strlit("Check out commit"); }
            Command::Commit => { reveal_strlit("Commit"); }
            Command::StageAll => { reveal_strlit("Stage all changes"); }
            Command::UnstageAll => { reveal_strlit("Unstage all changes"); }
            Command::OpenChange => { reveal_strlit("Open changed file"); }
            Command::ToggleAmend => { reveal_strlit("Toggle amend"); }
            Command::SwitchView => { reveal_strlit("Switch view"); }
            Command::NextView => { reveal_strlit("Focus next view"); }
            Command::PreviousView => { reveal_strlit("Focus previous view"); }
            Command::DismissOutput => { reveal_strlit("Dismiss output"); }
            Command::Quit => { reveal_strlit("Quit"); }
    }
    match command {
            Command::OpenFile => { reveal_strlit("Search the project's files and open one"); }
            Command::SwitchTab => { reveal_strlit("Search the open tabs and switch to one"); }
            Command::Save => { reveal_strlit("Save the active file"); }
            Command::DiscardChanges => { reveal_strlit("Reload the active file from disk, dropping its unsaved edits (undo brings them back)"); }
            Command::CloseTab => { reveal_strlit("Close the active file's tab"); }
            Command::Find => { reveal_strlit("Search the active file"); }
            Command::FindNext => { reveal_strlit("Go to the next match of the last search"); }
            Command::SearchProject => { reveal_strlit("Search every file in the project"); }
            Command::GoToLine => { reveal_strlit("Move the cursor to a line by number"); }
            Command::NextConflict => { reveal_strlit("Move the cursor to the start of the next merge conflict, wrapping around the end of the file"); }
            Command::PreviousConflict => { reveal_strlit("Move the cursor to the start of the previous merge conflict, wrapping around the start of the file"); }
            Command::Undo => { reveal_strlit("Undo the last edit"); }
            Command::Redo => { reveal_strlit("Redo the last undone edit"); }
            Command::Cut => { reveal_strlit("Cut the selection to the clipboard"); }
            Command::Copy => { reveal_strlit("Copy the selection to the clipboard"); }
            Command::Paste => { reveal_strlit("Paste from the clipboard"); }
            Command::SelectAll => { reveal_strlit("Select the whole file"); }
            Command::Build => { reveal_strlit("Build the current target with the current configuration"); }
            Command::Run => { reveal_strlit("Build and run the current target"); }
            Command::StopJob => { reveal_strlit("End the build or run under way in the output tool, as Ctrl+C in it does"); }
            Command::SelectConfiguration => { reveal_strlit("Pick the build configuration to build with"); }
            Command::SelectTarget => { reveal_strlit("Pick the target to build and run"); }
            Command::DeleteBuildDir => { reveal_strlit("Clean: delete what the current configuration has built, to build again from nothing"); }
            Command::DeleteAllBuildDirs => { reveal_strlit("Clean everything: delete what every configuration of every build root has built"); }
            Command::AddBuildEntry => { reveal_strlit("On the build page, add to the list the selection is in: a configuration or a target, or a build root with a root or nothing selected"); }
            Command::DuplicateBuildEntry => { reveal_strlit("On the build page, copy the selected configuration or target and select the copy"); }
            Command::RemoveBuildEntry => { reveal_strlit("On the build page, remove what is selected (Delete in the tree), on a second press of Delete; a discovered target is disabled instead, or enabled again"); }
            Command::ResetSetting => { reveal_strlit("On the settings page, put the focused setting back to its default"); }
            Command::Fetch => { reveal_strlit("On the git log page, fetch every remote of the repository in the background and refresh the page"); }
            Command::CheckoutCommit => { reveal_strlit("On the git log page, check out the selected commit (Space in the log): its branch, a new one tracking a remote's, or HEAD detached"); }
            Command::Commit => { reveal_strlit("On the changes page, commit what is staged with the message in the box"); }
            Command::StageAll => { reveal_strlit("On the changes page, stage every unstaged file (a in the unstaged list)"); }
            Command::UnstageAll => { reveal_strlit("On the changes page, unstage every staged file (a in the staged list)"); }
            Command::OpenChange => { reveal_strlit("On the changes page, open the selected file in the editor (o in a list), at its first conflict if it has one"); }
            Command::ToggleAmend => { reveal_strlit("On the changes page, make the commit replace the last one (git commit --amend), or follow it (m in a list)"); }
            Command::SwitchView => { reveal_strlit("Editor, a page, or a tool"); }
            Command::NextView => { reveal_strlit("Move the keyboard to the next view"); }
            Command::PreviousView => { reveal_strlit("Move the keyboard to the previous view"); }
            Command::DismissOutput => { reveal_strlit("Hide the output tool now that its job is over, giving the editor the keyboard (Ctrl+D in it)"); }
            Command::Quit => { reveal_strlit("Quit the editor"); }
    }
}

} // verus!
