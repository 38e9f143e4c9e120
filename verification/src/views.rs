//! The places the keyboard can be, as the modes palette lists them: the
//! editor, the pages that stand in for it, and the tools below it. The
//! tools are counted by their kind's place in the tool module's list of
//! kinds; the settings page's and the git log's titles and each tool
//! kind's name and description come from the modules that show them, and
//! are handed in.

use crate::build_page;
use crate::changes_view;
use vstd::prelude::*;
use vstd::view::View as _;

verus! {

/// The modes palette's row for the editor.
pub const EDITOR_MODE_LABEL: &'static str = "Editor";

/// One of the places the keyboard can be.
#[derive(Clone, Copy, Debug, PartialEq, Eq, Structural)]
pub enum View {
    Editor,
    Settings,
    Build,
    GitLog,
    Changes,
    /// The tool of the kind at this place in the list of tool kinds.
    Tool(usize),
}

/// Every view, with `tools` kinds of tool, in the order the modes palette
/// lists the ones not used recently: the editor, the tools, and the pages
/// last, being the least often wanted.
pub open spec fn view_order(tools: nat) -> Seq<View> {
    seq![View::Editor] + Seq::new(tools, |k: int| View::Tool(k as usize)) + seq![
        View::GitLog,
        View::Changes,
        View::Build,
        View::Settings,
    ]
}

/// A view's name in the modes palette, given the settings page's and the
/// git log's titles and the name of the tool's kind.
pub open spec fn view_label(view: View, settings: Seq<char>, git_log: Seq<char>, tool: Seq<char>) -> Seq<char> {
    match view {
        View::Editor => EDITOR_MODE_LABEL@,
        View::Settings => settings,
        View::Build => build_page::TITLE@,
        View::GitLog => git_log,
        View::Changes => changes_view::TITLE@,
        View::Tool(_) => tool,
    }
}

/// What a view is for, given the description of the tool's kind.
pub open spec fn view_description(view: View, tool: Seq<char>) -> Seq<char> {
    match view {
        View::Editor => "Edit the open files"@,
        View::Settings => "Change the editor's settings"@,
        View::Build => "Set up how the project is built and run"@,
        View::GitLog => "Browse the project's git history: branches, commits, and their changes"@,
        View::Changes => "Review the uncommitted changes, stage them, and commit them; resolve merge conflicts"@,
        View::Tool(_) => tool,
    }
}

/// The key that shows a view, the shell's kind being at `shell`.
pub open spec fn view_shortcut(view: View, shell: usize) -> Option<Seq<char>> {
    match view {
        View::Tool(kind) => if kind == shell {
            Some("Ctrl+`"@)
        } else {
            None
        },
        View::GitLog => Some("Ctrl+L"@),
        View::Changes => Some("Ctrl+U"@),
        _ => None,
    }
}

impl View {
    /// Every view, with `tools` kinds of tool: see [`view_order`].
    pub fn all(tools: usize) -> (views: Vec<View>)
        ensures
            views@ == view_order(tools as nat),
    {
        let mut views: Vec<View> = Vec::new();
        views.push(View::Editor);
        let mut k: usize = 0;
        while k < tools
            invariant
                k <= tools,
                views@ == seq![View::Editor] + Seq::new(k as nat, |i: int| View::Tool(i as usize)),
            decreases tools - k,
        {
            views.push(View::Tool(k));
            proof {
                assert(views@ =~= seq![View::Editor] + Seq::new((k + 1) as nat, |i: int| View::Tool(i as usize)));
            }
            k = k + 1;
        }
        views.push(View::GitLog);
        views.push(View::Changes);
        views.push(View::Build);
        views.push(View::Settings);
        proof {
            assert(views@ =~= view_order(tools as nat));
        }
        views
    }

    /// The view's name in the modes palette, the settings page and the git
    /// log being titled `settings` and `git_log`, and a tool's kind named
    /// `tool`.
    pub fn label(self, settings: &'static str, git_log: &'static str, tool: &'static str) -> (label: &'static str)
        ensures
            label@ == view_label(self, settings@, git_log@, tool@),
    {
        match self {
            View::Editor => EDITOR_MODE_LABEL,
            View::Settings => settings,
            View::Build => build_page::TITLE,
            View::GitLog => git_log,
            View::Changes => changes_view::TITLE,
            View::Tool(_) => tool,
        }
    }

    /// What the view is for, a tool's kind being described by `tool`.
    pub fn description(self, tool: &'static str) -> (description: &'static str)
        ensures
            description@ == view_description(self, tool@),
    {
        match self {
            View::Editor => "Edit the open files",
            View::Settings => "Change the editor's settings",
            View::Build => "Set up how the project is built and run",
            View::GitLog => "Browse the project's git history: branches, commits, and their changes",
            View::Changes => "Review the uncommitted changes, stage them, and commit them; resolve merge conflicts",
            View::Tool(_) => tool,
        }
    }

    /// The key that shows the view, if one does, the shell's kind being at
    /// `shell`; the rest are reached through the modes palette.
    pub fn shortcut(self, shell: usize) -> (key: Option<&'static str>)
        ensures
            match key {
                Some(k) => view_shortcut(self, shell) == Some(k@),
                None => view_shortcut(self, shell) is None,
            },
    {
        match self {
            View::Tool(kind) => if kind == shell {
                Some("Ctrl+`")
            } else {
                None
            },
            View::GitLog => Some("Ctrl+L"),
            View::Changes => Some("Ctrl+U"),
            _ => None,
        }
    }
}

} // verus!
