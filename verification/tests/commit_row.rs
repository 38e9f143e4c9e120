use ninjaedit_tui::commit_row::{
    commit_extent, commit_lines, lane_cap, pieces_width, CommitText, Highlight, RefKind, RefLabel,
    Role,
};

fn commit(refs: Vec<RefLabel>) -> CommitText {
    CommitText {
        refs,
        summary: "Say hi".to_string(),
        author: "Ann".to_string(),
        short_id: "abc1234".to_string(),
        time: "2024-01-02 10:00".to_string(),
    }
}

fn label(name: &str, kind: RefKind, is_head: bool) -> RefLabel {
    RefLabel { name: name.to_string(), kind, is_head }
}

fn texts(pieces: &[(String, Role)]) -> String {
    pieces.iter().map(|(text, _)| text.as_str()).collect()
}

#[test]
fn heads_commit_says_so_before_its_references() {
    let on_branch = commit(vec![label("main", RefKind::Branch, true), label("v1", RefKind::Tag, false)]);
    let (first, second) = commit_lines(&on_branch, Highlight::Head);
    assert_eq!(texts(&first), "HEAD → main tag: v1  Say hi");
    assert_eq!(first[0], ("HEAD → ".to_string(), Role::HeadWords));
    assert_eq!(first[1], ("main ".to_string(), Role::Reference(RefKind::Branch)));
    assert_eq!(first.last().unwrap().1, Role::HighlightedSummary);
    assert_eq!(texts(&second), "Ann  abc1234  2024-01-02 10:00");
    // Detached: HEAD alone, before the references.
    let detached = commit(vec![label("origin/main", RefKind::RemoteBranch, false)]);
    let (first, _) = commit_lines(&detached, Highlight::Head);
    assert_eq!(texts(&first), "HEAD origin/main  Say hi");
    // A submodule's target is drawn as HEAD is but not called HEAD.
    let (first, _) = commit_lines(&detached, Highlight::Target);
    assert_eq!(texts(&first), "origin/main  Say hi");
    // An ordinary commit with no references is its message alone.
    let (first, _) = commit_lines(&commit(vec![]), Highlight::Ordinary);
    assert_eq!(first, vec![("Say hi".to_string(), Role::Plain)]);
}

#[test]
fn the_graph_takes_at_most_a_share_of_the_width() {
    assert_eq!(lane_cap(0), 1);
    assert_eq!(lane_cap(3), 1);
    assert_eq!(lane_cap(9), 2);
    assert_eq!(lane_cap(30), 5);
    assert_eq!(lane_cap(33), 6);
    assert_eq!(Highlight::head_if(true), Highlight::Head);
    assert_eq!(Highlight::head_if(false), Highlight::Ordinary);
    assert_eq!(Highlight::target_if(true), Highlight::Target);
}

#[test]
fn a_row_reaches_past_its_graph_by_its_longer_line() {
    let c = commit(vec![]);
    let (first, second) = commit_lines(&c, Highlight::Ordinary);
    assert_eq!(pieces_width(&first), 6);
    assert_eq!(pieces_width(&second), 30);
    assert_eq!(commit_extent(&c, Highlight::Ordinary, 4), 4 + 1 + 30);
}
