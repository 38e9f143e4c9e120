use ninjaedit_tui::build_page::{
    is_current, node_label, Current,
    add_to, build_key, build_mouse, nothing_to_duplicate, options_lines, page_of, page_panes,
    removal_notice, settle_scroll, tag_x, AddTo, BuildKey, BuildMouse, BuildPane, Line, RowFacts,
    FINDING_NOTE,
};
use ninjaedit_tui::build_view::{
    follow, tree_rows, BuildOutcome, BuildTree, DeleteStep, Node, Removal, RootRows,
};
use ninjaedit_tui::geometry::Rect;
use ninjaedit_tui::input::{Key, KeyCode, Mouse, MouseButton, MouseKind};

fn cargo_root() -> RootRows {
    RootRows {
        configurations: vec![0, 1],
        targets: vec![1, 0],
    }
}

#[test]
fn the_tree_lists_each_root_with_its_headings() {
    let rows = tree_rows(&[cargo_root()]);
    assert_eq!(
        rows,
        vec![
            Node::Root(0),
            Node::Configurations(0),
            Node::Configuration(0, 0),
            Node::Configuration(0, 1),
            Node::Targets(0),
            Node::Target(0, 1),
            Node::Target(0, 0),
        ]
    );
    assert_eq!(Node::Target(0, 1).root(), 0);
    assert_eq!(Node::Root(2).indent(), 1);
    assert_eq!(Node::Targets(2).indent(), 3);
    assert_eq!(Node::Configuration(2, 0).indent(), 5);
}

#[test]
fn a_new_tree_selects_the_current_configuration() {
    let tree = BuildTree::new(&[cargo_root()], Some((0, 1)));
    assert_eq!(tree.selected_index(), 3);
    assert_eq!(tree.selected_node(), Some(Node::Configuration(0, 1)));
    let tree = BuildTree::new(&[cargo_root()], None);
    assert_eq!(tree.selected_index(), 0);
    let empty = BuildTree::new(&[], Some((0, 0)));
    assert_eq!(empty.selected_node(), None);
}

#[test]
fn arrows_and_pages_move_within_the_rows() {
    let mut tree = BuildTree::new(&[cargo_root()], None);
    assert!(tree.move_key(KeyCode::Down, 5));
    assert_eq!(tree.selected_index(), 1);
    assert!(tree.move_key(KeyCode::PageDown, 5));
    assert_eq!(tree.selected_index(), 6);
    assert!(tree.move_key(KeyCode::Down, 5));
    assert_eq!(tree.selected_index(), 6, "the last row stays selected");
    assert!(tree.move_key(KeyCode::Home, 5));
    assert_eq!(tree.selected_index(), 0);
    assert!(tree.move_key(KeyCode::Up, 5));
    assert_eq!(tree.selected_index(), 0);
    assert!(tree.move_key(KeyCode::End, 5));
    assert_eq!(tree.selected_index(), 6);
    assert!(!tree.move_key(KeyCode::Enter, 5));
    assert_eq!(tree.selected_index(), 6);
}

#[test]
fn rebuilding_keeps_the_selection_on_its_row_wherever_it_went() {
    let mut tree = BuildTree::new(&[cargo_root()], Some((0, 1)));
    // A configuration added ahead of it in name order.
    let grown = RootRows {
        configurations: vec![2, 0, 1],
        targets: vec![1, 0],
    };
    tree.rebuild(&[grown]);
    assert_eq!(tree.selected_node(), Some(Node::Configuration(0, 1)));
    assert_eq!(tree.selected_index(), 4);
    // Its row gone: the same place, within the rows.
    let shrunk = RootRows {
        configurations: vec![],
        targets: vec![],
    };
    tree.rebuild(&[shrunk]);
    assert_eq!(tree.selected_index(), 2);
    assert_eq!(tree.selected_node(), Some(Node::Targets(0)));
}

#[test]
fn found_targets_move_the_rows_and_the_selection_follows() {
    let mut tree = BuildTree::new(&[cargo_root()], None);
    tree.select(Node::Target(0, 0), &[cargo_root()]);
    assert_eq!(tree.selected_index(), 6);
    // Two targets found ahead of the user's: theirs move up by two.
    let moved = [Some(2), Some(3)];
    assert_eq!(follow(Some(Node::Target(0, 0)), 0, &moved), Some(Node::Target(0, 2)));
    assert_eq!(follow(Some(Node::Target(1, 0)), 0, &moved), Some(Node::Target(1, 0)));
    assert_eq!(follow(Some(Node::Target(0, 5)), 0, &moved), None);
    let found = RootRows {
        configurations: vec![0, 1],
        targets: vec![0, 1, 3, 2],
    };
    tree.targets_moved(0, &moved, &[found]);
    assert_eq!(tree.selected_node(), Some(Node::Target(0, 2)));
}

#[test]
fn removing_selects_the_entry_in_the_same_place() {
    let mut tree = BuildTree::new(&[cargo_root()], Some((0, 1)));
    let after = RootRows {
        configurations: vec![0],
        targets: vec![1, 0],
    };
    tree.removed(Node::Configuration(0, 1), 1, &[after]);
    assert_eq!(tree.selected_node(), Some(Node::Configuration(0, 0)));
}

#[test]
fn delete_removes_on_the_second_press_running() {
    let mut removal = Removal { confirm: None };
    assert_eq!(removal.delete(Node::Targets(0), false), DeleteStep::Refuse);
    assert_eq!(removal.delete(Node::Target(0, 0), true), DeleteStep::ToggleDisabled);
    assert_eq!(removal.delete(Node::Configuration(0, 1), false), DeleteStep::AskToConfirm);
    assert_eq!(removal.confirm, Some(Node::Configuration(0, 1)));
    assert_eq!(removal.delete(Node::Configuration(0, 1), false), DeleteStep::Remove);
    assert_eq!(removal.confirm, None);
    // Another key between the presses starts over.
    assert_eq!(removal.delete(Node::Root(0), false), DeleteStep::AskToConfirm);
    removal.interrupt();
    assert_eq!(removal.delete(Node::Root(0), false), DeleteStep::AskToConfirm);
}

#[test]
fn the_page_is_split_a_third_for_the_tree() {
    let panes = page_panes(Rect::new(0, 0, 90, 20));
    assert_eq!(panes.tree, Rect::new(0, 0, 30, 20));
    assert_eq!(panes.options, Rect::new(31, 0, 59, 20));
    let wide = page_panes(Rect::new(0, 0, 300, 20));
    assert_eq!(wide.tree.width, 40);
    let narrow = page_panes(Rect::new(0, 0, 30, 20));
    assert_eq!(narrow.tree, Rect::new(0, 0, 30, 20));
    assert_eq!(narrow.options.width, 0);
    let tiny = page_panes(Rect::new(0, 0, 10, 20));
    assert_eq!(tiny.tree, Rect::default());
}

#[test]
fn scrolling_settles_to_show_what_is_revealed() {
    assert_eq!(settle_scroll(50, 30, 10, None), 20);
    assert_eq!(settle_scroll(5, 30, 10, Some((12, 14))), 5);
    assert_eq!(settle_scroll(5, 30, 10, Some((18, 20))), 11);
    assert_eq!(settle_scroll(15, 30, 10, Some((3, 4))), 3);
    // A pane with no rows at all still settles as the page does.
    assert_eq!(settle_scroll(3, 5, 0, Some((2, 2))), 2);
    assert_eq!(settle_scroll(1, 5, 0, Some((2, 2))), 3);
    assert_eq!(settle_scroll(9, 5, 0, None), 5);
    assert_eq!(page_of(10), 9);
    assert_eq!(page_of(1), 1);
}

#[test]
fn the_current_tag_follows_the_label_when_there_is_room() {
    assert_eq!(tag_x(5, 4, 20, 40), Some(11));
    assert_eq!(tag_x(5, 30, 20, 40), Some(27));
    assert_eq!(tag_x(5, 30, 20, 27), None);
}

#[test]
fn options_list_the_fields_under_a_heading() {
    let facts = RowFacts {
        system: Some("Cargo"),
        root_label: "Cargo.toml",
        pending: false,
        disabled: true,
        found_as: Some("the package lib"),
    };
    let lines = options_lines(Node::Target(0, 1), &facts, 2);
    assert_eq!(
        lines,
        vec![
            Line::Heading("Cargo target (disabled)".to_string()),
            Line::Blank,
            Line::Text(
                "Found in Cargo.toml as the package lib, so it follows the project and can't be removed"
                    .to_string()
            ),
            Line::Text("Disabled: not built until Delete enables it again".to_string()),
            Line::Blank,
            Line::Name(0),
            Line::Field(0),
            Line::Note(0),
            Line::Blank,
            Line::Name(1),
            Line::Field(1),
            Line::Note(1),
            Line::Blank,
        ]
    );
    let pending = RowFacts {
        system: None,
        root_label: "",
        pending: true,
        disabled: false,
        found_as: None,
    };
    let lines = options_lines(Node::Targets(0), &pending, 0);
    assert_eq!(lines[0], Line::Heading("Targets".to_string()));
    assert_eq!(lines[4], Line::Text(FINDING_NOTE.to_string()));
    assert_eq!(lines.last(), Some(&Line::Text("Ctrl+N adds a target".to_string())));
    assert!(options_lines(Node::Configuration(0, 0), &pending, 0).is_empty());
}

#[test]
fn keys_and_the_mouse_on_the_page() {
    let plain = |code| Key::plain(code);
    assert_eq!(build_key(BuildPane::Tree, Key::ctrl(KeyCode::Char('n')), 0, true, 0, 5, 5), BuildKey::Add);
    assert_eq!(build_key(BuildPane::Tree, plain(KeyCode::Delete), 0, true, 0, 5, 5), BuildKey::Remove);
    assert_eq!(build_key(BuildPane::Tree, plain(KeyCode::PageDown), 3, true, 0, 5, 5), BuildKey::Select(8));
    assert_eq!(build_key(BuildPane::Tree, plain(KeyCode::Right), 3, true, 0, 5, 5), BuildKey::FocusOptions);
    assert_eq!(build_key(BuildPane::Options, plain(KeyCode::Up), 3, true, 0, 5, 5), BuildKey::LeaveOptions);
    assert_eq!(build_key(BuildPane::Options, plain(KeyCode::Up), 3, false, 0, 5, 5), BuildKey::Field);
    assert_eq!(build_key(BuildPane::Options, plain(KeyCode::PageUp), 3, false, 2, 5, 5), BuildKey::ScrollOptions(0));
    let tree = Rect::new(0, 2, 30, 10);
    let at = |kind, row| Mouse { kind, column: 4, row };
    assert_eq!(build_mouse(tree, 4, 20, 0, at(MouseKind::Down(MouseButton::Left), 5)), BuildMouse::SelectRow(7));
    assert_eq!(build_mouse(tree, 4, 6, 0, at(MouseKind::Down(MouseButton::Left), 5)), BuildMouse::TreeMiss);
    assert_eq!(build_mouse(tree, 4, 20, 0, at(MouseKind::ScrollUp, 5)), BuildMouse::ScrollTree(1));
    assert_eq!(build_mouse(tree, 4, 20, 7, at(MouseKind::ScrollDown, 20)), BuildMouse::ScrollOptions(10));
}

#[test]
fn what_add_duplicate_and_remove_say() {
    assert_eq!(add_to(None), AddTo::Roots);
    assert_eq!(add_to(Some(Node::Configuration(1, 0))), AddTo::Configurations(1));
    assert_eq!(add_to(Some(Node::Targets(2))), AddTo::Targets(2));
    assert_eq!(
        nothing_to_duplicate(),
        BuildOutcome::Notice("Select a configuration or a target to duplicate".to_string())
    );
    assert_eq!(
        removal_notice(Node::Configuration(0, 0), "dev"),
        BuildOutcome::Notice("Press Delete again to remove the configuration dev".to_string())
    );
    assert_eq!(
        removal_notice(Node::Targets(0), "Targets"),
        BuildOutcome::Notice("Select a root, a configuration, or a target to remove".to_string())
    );
}

#[test]
fn tree_rows_are_labelled_and_the_current_ones_tagged() {
    assert_eq!(node_label(Node::Root(0), "Cargo.toml", false, ""), "Cargo.toml");
    assert_eq!(node_label(Node::Configurations(0), "Cargo.toml", false, ""), "Configurations");
    assert_eq!(node_label(Node::Targets(0), "Cargo.toml", true, ""), "Targets (finding…)");
    assert_eq!(node_label(Node::Targets(0), "Cargo.toml", false, ""), "Targets");
    assert_eq!(node_label(Node::Target(0, 1), "Cargo.toml", false, "lib"), "lib");
    let current = Some(Current { root: 0, configuration: 1, target: 0 });
    assert!(is_current(Node::Configuration(0, 1), current));
    assert!(is_current(Node::Target(0, 0), current));
    assert!(!is_current(Node::Target(0, 1), current));
    assert!(!is_current(Node::Configuration(1, 1), current));
    assert!(!is_current(Node::Root(0), current));
    assert!(!is_current(Node::Configuration(0, 1), None));
}

#[test]
fn another_key_between_two_deletes_cancels_the_removal() {
    let mut removal = Removal { confirm: None };
    assert_eq!(removal.delete(Node::Target(0, 1), false), DeleteStep::AskToConfirm);
    // Delete again keeps the request for the press to confirm.
    removal.after_key(&BuildKey::Remove);
    assert_eq!(removal.confirm, Some(Node::Target(0, 1)));
    assert_eq!(removal.delete(Node::Target(0, 1), false), DeleteStep::Remove);
    // Any other key in between lets it lapse, and Delete asks again.
    assert_eq!(removal.delete(Node::Root(0), false), DeleteStep::AskToConfirm);
    removal.after_key(&BuildKey::Select(3));
    assert_eq!(removal.confirm, None);
    assert_eq!(removal.delete(Node::Root(0), false), DeleteStep::AskToConfirm);
    // A found target toggles at once, each press.
    assert_eq!(removal.delete(Node::Target(0, 0), true), DeleteStep::ToggleDisabled);
    assert_eq!(removal.delete(Node::Target(0, 0), true), DeleteStep::ToggleDisabled);
}
