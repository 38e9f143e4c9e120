use ninjaedit_tui::geometry::Rect;
use ninjaedit_tui::input::{Mouse, MouseButton, MouseKind};
use ninjaedit_tui::mouse_route::{route_mouse, spends_prefix, MouseRoute, MouseScene, TabHit};

fn editor_scene() -> MouseScene {
    MouseScene {
        dragging_divider: false,
        palette: None,
        project_search: None,
        search_box: None,
        goto_line: None,
        status_configuration: Rect::new(60, 23, 5, 1),
        status_target: Rect::new(65, 23, 6, 1),
        tool_visible: false,
        divider: Rect::default(),
        tool_dragging: false,
        tool_tab: None,
        tool_term: Rect::default(),
        tool_link: false,
        page: false,
        page_tab: None,
        page_has_pointer: false,
        editor_dragging: false,
        editor_tab: None,
        editor_under: true,
    }
}

fn at(kind: MouseKind, column: u16, row: u16) -> Mouse {
    Mouse { kind, column, row }
}

const LEFT: MouseKind = MouseKind::Down(MouseButton::Left);

#[test]
fn overlays_take_the_mouse_first() {
    let palette = MouseScene { palette: Some(false), ..editor_scene() };
    assert_eq!(route_mouse(&palette, at(LEFT, 5, 5)), MouseRoute::ClosePalette);
    assert_eq!(route_mouse(&palette, at(MouseKind::ScrollDown, 5, 5)), MouseRoute::Nothing);
    let over = MouseScene { palette: Some(true), ..editor_scene() };
    assert_eq!(route_mouse(&over, at(MouseKind::ScrollDown, 5, 5)), MouseRoute::Palette);
    let search = MouseScene { search_box: Some(false), ..editor_scene() };
    assert_eq!(route_mouse(&search, at(LEFT, 5, 5)), MouseRoute::CloseSearchBox);
    assert_eq!(
        route_mouse(&search, at(MouseKind::ScrollDown, 5, 5)),
        MouseRoute::Editor { focus: false },
        "the wheel scrolls the editor under the search box"
    );
    let dragging = MouseScene { dragging_divider: true, palette: Some(true), ..editor_scene() };
    assert_eq!(route_mouse(&dragging, at(MouseKind::Drag(MouseButton::Left), 5, 9)), MouseRoute::DragDivider);
    assert_eq!(route_mouse(&dragging, at(MouseKind::Up(MouseButton::Left), 5, 9)), MouseRoute::EndDividerDrag);
}

#[test]
fn the_status_bar_tool_pane_and_tabs_take_presses() {
    let scene = editor_scene();
    assert_eq!(route_mouse(&scene, at(LEFT, 61, 23)), MouseRoute::PickConfiguration);
    assert_eq!(route_mouse(&scene, at(LEFT, 66, 23)), MouseRoute::PickTarget);
    let tools = MouseScene {
        tool_visible: true,
        divider: Rect::new(0, 14, 80, 1),
        tool_term: Rect::new(0, 16, 80, 7),
        ..scene
    };
    assert_eq!(route_mouse(&tools, at(LEFT, 3, 14)), MouseRoute::StartDividerDrag);
    assert_eq!(route_mouse(&tools, at(LEFT, 3, 18)), MouseRoute::Tool { focus: true });
    assert_eq!(route_mouse(&tools, at(MouseKind::ScrollUp, 3, 18)), MouseRoute::Tool { focus: false });
    let link = MouseScene { tool_link: true, ..tools };
    assert_eq!(route_mouse(&link, at(LEFT, 3, 18)), MouseRoute::OpenLink);
    let tab = MouseScene { tool_tab: Some(TabHit::Close(1)), ..tools };
    assert_eq!(route_mouse(&tab, at(LEFT, 3, 15)), MouseRoute::ToolTab(TabHit::Close(1)));
    assert_eq!(route_mouse(&tab, at(MouseKind::Moved, 3, 15)), MouseRoute::Nothing);
    let editor_tab = MouseScene { editor_tab: Some(TabHit::Tab(2)), ..scene };
    assert_eq!(route_mouse(&editor_tab, at(LEFT, 3, 0)), MouseRoute::EditorTab(TabHit::Tab(2)));
    assert_eq!(route_mouse(&scene, at(LEFT, 3, 3)), MouseRoute::Editor { focus: true });
    let drag = MouseScene { editor_dragging: true, editor_under: false, ..scene };
    assert_eq!(route_mouse(&drag, at(MouseKind::Drag(MouseButton::Left), 3, 40)), MouseRoute::EditorDrag);
    let page = MouseScene { page: true, page_has_pointer: true, ..scene };
    assert_eq!(route_mouse(&page, at(LEFT, 3, 3)), MouseRoute::Page { focus: true });
    let nothing = MouseScene { page: true, ..scene };
    assert_eq!(route_mouse(&nothing, at(LEFT, 3, 3)), MouseRoute::Nothing);
    assert!(spends_prefix(at(LEFT, 0, 0)));
    assert!(!spends_prefix(at(MouseKind::Moved, 0, 0)));
}
