//! The terminal front end of the editor: the state and decisions behind
//! its command palette, right-click menus, pages, and panes, apart from
//! drawing them.

pub mod command;
pub mod geometry;
pub mod input;
pub mod context_menu;
pub mod text;
pub mod clicks;
pub mod diff_pane;
pub mod changes_view;
pub mod build_view;
pub mod commit_row;
pub mod branch_prompt;
pub mod clipboard;
pub mod screen;
pub mod status_bar;
pub mod mouse_route;
pub mod changes_input;
pub mod tabs;
pub mod build_page;
pub mod changes_tabs;
pub mod key_route;
pub mod search;
pub mod recent;
pub mod file_list;
pub mod job;
pub mod notices;
pub mod empty_page;
pub mod views;
