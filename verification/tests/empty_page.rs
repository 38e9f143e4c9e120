use ninjaedit_tui::empty_page::{
    centered_x, empty_lines, fit_location, key_table, top_row, EmptyLine, NOT_A_PROJECT,
};

#[test]
fn a_location_too_wide_keeps_its_end() {
    assert_eq!(fit_location("/home/ann/project", 40), "/home/ann/project");
    assert_eq!(fit_location("/home/ann/project", 8), "…project");
    assert_eq!(fit_location("/home/ann/project", 0), "/home/ann/project");
    assert_eq!(fit_location("abc", 1), "…");
}

#[test]
fn the_keys_read_as_a_table() {
    let rows = key_table(true);
    assert_eq!(rows.len(), 12);
    assert_eq!(rows[0], "Ctrl+O         open a project file");
    assert_eq!(rows[1], "Ctrl+Shift+F   search in project files");
    assert_eq!(rows[11], "Ctrl+Q         quit");
    let rows = key_table(false);
    assert_eq!(rows[0], "Ctrl+O         open a file in this directory");
}

#[test]
fn the_page_names_the_editor_and_where_it_was_started() {
    let rows = key_table(false);
    let lines = empty_lines("/tmp/x".to_string(), false, &rows);
    assert_eq!(lines.len(), 18);
    assert_eq!(lines[0], EmptyLine::Heading("Ninja Edit".to_string()));
    assert_eq!(lines[1], EmptyLine::Centered("/tmp/x".to_string()));
    assert_eq!(lines[2], EmptyLine::Centered(NOT_A_PROJECT.to_string()));
    assert_eq!(lines[4], EmptyLine::Centered("No files open".to_string()));
    assert_eq!(lines[6], EmptyLine::Row(rows[0].clone()));
    let project = empty_lines("demo".to_string(), true, &rows);
    assert_eq!(project.len(), 17);
    assert_eq!(top_row(1, 24, 17), 4);
    assert_eq!(top_row(1, 10, 17), 1);
    assert_eq!(centered_x(0, 80, 10), 35);
    assert_eq!(centered_x(5, 8, 10), 5);
}

#[test]
fn empty_page_lays_the_keys_out_as_a_table() {
    let table = key_table(true);
    assert_eq!(table.len(), 12);
    // The rows as the page draws them, 80 columns wide, the table
    // centered as a block.
    let table_width = table.iter().map(|row| row.chars().count()).max().unwrap();
    let x = centered_x(0, 80, table_width) as usize;
    let screen: Vec<String> = table
        .iter()
        .map(|row| format!("{}{}", " ".repeat(x), row))
        .collect();
    let rows: Vec<&String> = screen.iter().filter(|l| l.contains("Ctrl+")).collect();
    assert_eq!(rows.len(), 12, "{screen:#?}");
    // Every key starts in the same column, and so does every description.
    let key_column = rows[0].find("Ctrl+").unwrap();
    let description_column = rows[0].find("open a project file").unwrap();
    for row in &rows {
        assert_eq!(row.find("Ctrl+"), Some(key_column), "{row:?}");
        let description = row[key_column..].trim_start_matches(|c: char| !c.is_whitespace());
        let description_start = row.len() - description.trim_start().len();
        assert_eq!(description_start, description_column, "{row:?}");
    }
    // The table is centered as a block: its widest row has as much room
    // on the left as on the right.
    let widest = rows.iter().map(|r| r.trim_end().len()).max().unwrap();
    let right = 80 - widest;
    assert!(key_column.abs_diff(right) <= 1, "{screen:#?}");
}
