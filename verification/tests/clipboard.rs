use ninjaedit_tui::clipboard::{kept_after_write, read_result, Clipboard};

#[test]
fn local_fallback_round_trips() {
    let mut clipboard = Clipboard::local_only();
    assert_eq!(clipboard.get(), None);
    clipboard.set("hello".to_string());
    assert_eq!(clipboard.get().as_deref(), Some("hello"));
    clipboard.set("again".to_string());
    assert_eq!(clipboard.get().as_deref(), Some("again"));
}

#[test]
fn the_system_clipboard_is_preferred_when_it_answers() {
    assert_eq!(kept_after_write("a".to_string(), true), None);
    assert_eq!(kept_after_write("a".to_string(), false), Some("a".to_string()));
    let local = Some("kept".to_string());
    assert_eq!(read_result(Some("system".to_string()), &local), Some("system".to_string()));
    assert_eq!(read_result(None, &local), Some("kept".to_string()));
    assert_eq!(read_result(None, &None), None);
}

#[test]
fn what_is_set_without_a_system_is_kept_and_got() {
    let mut clipboard = Clipboard::local_only();
    assert_eq!(clipboard.get(), None);
    clipboard.set("first".to_string());
    clipboard.set("second".to_string());
    assert_eq!(clipboard.get(), Some("second".to_string()));
    assert_eq!(clipboard.get(), Some("second".to_string()));
}
