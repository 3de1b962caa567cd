use smash_shell::events::{EventStatus, KeyCode, KeyEvent, KeyModifiers, SmashEvent};
use smash_shell::geometry::Rect;
use smash_shell::textbox::use_textbox;

fn key_event(code: KeyCode, modifiers: KeyModifiers) -> KeyEvent {
    KeyEvent::new(code, modifiers)
}

fn press(textbox: &mut smash_shell::textbox::TextBoxState, code: KeyCode, modifiers: KeyModifiers) -> EventStatus {
    textbox.handle_smash_event(&SmashEvent::Key(key_event(code, modifiers)))
}

#[test]
fn textbox_smash_event_reports_handled_for_selection_commands() {
    let mut textbox = use_textbox("hello world");
    textbox.focus();

    assert_eq!(press(&mut textbox, KeyCode::Char('a'), KeyModifiers::control()), EventStatus::Handled);
    assert_eq!(textbox.get_normalized_selection(), Some(((0, 0), (0, 11))));
}

#[test]
fn read_only_textbox_allows_selection_but_blocks_edits() {
    let mut textbox = use_textbox("hello");
    textbox.set_read_only(true);
    textbox.focus();

    assert_eq!(press(&mut textbox, KeyCode::Char('a'), KeyModifiers::control()), EventStatus::Handled);
    assert_eq!(textbox.get_normalized_selection(), Some(((0, 0), (0, 5))));

    assert_eq!(press(&mut textbox, KeyCode::Char('!'), KeyModifiers::none()), EventStatus::Ignored);
    assert_eq!(textbox.lines(), vec!["hello".to_string()]);
}

#[test]
fn textbox_word_delete_left_crosses_line_boundary() {
    let mut textbox = use_textbox("hello\nworld");
    textbox.focus();
    textbox.set_cursor(1, 0);

    assert_eq!(press(&mut textbox, KeyCode::Backspace, KeyModifiers::control()), EventStatus::Handled);

    assert_eq!(textbox.lines(), vec!["world".to_string()]);
    assert_eq!(textbox.cursor(), (0, 0));
}

#[test]
fn textbox_word_delete_right_crosses_line_boundary() {
    let mut textbox = use_textbox("hello\nworld");
    textbox.focus();
    textbox.set_cursor(0, 5);

    assert_eq!(press(&mut textbox, KeyCode::Delete, KeyModifiers::control()), EventStatus::Handled);

    assert_eq!(textbox.lines(), vec!["hello".to_string()]);
    assert_eq!(textbox.cursor(), (0, 5));
}

#[test]
fn textbox_horizontal_scroll_keeps_cursor_visible() {
    let mut textbox = use_textbox("abcdef");
    textbox.focus();
    textbox.set_cursor(0, 5);

    textbox.sync_viewport(Rect::new(0, 0, 8, 3));

    assert_eq!(textbox.scroll().1, 4);
}

#[test]
fn textbox_cursor_uses_terminal_display_width() {
    let mut textbox = use_textbox("界a");
    textbox.set_show_line_numbers(false);
    textbox.focus();
    textbox.set_cursor(0, 1);

    textbox.sync_viewport(Rect::new(0, 0, 8, 3));
    assert_eq!(textbox.cursor_screen_position(Rect::new(0, 0, 8, 3)), Some((3, 1)));
}

#[test]
fn typing_then_backspace_restores_text() {
    let mut textbox = use_textbox("ab\ncd");
    textbox.focus();
    textbox.set_cursor(1, 1);
    press(&mut textbox, KeyCode::Char('x'), KeyModifiers::none());
    assert_eq!(textbox.lines(), vec!["ab".to_string(), "cxd".to_string()]);
    press(&mut textbox, KeyCode::Backspace, KeyModifiers::none());
    assert_eq!(textbox.lines(), vec!["ab".to_string(), "cd".to_string()]);
    assert_eq!(textbox.cursor(), (1, 1));
}

#[test]
fn enter_then_backspace_restores_text() {
    let mut textbox = use_textbox("abcd");
    textbox.focus();
    textbox.set_cursor(0, 2);
    press(&mut textbox, KeyCode::Enter, KeyModifiers::none());
    assert_eq!(textbox.lines(), vec!["ab".to_string(), "cd".to_string()]);
    assert_eq!(textbox.cursor(), (1, 0));
    press(&mut textbox, KeyCode::Backspace, KeyModifiers::none());
    assert_eq!(textbox.lines(), vec!["abcd".to_string()]);
    assert_eq!(textbox.cursor(), (0, 2));
}

#[test]
fn unfocused_textbox_starts_editing_on_enter_and_leaves_on_esc() {
    let mut textbox = use_textbox("x");
    assert_eq!(press(&mut textbox, KeyCode::Char('y'), KeyModifiers::none()), EventStatus::Ignored);
    assert_eq!(press(&mut textbox, KeyCode::Enter, KeyModifiers::none()), EventStatus::Handled);
    assert!(textbox.is_focused());
    assert_eq!(press(&mut textbox, KeyCode::Esc, KeyModifiers::none()), EventStatus::Handled);
    assert!(!textbox.is_focused());
    assert!(textbox.is_selected());
}

#[test]
fn visible_rows_show_the_scrolled_window_and_selection() {
    let mut textbox = use_textbox("first line\nsecond line\nthird");
    textbox.set_show_line_numbers(false);
    textbox.focus();
    press(&mut textbox, KeyCode::Char('a'), KeyModifiers::control());
    let rows = textbox.visible_rows(Rect::new(0, 0, 8, 4));
    assert_eq!(rows.len(), 2);
    assert_eq!(rows[0].line_index, 0);
    assert_eq!(rows[0].text.iter().collect::<String>(), "first ");
    assert_eq!(rows[0].selection, Some((0, 6)));
    assert_eq!(rows[1].text.iter().collect::<String>(), "second");
}
