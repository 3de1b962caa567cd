use smash_shell::dialog::use_dialog;
use smash_shell::events::{
    use_dispatcher, EventStatus, KeyCode, KeyEvent, KeyModifiers, MouseButton, MouseEvent,
    MouseEventKind, SmashEvent,
};
use smash_shell::geometry::Rect;
use smash_shell::text_selection::{CellPos, TextProvider, TextSelection};

struct Grid {
    rows: Vec<String>,
}

impl TextProvider for Grid {
    fn text_in_range(&self, top: CellPos, bottom: CellPos, _area: Rect) -> String {
        let mut out = Vec::new();
        for row in top.0..=bottom.0 {
            if let Some(line) = self.rows.get(row as usize) {
                out.push(line.clone());
            }
        }
        out.join("\n")
    }

    fn full_text(&self) -> String {
        self.rows.join("\n")
    }
}

fn press(column: u16, row: u16, kind: MouseEventKind) -> SmashEvent {
    SmashEvent::Mouse(MouseEvent { kind, column, row, modifiers: KeyModifiers::none() })
}

#[test]
fn copying_empty_text_gives_nothing() {
    let selection = TextSelection::new();
    assert_eq!(selection.copy_text(""), None);
    assert_eq!(selection.copy_text("hello"), Some("hello".to_string()));
}

#[test]
fn copying_a_selection_reads_the_rows_between_its_ends() {
    let grid = Grid { rows: vec!["alpha".to_string(), "beta".to_string(), "gamma".to_string()] };
    let area = Rect::new(0, 0, 10, 3);
    let mut selection = TextSelection::new();
    assert_eq!(selection.copy(&grid, area), None);

    selection.handle_mouse_event(&press(1, 2, MouseEventKind::Down(MouseButton::Left)), area);
    selection.handle_mouse_event(&press(3, 1, MouseEventKind::Drag(MouseButton::Left)), area);
    assert_eq!(selection.copy(&grid, area), Some("beta\ngamma".to_string()));
    assert_eq!(grid.full_text(), "alpha\nbeta\ngamma");
}

#[test]
fn dispatcher_on_hands_every_event_over() {
    let mut dispatcher = use_dispatcher();
    dispatcher.emit(SmashEvent::Key(KeyEvent::new(KeyCode::Char('a'), KeyModifiers::none())));
    dispatcher.emit(SmashEvent::Resize(80, 24));
    let mut seen = Vec::new();
    let handled = dispatcher.on(|event| {
        seen.push(event.clone());
        if matches!(event, SmashEvent::Resize(_, _)) {
            EventStatus::Handled
        } else {
            EventStatus::Ignored
        }
    });
    assert!(handled);
    assert_eq!(seen.len(), 2);
    assert_eq!(dispatcher.len(), 0);
}

#[test]
fn dialog_buttons_take_their_drawn_areas() {
    let mut dialog = use_dialog("quit", "leave the app?");
    dialog.open();
    dialog.place_buttons(Rect::new(0, 10, 20, 3), Rect::new(20, 10, 20, 3), 0);
    assert!(dialog.cancel_button().is_focused());
    assert!(!dialog.confirm_button().is_focused());
    let cancel = dialog.cancel_button().area();
    let confirm = dialog.confirm_button().area();
    assert!(cancel.x < 20 && cancel.y >= 10);
    assert!(confirm.x >= 20 && confirm.y >= 10);
    assert!(cancel.width > 0 && confirm.width > 0);
}
