use smash_shell::button::{
    decorate_button_label, use_button, use_button_variant, ButtonEvent, ButtonLook, ButtonVariant,
    ThemeRole,
};
use smash_shell::dialog::{use_dialog, DialogEvent};
use smash_shell::events::{
    use_dispatcher, EventStatus, KeyCode, KeyEvent, KeyEventKind, KeyModifiers, MouseButton,
    MouseEvent, MouseEventKind, SmashEvent,
};
use smash_shell::geometry::Rect;
use smash_shell::message::{use_message, MessageEvent};
use smash_shell::terminal::{terminal_key_sequence, use_terminal_state, TerminalInput};
use smash_shell::text_selection::{is_border_char, SelectionAction, TextSelection};
use smash_shell::virtual_list::VirtualList;
use smash_shell::controls::NavigatorControl;
use smash_shell::reactive::{
    active_navigator_focus, handle_selected_navigator_event, sync_navigator_focus, use_tabs, use_toggle,
};
use smash_shell::textbox::use_textbox;

fn button_of(c: &NavigatorControl) -> &smash_shell::button::ButtonState {
    match c {
        NavigatorControl::Button(b) => b,
        _ => panic!("not a button"),
    }
}

fn textbox_of(c: &NavigatorControl) -> &smash_shell::textbox::TextBoxState {
    match c {
        NavigatorControl::TextBox(t) => t,
        _ => panic!("not a textbox"),
    }
}

fn key_event(code: KeyCode, modifiers: KeyModifiers) -> KeyEvent {
    KeyEvent::new(code, modifiers)
}

fn key_release(code: KeyCode, modifiers: KeyModifiers) -> KeyEvent {
    KeyEvent::with_kind(code, modifiers, KeyEventKind::Release)
}

fn mouse_event(kind: MouseEventKind, column: u16, row: u16) -> MouseEvent {
    MouseEvent { kind, column, row, modifiers: KeyModifiers::none() }
}

fn clicks(events: &[ButtonEvent]) -> usize {
    events.iter().filter(|e| **e == ButtonEvent::Click).count()
}

#[test]
fn dispatcher_processes_all_queued_events_in_order() {
    let mut dispatcher = use_dispatcher();
    dispatcher.emit(SmashEvent::Key(key_event(KeyCode::Char('a'), KeyModifiers::none())));
    dispatcher.emit(SmashEvent::Key(key_event(KeyCode::Char('b'), KeyModifiers::shift())));

    let mut seen = Vec::new();
    let handled = dispatcher.dispatch(|event| {
        if let SmashEvent::Key(key) = event {
            if let KeyCode::Char(c) = key.code {
                seen.push(c);
            }
            return EventStatus::Handled;
        }
        EventStatus::Ignored
    });

    assert!(handled);
    assert_eq!(seen, vec!['a', 'b']);
    assert!(dispatcher.drain().is_empty());
}

#[test]
fn dialog_confirms_after_keyboard_selection() {
    let mut dialog = use_dialog("quit", "leave the app?");
    dialog.set_labels("stay", "quit");
    dialog.open();

    assert!(dialog.is_open());
    assert_eq!(
        dialog.handle_smash_event(&SmashEvent::Key(key_event(KeyCode::Right, KeyModifiers::none())), 0),
        DialogEvent::Handled
    );
    assert_eq!(
        dialog.handle_smash_event(&SmashEvent::Key(key_event(KeyCode::Enter, KeyModifiers::none())), 0),
        DialogEvent::Confirmed
    );
    assert!(!dialog.is_open());
}

#[test]
fn dialog_escape_cancels() {
    let mut dialog = use_dialog("quit", "leave the app?");
    dialog.open();

    assert_eq!(
        dialog.handle_smash_event(&SmashEvent::Key(key_event(KeyCode::Esc, KeyModifiers::none())), 0),
        DialogEvent::Cancelled
    );
    assert!(!dialog.is_open());
}

#[test]
fn opening_dialog_resets_show_effect_state() {
    let mut dialog = use_dialog("quit", "leave the app?");

    dialog.open();
    assert_eq!(dialog.show_generation(), 1);
    assert!(!dialog.has_show_effect());
    assert_eq!(dialog.last_effect_tick(), None);

    let step = dialog.advance_show_effect(1000);
    assert!(step.restart);

    assert_eq!(dialog.rendered_generation(), 1);
    assert!(dialog.has_show_effect());
    assert!(dialog.last_effect_tick().is_some());

    dialog.close();
    dialog.open();

    assert_eq!(dialog.show_generation(), 2);
    assert!(!dialog.has_show_effect());
    assert_eq!(dialog.last_effect_tick(), None);
}

#[test]
fn dialog_selection_syncs_button_focus() {
    let mut dialog = use_dialog("quit", "leave the app?");
    dialog.open();

    assert!(dialog.cancel_button().is_focused());
    assert!(!dialog.confirm_button().is_focused());

    assert_eq!(
        dialog.handle_smash_event(&SmashEvent::Key(key_event(KeyCode::Right, KeyModifiers::none())), 0),
        DialogEvent::Handled
    );

    assert!(!dialog.cancel_button().is_focused());
    assert!(dialog.confirm_button().is_focused());
}

#[test]
fn dialog_show_effect_advances_by_frame_time() {
    let mut dialog = use_dialog("quit", "leave the app?");
    dialog.open();
    assert_eq!(dialog.advance_show_effect(1000).elapsed_ms, 16);
    let step = dialog.advance_show_effect(1040);
    assert!(!step.restart);
    assert_eq!(step.elapsed_ms, 40);
}

#[test]
fn closed_dialog_ignores_events() {
    let mut dialog = use_dialog("quit", "leave the app?");
    assert_eq!(
        dialog.handle_smash_event(&SmashEvent::Key(key_event(KeyCode::Esc, KeyModifiers::none())), 0),
        DialogEvent::Ignored
    );
}

#[test]
fn button_keyboard_click_keeps_focus_and_clears_pressed_state() {
    let mut button = use_button("save");
    button.focus();
    button.take_events();

    assert_eq!(
        button.handle_event(&SmashEvent::Key(key_event(KeyCode::Enter, KeyModifiers::none())), 0),
        EventStatus::Handled
    );
    assert_eq!(clicks(&button.take_events()), 1);
    assert!(button.is_focused());
    assert!(button.is_pressed());

    assert_eq!(
        button.handle_event(&SmashEvent::Key(key_release(KeyCode::Enter, KeyModifiers::none())), 0),
        EventStatus::Handled
    );
    assert_eq!(clicks(&button.take_events()), 0);
    assert!(button.is_focused());
    assert!(!button.is_pressed());
}

#[test]
fn button_variants_are_configurable() {
    let mut button = use_button_variant("delete", ButtonVariant::Danger);

    assert_eq!(button.variant(), ButtonVariant::Danger);
    button.set_variant(ButtonVariant::Secondary);
    assert_eq!(button.variant(), ButtonVariant::Secondary);
}

#[test]
fn button_render_tracks_area_for_mouse_events() {
    let mut button = use_button("save");
    button.place(Rect::new(2, 0, 10, 5));

    assert_eq!(button.area(), Rect::new(4, 2, 6, 1));

    assert_eq!(
        button.handle_event(&SmashEvent::Mouse(mouse_event(MouseEventKind::Moved, 4, 2)), 0),
        EventStatus::Ignored
    );
    assert!(button.is_hovered());

    assert_eq!(
        button.handle_event(&SmashEvent::Mouse(mouse_event(MouseEventKind::Down(MouseButton::Left), 4, 2)), 0),
        EventStatus::Handled
    );
    assert!(button.is_pressed());

    assert_eq!(
        button.handle_event(&SmashEvent::Mouse(mouse_event(MouseEventKind::Up(MouseButton::Left), 4, 2)), 0),
        EventStatus::Handled
    );
    assert_eq!(clicks(&button.take_events()), 1);
    assert!(button.is_focused());
    assert!(!button.is_pressed());
    assert!(button.is_hovered());

    assert_eq!(
        button.handle_event(&SmashEvent::Mouse(mouse_event(MouseEventKind::Moved, 0, 0)), 0),
        EventStatus::Ignored
    );
    assert!(!button.is_hovered());
}

#[test]
fn button_release_outside_clears_pressed_without_clicking() {
    let mut button = use_button("save");
    button.place(Rect::new(2, 0, 10, 5));

    assert_eq!(
        button.handle_event(&SmashEvent::Mouse(mouse_event(MouseEventKind::Down(MouseButton::Left), 4, 2)), 0),
        EventStatus::Handled
    );
    assert!(button.is_pressed());

    assert_eq!(
        button.handle_event(&SmashEvent::Mouse(mouse_event(MouseEventKind::Up(MouseButton::Left), 0, 0)), 0),
        EventStatus::Ignored
    );
    assert!(!button.is_pressed());
    assert_eq!(clicks(&button.take_events()), 0);
}

#[test]
fn button_min_height_expands_the_rendered_area() {
    let mut button = use_button("save");
    button.set_min_height(5);
    button.place(Rect::new(2, 0, 10, 9));
    assert_eq!(button.area(), Rect::new(4, 2, 6, 5));
}

#[test]
fn button_max_height_still_fits_multiline_labels() {
    let mut button = use_button("save");
    button.set_label("save\nall");
    button.set_max_height(Some(3));
    button.place(Rect::new(2, 0, 10, 8));
    assert_eq!(button.area(), Rect::new(4, 3, 6, 2));
}

#[test]
fn keyboard_press_feedback_clears_without_release() {
    let mut button = use_button_variant("save", ButtonVariant::Primary);
    button.focus();

    assert_eq!(
        button.handle_event(&SmashEvent::Key(key_event(KeyCode::Enter, KeyModifiers::none())), 1000),
        EventStatus::Handled
    );
    assert!(button.is_pressed());

    button.sync_keyboard_press_feedback(1000 + 121);
    assert!(!button.is_pressed());
}

#[test]
fn keyboard_press_feedback_stays_before_deadline() {
    let mut button = use_button_variant("save", ButtonVariant::Primary);
    button.focus();
    button.handle_event(&SmashEvent::Key(key_event(KeyCode::Enter, KeyModifiers::none())), 1000);
    button.sync_keyboard_press_feedback(1119);
    assert!(button.is_pressed());
    button.sync_keyboard_press_feedback(1120);
    assert!(!button.is_pressed());
}

#[test]
fn button_ignores_ctrl_arrows_and_unfocused_keys() {
    let mut button = use_button("save");
    assert_eq!(
        button.handle_event(&SmashEvent::Key(key_event(KeyCode::Enter, KeyModifiers::none())), 0),
        EventStatus::Ignored
    );
    button.focus();
    assert_eq!(
        button.handle_event(&SmashEvent::Key(key_event(KeyCode::Left, KeyModifiers::control())), 0),
        EventStatus::Ignored
    );
}

#[test]
fn button_desired_height_and_surface() {
    let mut button = use_button("one\ntwo\nthree");
    assert_eq!(button.desired_height(), 3);
    button.set_max_height(Some(1));
    assert_eq!(button.desired_height(), 3);
    button.set_label("x");
    button.set_min_height(4);
    assert_eq!(button.desired_height(), 4);
    assert_eq!(button.surface_area(Rect::new(0, 0, 2, 3)), Rect::new(0, 0, 2, 3));
    assert_eq!(button.surface_area(Rect::new(0, 0, 10, 3)), Rect::new(3, 0, 3, 3));
    button.focus();
    assert_eq!(button.surface_area(Rect::new(0, 0, 10, 3)), Rect::new(1, 0, 7, 3));
    assert_eq!(button.layout_area(Rect::new(0, 0, 0, 9)), Rect::new(0, 0, 0, 9));
}

#[test]
fn decorated_labels_follow_state() {
    assert_eq!(decorate_button_label("save\nall", false, false), "save\nall");
    assert_eq!(decorate_button_label("save\nall", true, false), "[ save ]\n[ all ]");
    assert_eq!(decorate_button_label("save", true, true), "> save <");
}

#[test]
fn terminal_key_sequences_cover_modifiers_and_ignore_unknown_keys() {
    assert_eq!(
        terminal_key_sequence(&key_event(KeyCode::Right, KeyModifiers::control())),
        Some(b"\x1b[1;5C".to_vec())
    );
    assert_eq!(
        terminal_key_sequence(&key_event(KeyCode::PageDown, KeyModifiers::alt())),
        Some(b"\x1b[6;3~".to_vec())
    );
    assert_eq!(
        terminal_key_sequence(&key_event(KeyCode::F(5), KeyModifiers::none())),
        Some(b"\x1b[15~".to_vec())
    );
    assert_eq!(terminal_key_sequence(&key_event(KeyCode::Null, KeyModifiers::none())), None);
}

#[test]
fn terminal_sequences_encode_characters() {
    assert_eq!(terminal_key_sequence(&key_event(KeyCode::Char('a'), KeyModifiers::none())), Some(b"a".to_vec()));
    assert_eq!(terminal_key_sequence(&key_event(KeyCode::Char('c'), KeyModifiers::control())), Some(vec![3]));
    assert_eq!(terminal_key_sequence(&key_event(KeyCode::Char('x'), KeyModifiers::alt())), Some(b"\x1bx".to_vec()));
    assert_eq!(
        terminal_key_sequence(&key_event(KeyCode::Char('é'), KeyModifiers::none())),
        Some("é".as_bytes().to_vec())
    );
    assert_eq!(
        terminal_key_sequence(&key_event(KeyCode::Char('界'), KeyModifiers::none())),
        Some("界".as_bytes().to_vec())
    );
    assert_eq!(
        terminal_key_sequence(&key_event(KeyCode::Char('🦀'), KeyModifiers::none())),
        Some("🦀".as_bytes().to_vec())
    );
    assert_eq!(terminal_key_sequence(&key_event(KeyCode::Char('é'), KeyModifiers::control())), None);
    assert_eq!(terminal_key_sequence(&key_event(KeyCode::F(1), KeyModifiers::shift())), Some(b"\x1b[1;2P".to_vec()));
    assert_eq!(terminal_key_sequence(&key_event(KeyCode::F(12), KeyModifiers::none())), Some(b"\x1b[24~".to_vec()));
    assert_eq!(terminal_key_sequence(&key_event(KeyCode::F(13), KeyModifiers::none())), None);
    assert_eq!(terminal_key_sequence(&key_event(KeyCode::Up, KeyModifiers::none())), Some(b"\x1b[A".to_vec()));
}

#[test]
fn terminal_enter_focuses_and_esc_leaves() {
    let mut terminal = use_terminal_state();
    assert!(matches!(terminal.handle_event(&key_event(KeyCode::Char('a'), KeyModifiers::none())), TerminalInput::Ignored));
    assert!(matches!(terminal.handle_event(&key_event(KeyCode::Enter, KeyModifiers::none())), TerminalInput::Handled));
    assert!(terminal.is_focused());
    match terminal.handle_event(&key_event(KeyCode::Char('a'), KeyModifiers::none())) {
        TerminalInput::Write(bytes) => assert_eq!(bytes, b"a".to_vec()),
        _ => panic!("expected bytes"),
    }
    assert!(matches!(terminal.handle_event(&key_event(KeyCode::Esc, KeyModifiers::none())), TerminalInput::Handled));
    assert!(!terminal.is_focused());
    assert!(terminal.is_selected());
}

#[test]
fn message_copies_and_dismisses() {
    let mut message = use_message("done", "all saved", true);
    assert_eq!(
        message.handle_smash_event(&SmashEvent::Key(key_event(KeyCode::Esc, KeyModifiers::none())), 0),
        MessageEvent::Ignored
    );
    message.open();
    assert_eq!(
        message.handle_smash_event(&SmashEvent::Key(key_event(KeyCode::Char('c'), KeyModifiers::control())), 100),
        MessageEvent::Handled
    );
    assert_eq!(message.take_pending_copy(), Some("all saved".to_string()));
    assert!(message.shows_copied(1599));
    assert!(!message.shows_copied(1600));
    assert_eq!(
        message.handle_smash_event(&SmashEvent::Mouse(mouse_event(MouseEventKind::Moved, 1, 1)), 200),
        MessageEvent::Handled
    );
    assert_eq!(
        message.handle_smash_event(&SmashEvent::Mouse(mouse_event(MouseEventKind::Down(MouseButton::Left), 1, 1)), 200),
        MessageEvent::Dismissed
    );
    assert!(!message.is_open());
    assert!(!message.shows_copied(300));
}

#[test]
fn text_selection_follows_the_mouse() {
    let mut selection = TextSelection::new();
    let area = Rect::new(2, 1, 20, 10);
    assert_eq!(
        selection.handle_mouse_event(&SmashEvent::Mouse(mouse_event(MouseEventKind::Drag(MouseButton::Left), 5, 5)), area),
        SelectionAction::Unchanged
    );
    assert_eq!(
        selection.handle_mouse_event(&SmashEvent::Mouse(mouse_event(MouseEventKind::Down(MouseButton::Left), 7, 4)), area),
        SelectionAction::Changed
    );
    assert!(!selection.has_selection());
    assert_eq!(
        selection.handle_mouse_event(&SmashEvent::Mouse(mouse_event(MouseEventKind::Drag(MouseButton::Left), 3, 2)), area),
        SelectionAction::Changed
    );
    assert_eq!(selection.normalized_range(), Some(((1, 1), (3, 5))));
    assert_eq!(selection.row_span(1, 20), Some((1, 19)));
    assert_eq!(selection.row_span(2, 20), Some((0, 19)));
    assert_eq!(selection.row_span(3, 20), Some((0, 5)));
    assert_eq!(selection.row_span(4, 20), None);
    assert_eq!(
        selection.handle_mouse_event(&SmashEvent::Mouse(mouse_event(MouseEventKind::Up(MouseButton::Left), 3, 2)), area),
        SelectionAction::Finished
    );
    selection.clear();
    assert!(!selection.has_selection());
}

#[test]
fn border_glyphs_are_recognised() {
    assert!(is_border_char("│"));
    assert!(is_border_char("╭"));
    assert!(is_border_char("█"));
    assert!(!is_border_char("a"));
    assert!(!is_border_char("──"));
    assert!(!is_border_char(""));
}

#[test]
fn virtual_list_scrolls_within_content() {
    let mut list = VirtualList::new(vec![3, 2, 4], 20);
    assert_eq!(list.total_height(), 9);
    assert_eq!(list.count(), 3);
    assert_eq!(list.index_at(0), 0);
    assert_eq!(list.index_at(2), 0);
    assert_eq!(list.index_at(3), 1);
    assert_eq!(list.index_at(5), 2);
    assert_eq!(list.index_at(100), 2);
    assert_eq!(list.item_height(1), 2);
    assert_eq!(list.item_height(3), 0);
    assert_eq!(list.max_scroll(4), 5);
    list.scroll_by(10, 4);
    assert_eq!(list.scroll_offset(), 5);
    assert!(list.is_at_bottom(4));
    list.scroll_by(-2, 4);
    assert_eq!(list.scroll_offset(), 3);
    list.scroll_to(50);
    assert_eq!(list.scroll_offset(), 8);
    list.scroll_to_top();
    assert!(list.is_at_top());
    list.scroll_to_bottom(4);
    assert_eq!(list.scroll_offset(), 5);
    list.rebuild(vec![1, 1], 20);
    assert_eq!(list.scroll_offset(), 1);
}

#[test]
fn virtual_list_lays_out_visible_items() {
    let mut list = VirtualList::new(vec![3, 2, 4], 20);
    list.scroll_to(2);
    let items = list.visible_items(Rect::new(0, 0, 10, 4));
    assert_eq!(
        items,
        vec![(0, Rect::new(0, 0, 9, 1)), (1, Rect::new(0, 1, 9, 2)), (2, Rect::new(0, 3, 9, 1))]
    );
    assert_eq!(list.scrollbar(Rect::new(0, 0, 10, 4)), Some((Rect::new(9, 0, 1, 4), 5, 2)));
    let empty = VirtualList::new(Vec::new(), 20);
    assert!(empty.visible_items(Rect::new(0, 0, 10, 4)).is_empty());
}

#[test]
fn navigator_helpers_route_events_and_report_active_controls() {
    let button = use_button("run");
    let textbox = use_textbox("");
    let mut controls = vec![(1usize, NavigatorControl::Button(button)), (2usize, NavigatorControl::TextBox(textbox))];

    sync_navigator_focus(Some(1usize), &mut controls);
    assert!(button_of(&controls[0].1).is_focused());
    assert!(!textbox_of(&controls[1].1).is_selected());

    assert_eq!(
        handle_selected_navigator_event(
            Some(1usize),
            &SmashEvent::Key(key_event(KeyCode::Enter, KeyModifiers::none())),
            &mut controls,
            0,
        ),
        EventStatus::Handled
    );
    assert!(button_of(&controls[0].1).is_pressed());

    sync_navigator_focus(Some(2usize), &mut controls);
    assert_eq!(active_navigator_focus(Some(2usize), &controls), None);

    assert_eq!(
        handle_selected_navigator_event(
            Some(2usize),
            &SmashEvent::Key(key_event(KeyCode::Enter, KeyModifiers::none())),
            &mut controls,
            0,
        ),
        EventStatus::Handled
    );
    assert!(textbox_of(&controls[1].1).is_focused());
    assert_eq!(active_navigator_focus(Some(2usize), &controls), Some(2usize));
}

#[test]
fn deprecated_helpers_clamp_and_pass_through() {
    assert_eq!(use_tabs(7, 3), 2);
    assert_eq!(use_tabs(1, 3), 1);
    assert_eq!(use_tabs(4, 0), 0);
    assert!(use_toggle(true));
}

#[test]
fn button_look_follows_variant_and_state() {
    let mut button = use_button_variant("delete", ButtonVariant::Danger);
    assert_eq!(button.look(), ButtonLook { fg: ThemeRole::Error, bg: ThemeRole::SurfaceVariant, bold: false });
    button.focus();
    assert_eq!(button.look(), ButtonLook { fg: ThemeRole::OnErrorContainer, bg: ThemeRole::ErrorContainer, bold: true });
    button.handle_event(&SmashEvent::Key(key_event(KeyCode::Enter, KeyModifiers::none())), 0);
    assert_eq!(button.look(), ButtonLook { fg: ThemeRole::OnError, bg: ThemeRole::Error, bold: true });

    let quiet = use_button_variant("later", ButtonVariant::Outline);
    assert_eq!(quiet.look(), ButtonLook { fg: ThemeRole::OnSurfaceVariant, bg: ThemeRole::SurfaceVariant, bold: false });
}

#[test]
fn frames_show_their_mode_in_a_badge() {
    let idle = smash_shell::look::textbox_frame_look(false, false, false);
    assert_eq!(idle.badge, None);
    assert_eq!(idle.border, ThemeRole::OutlineVariant);
    assert_eq!(idle.surface, ThemeRole::Surface);

    let editing = smash_shell::look::textbox_frame_look(true, true, false);
    assert_eq!(editing.badge, Some(smash_shell::look::Badge::Editing));
    assert_eq!(editing.border, ThemeRole::Primary);
    assert_eq!(editing.gutter, ThemeRole::Primary);

    let preview = smash_shell::look::textbox_frame_look(false, true, true);
    assert_eq!(preview.badge, Some(smash_shell::look::Badge::ReadOnly));
    assert_eq!(smash_shell::look::badge_label(smash_shell::look::Badge::ReadOnly), "read only");
    assert_eq!(
        smash_shell::look::badge_roles(smash_shell::look::Badge::ReadOnly),
        (ThemeRole::OnTertiaryContainer, ThemeRole::TertiaryContainer)
    );

    let terminal = smash_shell::look::terminal_frame_look(true, true);
    assert_eq!(terminal.badge, Some(smash_shell::look::Badge::Active));
    assert_eq!(smash_shell::look::badge_label(smash_shell::look::Badge::Active), "active");
}

#[test]
fn button_renders_rest_state_with_soft_fill_without_border_chrome() {
    let mut button = use_button_variant("save", ButtonVariant::Primary);
    let area = Rect::new(1, 1, 12, 3);
    let placed = button.layout_area(area);
    button.place(area);

    assert_eq!(button.area(), Rect::new(4, 2, 6, 1));
    assert!(smash_shell::geometry::point_in_rect(1, 2, placed) && !smash_shell::geometry::point_in_rect(1, 2, button.area()));
    assert!(smash_shell::geometry::point_in_rect(3, 2, placed) && !smash_shell::geometry::point_in_rect(3, 2, button.area()));
    assert!(smash_shell::geometry::point_in_rect(4, 2, button.area()));
    assert_eq!(decorate_button_label(&button.label(), button.is_focused(), button.is_pressed()), "save");
    assert_eq!(button.look(), ButtonLook { fg: ThemeRole::Primary, bg: ThemeRole::SurfaceVariant, bold: false });
}

#[test]
fn button_surface_keeps_equal_left_and_right_padding() {
    let mut button = use_button_variant("save", ButtonVariant::Primary);
    let area = Rect::new(1, 1, 11, 3);
    button.place(area);

    let surface = button.area();
    assert_eq!(surface, Rect::new(3, 2, 6, 1));
    assert!(smash_shell::geometry::point_in_rect(3, 2, surface));
    assert!(smash_shell::geometry::point_in_rect(8, 2, surface));
    assert!(!smash_shell::geometry::point_in_rect(2, 2, surface));
    assert!(!smash_shell::geometry::point_in_rect(9, 2, surface));
    let label = decorate_button_label(&button.label(), false, false);
    assert_eq!(label, "save");
    assert_eq!((surface.width as usize - label.chars().count()) / 2, 1);
    assert_eq!(button.look().bg, ThemeRole::SurfaceVariant);
}

#[test]
fn focused_button_uses_bracketed_label_and_pressed_state_inverts_fill() {
    let mut button = use_button_variant("save", ButtonVariant::Primary);
    button.focus();
    button.place(Rect::new(1, 1, 12, 3));

    assert_eq!(button.area(), Rect::new(2, 2, 10, 1));
    let label = decorate_button_label(&button.label(), button.is_focused(), button.is_pressed());
    assert_eq!(label, "[ save ]");
    assert_eq!(button.look(), ButtonLook { fg: ThemeRole::OnPrimaryContainer, bg: ThemeRole::PrimaryContainer, bold: true });

    button.set_pressed(true);
    button.place(Rect::new(1, 1, 12, 3));
    let label = decorate_button_label(&button.label(), button.is_focused(), button.is_pressed());
    assert_eq!(label, "> save <");
    assert_eq!(button.look(), ButtonLook { fg: ThemeRole::OnPrimary, bg: ThemeRole::Primary, bold: true });
}
