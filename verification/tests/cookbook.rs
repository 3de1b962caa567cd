use smash_shell::cookbook::{
    default_focus_for_tab, focus_label, is_ctrl_c_press, scroll_area_max_offset, textbox_label,
    FocusId, TAB_BUTTONS, TAB_SCROLL_EFFECTS, TAB_TERMINAL, TAB_TEXTBOXES, TAB_THEME,
};
use smash_shell::cookbook_state::{
    dispatch_event, focus_nodes_for_area, footer_hint, handle_key_event, handle_scroll_area_key,
    sync_focus_visuals, sync_visible_focus, use_cookbook_state,
};
use smash_shell::events::{
    EventStatus, KeyCode, KeyEvent, KeyEventKind, KeyModifiers, MouseButton, MouseEvent,
    MouseEventKind, SmashEvent,
};
use smash_shell::geometry::{point_in_rect, Rect};
use smash_shell::reactive::FocusNode;

fn key_event(code: KeyCode, modifiers: KeyModifiers) -> KeyEvent {
    KeyEvent::new(code, modifiers)
}

fn key_release(code: KeyCode, modifiers: KeyModifiers) -> KeyEvent {
    KeyEvent::with_kind(code, modifiers, KeyEventKind::Release)
}

#[test]
fn scroll_area_releases_up_when_already_at_top() {
    let nodes = vec![FocusNode::new(FocusId::ScrollArea, Rect::new(0, 0, 30, 10))];
    let mut offset: u16 = 0;

    assert_eq!(
        handle_scroll_area_key(key_event(KeyCode::Up, KeyModifiers::none()), &nodes, &mut offset),
        EventStatus::Ignored
    );
}

#[test]
fn scroll_area_consumes_down_while_more_content_exists() {
    let nodes = vec![FocusNode::new(FocusId::ScrollArea, Rect::new(0, 0, 30, 10))];
    let mut offset: u16 = 0;

    assert_eq!(
        handle_scroll_area_key(key_event(KeyCode::Down, KeyModifiers::none()), &nodes, &mut offset),
        EventStatus::Handled
    );
    assert_eq!(offset, 1);
}

#[test]
fn selected_button_handles_enter_press_and_release() {
    let mut state = use_cookbook_state();
    state.focus.set(Some(FocusId::ButtonPrimary));
    sync_focus_visuals(&mut state);
    let nodes: Vec<FocusNode<FocusId>> = Vec::new();
    let mut offset: u16 = 0;
    let mut quit = false;

    assert_eq!(
        handle_key_event(key_event(KeyCode::Enter, KeyModifiers::none()), &nodes, &mut state, &mut offset, &mut quit, 0, false),
        EventStatus::Handled
    );
    assert!(state.button_primary.is_pressed());
    assert_eq!(state.button_message, "Primary buttons are for the main call to action.");

    assert_eq!(
        handle_key_event(key_release(KeyCode::Enter, KeyModifiers::none()), &nodes, &mut state, &mut offset, &mut quit, 0, false),
        EventStatus::Handled
    );
    assert!(!state.button_primary.is_pressed());
    assert_eq!(state.button_message, "Primary buttons are for the main call to action.");
}

#[test]
fn labels_name_the_controls() {
    assert_eq!(textbox_label(FocusId::EditorBox), "editor");
    assert_eq!(textbox_label(FocusId::NotesBox), "plain text");
    assert_eq!(textbox_label(FocusId::PreviewBox), "preview");
    assert_eq!(textbox_label(FocusId::Tabs), "textbox");
    assert_eq!(focus_label(Some(FocusId::ButtonOutline)), "quiet button");
    assert_eq!(focus_label(Some(FocusId::ThemeModeToggle)), "theme mode toggle");
    assert_eq!(focus_label(None), "nothing");
}

#[test]
fn each_tab_has_a_default_control() {
    assert_eq!(default_focus_for_tab(TAB_BUTTONS), FocusId::ButtonPrimary);
    assert_eq!(default_focus_for_tab(TAB_TEXTBOXES), FocusId::EditorBox);
    assert_eq!(default_focus_for_tab(TAB_SCROLL_EFFECTS), FocusId::ScrollArea);
    assert_eq!(default_focus_for_tab(TAB_TERMINAL), FocusId::Terminal);
    assert_eq!(default_focus_for_tab(TAB_THEME), FocusId::ThemePresets);
    assert_eq!(default_focus_for_tab(9), FocusId::Tabs);
}

#[test]
fn ctrl_c_press_is_recognised() {
    assert!(is_ctrl_c_press(key_event(KeyCode::Char('c'), KeyModifiers::control())));
    assert!(!is_ctrl_c_press(key_event(KeyCode::Char('c'), KeyModifiers::none())));
    assert!(!is_ctrl_c_press(key_release(KeyCode::Char('c'), KeyModifiers::control())));
}

#[test]
fn scroll_area_offset_bounds() {
    assert_eq!(scroll_area_max_offset(Rect::new(0, 0, 30, 10)), 22);
    assert_eq!(scroll_area_max_offset(Rect::new(0, 0, 30, 1)), 30);
    assert_eq!(scroll_area_max_offset(Rect::new(0, 0, 30, 40)), 0);
    assert!(point_in_rect(3, 4, Rect::new(3, 4, 1, 1)));
    assert!(!point_in_rect(4, 4, Rect::new(3, 4, 1, 1)));
}

#[test]
fn layouts_split_the_screen() {
    let app = smash_shell::cookbook::app_layout(Rect::new(0, 0, 80, 24));
    assert_eq!(app.tabs, Rect::new(0, 0, 80, 3));
    assert_eq!(app.body, Rect::new(0, 3, 80, 20));
    assert_eq!(app.footer, Rect::new(0, 23, 80, 1));
    let scroll = smash_shell::cookbook::scroll_effects_layout(Rect::new(0, 0, 80, 20));
    assert_eq!(scroll.scroll, Rect::new(0, 0, 80, 10));
    assert_eq!(scroll.effect, Rect::new(0, 10, 80, 10));
    let terminal = smash_shell::cookbook::terminal_demo_layout(Rect::new(0, 3, 80, 20));
    assert_eq!(terminal.intro, Rect::new(0, 3, 80, 4));
    assert_eq!(terminal.terminal, Rect::new(0, 7, 80, 16));
}

#[test]
fn focus_nodes_follow_the_open_tab() {
    let mut state = use_cookbook_state();
    let nodes = focus_nodes_for_area(Rect::new(0, 0, 80, 24), &state);
    assert_eq!(nodes.len(), 7);
    assert_eq!(nodes[0].id, FocusId::Tabs);
    assert_eq!(nodes[1].id, FocusId::ButtonPrimary);
    let nodes_before = nodes.clone();
    let mut offset = 0u16;
    let mut quit = false;
    handle_key_event(key_event(KeyCode::Right, KeyModifiers::control()), &nodes_before, &mut state, &mut offset, &mut quit, 0, false);
    assert_eq!(state.selected_tab.get(), TAB_TEXTBOXES);
    assert_eq!(state.focus.get(), Some(FocusId::Tabs));
    let nodes = focus_nodes_for_area(Rect::new(0, 0, 80, 24), &state);
    assert_eq!(nodes.len(), 4);
    assert_eq!(nodes[1].id, FocusId::EditorBox);
    assert_eq!(footer_hint(&state), "tabs selected: left/right switches tabs, down enters content");
}

#[test]
fn counter_shortcuts_update_the_message() {
    let mut state = use_cookbook_state();
    let nodes: Vec<FocusNode<FocusId>> = Vec::new();
    let mut offset = 0u16;
    let mut quit = false;
    state.focus.set(Some(FocusId::Tabs));
    handle_key_event(key_event(KeyCode::Char('+'), KeyModifiers::none()), &nodes, &mut state, &mut offset, &mut quit, 0, false);
    assert_eq!(state.button_counter, 1);
    assert_eq!(state.button_message, "Counter increased to 1.");
    handle_key_event(key_event(KeyCode::Char('-'), KeyModifiers::none()), &nodes, &mut state, &mut offset, &mut quit, 0, false);
    handle_key_event(key_event(KeyCode::Char('-'), KeyModifiers::none()), &nodes, &mut state, &mut offset, &mut quit, 0, false);
    assert_eq!(state.button_counter, -1);
    assert_eq!(state.button_message, "Counter decreased to -1.");
    assert!(!quit);
    handle_key_event(key_event(KeyCode::Char('q'), KeyModifiers::control()), &nodes, &mut state, &mut offset, &mut quit, 0, false);
    assert!(quit);
}

#[test]
fn ctrl_c_opens_the_quit_dialog_and_a_second_ctrl_c_quits() {
    let mut state = use_cookbook_state();
    let nodes = focus_nodes_for_area(Rect::new(0, 0, 80, 24), &state);
    sync_visible_focus(&mut state, &nodes);
    let mut offset = 0u16;
    let mut quit = false;
    let ctrl_c = SmashEvent::Key(key_event(KeyCode::Char('c'), KeyModifiers::control()));
    assert_eq!(dispatch_event(&ctrl_c, &nodes, &mut state, &mut offset, &mut quit, 0, false), EventStatus::Handled);
    assert!(state.quit_dialog.is_open());
    assert!(!quit);
    assert_eq!(dispatch_event(&ctrl_c, &nodes, &mut state, &mut offset, &mut quit, 0, false), EventStatus::Handled);
    assert!(quit);
}

#[test]
fn clicking_the_increment_button_counts() {
    let mut state = use_cookbook_state();
    let nodes = focus_nodes_for_area(Rect::new(0, 0, 80, 24), &state);
    let target = nodes.iter().find(|n| n.id == FocusId::ButtonIncrement).unwrap().area;
    state.button_increment.place(smash_shell::cookbook_state::button_gallery_layout(
        smash_shell::cookbook::app_layout(Rect::new(0, 0, 80, 24)).body,
        &state,
    ).playground_buttons[0]);
    let mut offset = 0u16;
    let mut quit = false;
    let down = SmashEvent::Mouse(MouseEvent { kind: MouseEventKind::Down(MouseButton::Left), column: target.x, row: target.y, modifiers: KeyModifiers::none() });
    let up = SmashEvent::Mouse(MouseEvent { kind: MouseEventKind::Up(MouseButton::Left), column: target.x, row: target.y, modifiers: KeyModifiers::none() });
    assert_eq!(dispatch_event(&down, &nodes, &mut state, &mut offset, &mut quit, 0, false), EventStatus::Handled);
    assert_eq!(state.focus.get(), Some(FocusId::ButtonIncrement));
    assert_eq!(dispatch_event(&up, &nodes, &mut state, &mut offset, &mut quit, 0, false), EventStatus::Handled);
    assert_eq!(state.button_counter, 1);
    assert_eq!(state.button_message, "Counter increased to 1.");
}

#[test]
fn footer_names_focus_hint_and_last_key() {
    let mut state = use_cookbook_state();
    assert_eq!(
        smash_shell::cookbook_state::footer_help(&state),
        "focus: primary button | tab/backtab cycles focus, arrows move spatially, enter activates | ctrl+left/right: switch tabs | ctrl+c twice: quit | ctrl+q: quit"
    );

    let nodes: Vec<FocusNode<FocusId>> = Vec::new();
    let mut offset: u16 = 0;
    let mut quit = false;
    handle_key_event(key_event(KeyCode::Char('z'), KeyModifiers::none()), &nodes, &mut state, &mut offset, &mut quit, 0, false);
    assert!(smash_shell::cookbook_state::footer_help(&state).ends_with(" | last: 'z'"));

    let mut modifiers = KeyModifiers::control();
    modifiers.shift = true;
    handle_key_event(key_event(KeyCode::F(5), modifiers), &nodes, &mut state, &mut offset, &mut quit, 0, false);
    assert!(smash_shell::cookbook_state::footer_help(&state).ends_with(" | last: F(5)+KeyModifiers(SHIFT | CONTROL)"));
}

#[test]
fn textbox_and_theme_tabs_split_exactly_where_the_sizes_divide() {
    let t = smash_shell::cookbook::textbox_gallery_layout(Rect::new(0, 0, 100, 100));
    assert_eq!(t.samples, [Rect::new(0, 0, 68, 45), Rect::new(0, 45, 68, 25), Rect::new(0, 70, 68, 30)]);
    assert_eq!(t.selection, Rect::new(68, 0, 32, 8));
    assert_eq!(t.guide, Rect::new(68, 8, 32, 92));
    let th = smash_shell::cookbook::theme_demo_layout(Rect::new(0, 0, 100, 20));
    assert_eq!(th.presets, Rect::new(0, 0, 30, 17));
    assert_eq!(th.toggle, Rect::new(0, 17, 30, 3));
    assert_eq!(th.swatches, Rect::new(30, 0, 70, 16));
    assert_eq!(th.info, Rect::new(30, 16, 70, 4));
    let s = smash_shell::cookbook::scroll_effects_layout(Rect::new(0, 0, 40, 20));
    assert_eq!(s.scroll, Rect::new(0, 0, 40, 10));
    assert_eq!(s.effect, Rect::new(0, 10, 40, 10));
    let a = smash_shell::cookbook::app_layout(Rect::new(5, 2, 30, 4));
    assert_eq!(a.tabs, Rect::new(5, 2, 30, 3));
    assert_eq!(a.body, Rect::new(5, 5, 30, 0));
    assert_eq!(a.footer, Rect::new(5, 5, 30, 1));
}
