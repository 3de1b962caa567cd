use crate::button::{
    contains_click, fresh_button, spec_button_handle, spec_set_focus, spec_desired_height, spec_layout_area, spec_surface_area, use_button_variant, ButtonEvent, ButtonState, ButtonVariant,
    ButtonView, KEYBOARD_PRESS_FEEDBACK_MS,
};
use crate::cookbook::{
    app_layout, app_layout_fits, scroll_effects_layout, scroll_effects_layout_fits, terminal_demo_layout,
    terminal_demo_layout_fits, textbox_gallery_layout, textbox_layout_fits, theme_demo_layout, theme_demo_layout_fits,
    AppLayout, ScrollEffectsLayout, TerminalDemoLayout, TextboxGalleryLayout, ThemeDemoLayout,
    default_focus_for_tab, is_ctrl_c_press, scroll_area_max_offset, spec_default_focus_for_tab,
    spec_is_ctrl_c_press, spec_scroll_area_max_offset, lemma_focus_id_eq, FocusId, TAB_BUTTONS, TAB_COUNT,
};
use crate::cookbook::{focus_label, spec_focus_label};
use crate::footer::{push_key_name, push_modifiers, push_text, spec_key_name, spec_modifiers_text};
use crate::geometry::Rect;
use crate::layout::{layout_split, spec_split_fits, LayoutConstraint, LayoutDirection};
use crate::dialog::{quiet, spec_open, use_dialog, DialogState, DialogView};
use crate::events::{EventStatus, KeyCode, KeyEvent, KeyEventKind, SmashEvent};
use crate::reactive::{
    nav_move_direction, nav_step, nav_sync_with_preferred, next_index, prev_index, use_focus_navigator, use_selection,
    FocusDirection, FocusNavigator, FocusNode, NavigatorView, SelectionState,
};
use crate::terminal::{spec_terminal_handle, terminal_input_view, TerminalInput, TerminalState};
use crate::text::{chars_of, decimal_text, push_decimal_text, string_from_chars};
use crate::textbox::{spec_handle_event, spec_textbox_navigator_sync, TextBoxSettings, TextBoxState, TextBoxView};
use vstd::prelude::*;

verus! {

/// The state of the component gallery.
pub struct CookbookState {
    pub focus: FocusNavigator<FocusId>,
    pub selected_tab: SelectionState,
    pub is_dark: bool,
    pub selected_theme_idx: SelectionState,
    pub quit_dialog: DialogState,
    pub last_key_debug: Option<KeyEvent>,
    pub button_counter: i32,
    pub button_message: String,
    pub button_primary: ButtonState,
    pub button_secondary: ButtonState,
    pub button_outline: ButtonState,
    pub button_danger: ButtonState,
    pub button_increment: ButtonState,
    pub button_decrement: ButtonState,
    pub theme_mode_toggle: ButtonState,
    pub editor_box: TextBoxState,
    pub notes_box: TextBoxState,
    pub preview_box: TextBoxState,
    pub terminal: TerminalState,
}

/// Everything the gallery remembers, as values.
pub struct CookbookView {
    pub focus: NavigatorView<FocusId>,
    pub tab: nat,
    pub tab_count: nat,
    pub is_dark: bool,
    pub theme_idx: nat,
    pub theme_count: nat,
    pub dialog: DialogView,
    pub last_key: Option<KeyEvent>,
    pub counter: i32,
    pub message: Seq<char>,
    /// Primary, secondary, outline, danger, increment, decrement, theme toggle.
    pub buttons: Seq<ButtonView>,
    /// Editor, notes, preview.
    pub boxes: Seq<TextBoxView>,
    pub box_settings: Seq<TextBoxSettings>,
    pub terminal_selected: bool,
    pub terminal_focused: bool,
}

impl View for CookbookState {
    type V = CookbookView;

    closed spec fn view(&self) -> CookbookView {
        CookbookView {
            focus: self.focus@,
            tab: self.selected_tab.spec_index(),
            tab_count: self.selected_tab.spec_len(),
            is_dark: self.is_dark,
            theme_idx: self.selected_theme_idx.spec_index(),
            theme_count: self.selected_theme_idx.spec_len(),
            dialog: self.quit_dialog@,
            last_key: self.last_key_debug,
            counter: self.button_counter,
            message: self.button_message@,
            buttons: seq![
                self.button_primary@,
                self.button_secondary@,
                self.button_outline@,
                self.button_danger@,
                self.button_increment@,
                self.button_decrement@,
                self.theme_mode_toggle@,
            ],
            boxes: seq![self.editor_box@, self.notes_box@, self.preview_box@],
            box_settings: seq![self.editor_box.settings(), self.notes_box.settings(), self.preview_box.settings()],
            terminal_selected: self.terminal.spec_selected(),
            terminal_focused: self.terminal.spec_focused(),
        }
    }
}

impl CookbookState {
    /// The textboxes are consistent.
    pub open spec fn wf(&self) -> bool {
        &&& self.editor_box.wf()
        &&& self.notes_box.wf()
        &&& self.preview_box.wf()
    }
}

/// The position of a button among the gallery's buttons, or -1.
pub open spec fn button_index(id: FocusId) -> int {
    match id {
        FocusId::ButtonPrimary => 0,
        FocusId::ButtonSecondary => 1,
        FocusId::ButtonOutline => 2,
        FocusId::ButtonDanger => 3,
        FocusId::ButtonIncrement => 4,
        FocusId::ButtonDecrement => 5,
        FocusId::ThemeModeToggle => 6,
        _ => -1,
    }
}

/// The position of a textbox among the gallery's textboxes, or -1.
pub open spec fn box_index(id: FocusId) -> int {
    match id {
        FocusId::EditorBox => 0,
        FocusId::NotesBox => 1,
        FocusId::PreviewBox => 2,
        _ => -1,
    }
}

/// The label of the theme toggle while the theme is dark or light.
pub open spec fn toggle_label(is_dark: bool) -> Seq<char> {
    if is_dark { "switch to light mode"@ } else { "switch to dark mode"@ }
}

/// The playground message after the counter moved to `next`.
pub open spec fn counter_message(increased: bool, next: int) -> Seq<char> {
    (if increased { "Counter increased to "@ } else { "Counter decreased to "@ }) + decimal_text(next)
        + "."@
}

/// What clicking a gallery button does.
pub open spec fn spec_click(v: CookbookView, id: FocusId) -> CookbookView {
    match id {
        FocusId::ButtonPrimary => CookbookView { message: "Primary buttons are for the main call to action."@, ..v },
        FocusId::ButtonSecondary => CookbookView { message: "Secondary buttons support the primary flow."@, ..v },
        FocusId::ButtonOutline => CookbookView {
            message: "Outline is the quiet / ghost variant in this chrome-light button style."@,
            ..v
        },
        FocusId::ButtonDanger => CookbookView { message: "Danger buttons should be reserved for destructive actions."@, ..v },
        FocusId::ButtonIncrement => CookbookView {
            counter: (v.counter + 1) as i32,
            message: counter_message(true, v.counter + 1),
            ..v
        },
        FocusId::ButtonDecrement => CookbookView {
            counter: (v.counter - 1) as i32,
            message: counter_message(false, v.counter - 1),
            ..v
        },
        FocusId::ThemeModeToggle => CookbookView {
            is_dark: !v.is_dark,
            buttons: v.buttons.update(6, ButtonView { label: toggle_label(!v.is_dark), ..v.buttons[6] }),
            ..v
        },
        _ => v,
    }
}

/// A gallery button takes an event; a reported click takes effect.
pub open spec fn spec_button_step(v: CookbookView, id: FocusId, event: SmashEvent, now: u64) -> (EventStatus, CookbookView) {
    let k = button_index(id);
    let (status, b) = spec_button_handle(quiet(v.buttons[k]), event, now);
    let v1 = CookbookView { buttons: v.buttons.update(k, quiet(b)), ..v };
    (status, if b.events.contains(ButtonEvent::Click) { spec_click(v1, id) } else { v1 })
}

/// Routes a key to the selected control, as the navigator bridge does.
/// `write_ok` tells whether bytes the terminal asked for were written.
pub open spec fn spec_route_key(v: CookbookView, selected: FocusId, key: KeyEvent, now: u64, write_ok: bool) -> (EventStatus, CookbookView) {
    if button_index(selected) >= 0 {
        spec_button_step(v, selected, SmashEvent::Key(key), now)
    } else if box_index(selected) >= 0 {
        let k = box_index(selected);
        let (handled, t) = spec_handle_event(v.boxes[k], key);
        (if handled { EventStatus::Handled } else { EventStatus::Ignored }, CookbookView { boxes: v.boxes.update(k, t), ..v })
    } else if selected == FocusId::Terminal {
        let (focused, out) = spec_terminal_handle(v.terminal_focused, key);
        let status = match out {
            None => EventStatus::Ignored,
            Some(None) => EventStatus::Handled,
            Some(Some(_)) => if write_ok { EventStatus::Handled } else { EventStatus::Ignored },
        };
        (status, CookbookView {
            terminal_focused: focused,
            terminal_selected: v.terminal_selected || focused,
            ..v
        })
    } else {
        (EventStatus::Ignored, v)
    }
}

/// The control keys act on: the navigator's selection, or the tab's default.
pub open spec fn spec_selected_control(v: CookbookView) -> FocusId {
    match v.focus.0 {
        Some(id) => id,
        None => spec_default_focus_for_tab(v.tab as usize),
    }
}

/// The area of the first node carrying `id`, if any.
pub open spec fn node_area(nodes: Seq<FocusNode<FocusId>>, id: FocusId) -> Option<crate::geometry::Rect>
    decreases nodes.len(),
{
    if nodes.len() == 0 {
        None
    } else if nodes[0].id == id {
        Some(nodes[0].area)
    } else {
        node_area(nodes.drop_first(), id)
    }
}

/// What the scroll area does with a key at `offset`: Up and Down scroll by
/// one row (five with Shift) within the content; at an end the key is left
/// for navigation.
pub open spec fn spec_scroll_key(key: KeyEvent, nodes: Seq<FocusNode<FocusId>>, offset: u16) -> (EventStatus, u16) {
    match node_area(nodes, FocusId::ScrollArea) {
        None => (EventStatus::Ignored, offset),
        Some(area) => {
            let max = spec_scroll_area_max_offset(area);
            let speed: int = if key.modifiers.shift { 5 } else { 1 };
            if key.code == KeyCode::Up && offset > 0 {
                (EventStatus::Handled, (offset - (if speed <= offset { speed } else { offset as int })) as u16)
            } else if key.code == KeyCode::Down && offset < max {
                (EventStatus::Handled, (offset + (if speed <= max - offset { speed } else { max - offset })) as u16)
            } else {
                (EventStatus::Ignored, offset)
            }
        },
    }
}

/// Where a key leaves the gallery: the answer, the state, the scroll offset
/// and whether quitting was asked for.
pub struct KeyOutcome {
    pub status: EventStatus,
    pub state: CookbookView,
    pub scroll: u16,
    pub quit: bool,
}

/// The gallery-wide keys, tried after the selected control passed on a
/// pressed key: quit, tab switching, the quit dialog, tab order and the
/// counter shortcuts. `None` when the key is none of them.
pub open spec fn spec_key_global(v: CookbookView, key: KeyEvent, nodes: Seq<FocusNode<FocusId>>) -> Option<(CookbookView, bool)> {
    let ctrl = key.modifiers.control;
    if ctrl && key.code == KeyCode::Char('q') && key.kind == KeyEventKind::Press {
        Some((v, true))
    } else if ctrl && key.code == KeyCode::Right {
        Some((CookbookView { tab: next_index(v.tab, v.tab_count), focus: (Some(FocusId::Tabs), None), ..v }, false))
    } else if ctrl && key.code == KeyCode::Left {
        Some((CookbookView { tab: prev_index(v.tab, v.tab_count), focus: (Some(FocusId::Tabs), None), ..v }, false))
    } else if spec_is_ctrl_c_press(key) {
        Some((CookbookView { dialog: spec_open(v.dialog), ..v }, false))
    } else if key.code == KeyCode::BackTab {
        Some((CookbookView { focus: nav_step(v.focus, nodes, false).1, ..v }, false))
    } else if key.code == KeyCode::Tab {
        Some((CookbookView { focus: nav_step(v.focus, nodes, true).1, ..v }, false))
    } else if v.tab == TAB_BUTTONS && key.code == KeyCode::Char('+') {
        Some((CookbookView { counter: (v.counter + 1) as i32, message: counter_message(true, v.counter + 1), ..v }, false))
    } else if v.tab == TAB_BUTTONS && key.code == KeyCode::Char('-') {
        Some((CookbookView { counter: (v.counter - 1) as i32, message: counter_message(false, v.counter - 1), ..v }, false))
    } else {
        None
    }
}

/// The keys of the selected control's kind (tab switching on the tab bar,
/// preset choice on the preset list, scrolling in the scroll area), and
/// otherwise spatial navigation with the arrows.
pub open spec fn spec_key_local(v: CookbookView, selected: FocusId, key: KeyEvent, nodes: Seq<FocusNode<FocusId>>, scroll: u16) -> KeyOutcome {
    let done = |w: CookbookView| KeyOutcome { status: EventStatus::Handled, state: w, scroll, quit: false };
    if selected == FocusId::Tabs && key.code == KeyCode::Left {
        done(CookbookView { tab: prev_index(v.tab, v.tab_count), ..v })
    } else if selected == FocusId::Tabs && key.code == KeyCode::Right {
        done(CookbookView { tab: next_index(v.tab, v.tab_count), ..v })
    } else if selected == FocusId::ThemePresets && key.code == KeyCode::Up {
        done(CookbookView { theme_idx: prev_index(v.theme_idx, v.theme_count), ..v })
    } else if selected == FocusId::ThemePresets && key.code == KeyCode::Down {
        done(CookbookView { theme_idx: next_index(v.theme_idx, v.theme_count), ..v })
    } else if selected == FocusId::ScrollArea && spec_scroll_key(key, nodes, scroll).0 == EventStatus::Handled {
        KeyOutcome { status: EventStatus::Handled, state: v, scroll: spec_scroll_key(key, nodes, scroll).1, quit: false }
    } else if key.code == KeyCode::Left {
        done(CookbookView { focus: nav_move_direction(v.focus, nodes, FocusDirection::Left).1, ..v })
    } else if key.code == KeyCode::Right {
        done(CookbookView { focus: nav_move_direction(v.focus, nodes, FocusDirection::Right).1, ..v })
    } else if key.code == KeyCode::Up {
        done(CookbookView { focus: nav_move_direction(v.focus, nodes, FocusDirection::Up).1, ..v })
    } else if key.code == KeyCode::Down {
        done(CookbookView { focus: nav_move_direction(v.focus, nodes, FocusDirection::Down).1, ..v })
    } else {
        KeyOutcome { status: EventStatus::Ignored, state: v, scroll, quit: false }
    }
}

/// The gallery's key handling after routing to the selected control: only
/// presses and repeats count; gallery-wide keys come first, then the keys of
/// the selected control's kind and navigation.
pub open spec fn spec_key_fallback(v: CookbookView, selected: FocusId, key: KeyEvent, nodes: Seq<FocusNode<FocusId>>, scroll: u16) -> KeyOutcome {
    if !(key.kind == KeyEventKind::Press || key.kind == KeyEventKind::Repeat) {
        KeyOutcome { status: EventStatus::Ignored, state: v, scroll, quit: false }
    } else {
        match spec_key_global(v, key, nodes) {
            Some((w, quit)) => KeyOutcome { status: EventStatus::Handled, state: w, scroll, quit },
            None => spec_key_local(v, selected, key, nodes, scroll),
        }
    }
}

/// What the gallery does with a key: the key is remembered, offered to the
/// selected control, and otherwise handled by the gallery itself.
pub open spec fn spec_handle_key_event(v: CookbookView, key: KeyEvent, nodes: Seq<FocusNode<FocusId>>, scroll: u16, now: u64, write_ok: bool) -> KeyOutcome {
    let v0 = CookbookView { last_key: Some(key), ..v };
    let selected = spec_selected_control(v0);
    let (status, v1) = spec_route_key(v0, selected, key, now, write_ok);
    if status == EventStatus::Handled {
        KeyOutcome { status, state: v1, scroll, quit: false }
    } else {
        spec_key_fallback(v1, selected, key, nodes, scroll)
    }
}


/// A textbox view and settings are those of a well-formed box.
fn set_message(message: &mut String, text: &str)
    ensures
        final(message)@ == text@,
{
    let c = chars_of(text);
    *message = string_from_chars(&c);
}

/// Sets the theme toggle's label for a dark or light theme.
pub fn update_theme_toggle_label(button: &mut ButtonState, is_dark: bool)
    ensures
        final(button)@ == (ButtonView { label: toggle_label(is_dark), ..old(button)@ }),
{
    if is_dark {
        button.set_label("switch to light mode");
    } else {
        button.set_label("switch to dark mode");
    }
}

/// The playground message after the counter moved to `next`.
fn counter_message_exec(increased: bool, next: i32) -> (s: String)
    ensures
        s@ == counter_message(increased, next as int),
{
    let mut out: Vec<char> = if increased {
        chars_of("Counter increased to ")
    } else {
        chars_of("Counter decreased to ")
    };
    push_decimal_text(&mut out, next as i64);
    out.push('.');
    proof {
        reveal_strlit(".");
        assert(out@ =~= counter_message(increased, next as int));
    }
    string_from_chars(&out)
}

/// The gallery with its sample controls: focus on the primary button, the
/// buttons tab open, a dark theme, the quit dialog closed.
pub fn use_cookbook_state() -> (s: CookbookState)
    ensures
        s.wf(),
        s.button_counter == 0,
        s@.focus == (Some(FocusId::ButtonPrimary), None::<FocusNode<FocusId>>),
        s@.tab == TAB_BUTTONS,
        s@.tab_count == TAB_COUNT,
        s@.is_dark,
        s@.theme_idx == 0,
        s@.theme_count == 5,
        !s@.dialog.is_open,
        s@.dialog.title == "quit component gallery?"@,
        s@.dialog.message
            == "Press Ctrl+C again to quit immediately, or choose stay to keep wandering through the gallery."@,
        s@.dialog.cancel_label == "stay"@,
        s@.dialog.confirm_label == "quit"@,
        s@.last_key is None,
        s@.message == "Move gently through the gallery and press Enter to activate a button."@,
        s@.buttons[0] == fresh_button("primary"@, ButtonVariant::Primary),
        s@.buttons[1] == fresh_button("secondary"@, ButtonVariant::Secondary),
        s@.buttons[2] == fresh_button("quiet"@, ButtonVariant::Outline),
        s@.buttons[3] == fresh_button("danger"@, ButtonVariant::Danger),
        s@.buttons[4] == fresh_button("increment"@, ButtonVariant::Primary),
        s@.buttons[5] == fresh_button("decrement"@, ButtonVariant::Secondary),
        s@.buttons[6] == fresh_button("switch to light mode"@, ButtonVariant::Secondary),
        s@.box_settings[0].title == "editor"@,
        s@.box_settings[1].title == "notes"@,
        s@.box_settings[2].title == "preview"@,
        !s@.box_settings[1].show_line_numbers,
        !s@.box_settings[2].show_line_numbers,
        s@.boxes[2].read_only,
        s@.boxes[0].model.lines == crate::textbox::initial_lines(
            "fn greet(name: &str) {\n    println!(\"hello, {name}!\");\n}\n\n// edit this example"@,
        ),
        s@.boxes[1].model.lines == crate::textbox::initial_lines(
            "# quick note\n- markdown is auto-detected\n- line numbers stay optional"@,
        ),
        s@.boxes[2].model.lines == crate::textbox::initial_lines(
            "{\n  \"component\": \"textbox\",\n  \"highlighting\": \"automatic\",\n  \"read_only\": true\n}"@,
        ),
        forall|i: int| 0 <= i < 3 ==> (#[trigger] s@.boxes[i]).model.cursor == (0int, 0int) && s@.boxes[i].model.anchor is None,
        !s@.terminal_selected,
        !s@.terminal_focused,
{
    let mut editor_box = crate::textbox::use_textbox(
        "fn greet(name: &str) {\n    println!(\"hello, {name}!\");\n}\n\n// edit this example",
    );
    editor_box.set_title("editor");
    let mut notes_box = crate::textbox::use_textbox(
        "# quick note\n- markdown is auto-detected\n- line numbers stay optional",
    );
    notes_box.set_title("notes");
    notes_box.set_show_line_numbers(false);
    let mut preview_box = crate::textbox::use_textbox(
        "{\n  \"component\": \"textbox\",\n  \"highlighting\": \"automatic\",\n  \"read_only\": true\n}",
    );
    preview_box.set_title("preview");
    preview_box.set_show_line_numbers(false);
    preview_box.set_read_only(true);
    let mut quit_dialog = use_dialog(
        "quit component gallery?",
        "Press Ctrl+C again to quit immediately, or choose stay to keep wandering through the gallery.",
    );
    quit_dialog.set_labels("stay", "quit");
    let mut theme_mode_toggle = use_button_variant("switch to light mode", ButtonVariant::Secondary);
    update_theme_toggle_label(&mut theme_mode_toggle, true);
    let message = chars_of("Move gently through the gallery and press Enter to activate a button.");
    let s = CookbookState {
        focus: use_focus_navigator(Some(FocusId::ButtonPrimary)),
        selected_tab: use_selection(TAB_BUTTONS, TAB_COUNT),
        is_dark: true,
        selected_theme_idx: use_selection(0, 5),
        quit_dialog,
        last_key_debug: None,
        button_counter: 0,
        button_message: string_from_chars(&message),
        button_primary: use_button_variant("primary", ButtonVariant::Primary),
        button_secondary: use_button_variant("secondary", ButtonVariant::Secondary),
        button_outline: use_button_variant("quiet", ButtonVariant::Outline),
        button_danger: use_button_variant("danger", ButtonVariant::Danger),
        button_increment: use_button_variant("increment", ButtonVariant::Primary),
        button_decrement: use_button_variant("decrement", ButtonVariant::Secondary),
        theme_mode_toggle,
        editor_box,
        notes_box,
        preview_box,
        terminal: crate::terminal::use_terminal_state(),
    };
    proof {
        assert(s@.buttons[6].label =~= "switch to light mode"@);
        assert(s@.buttons[6] =~= fresh_button("switch to light mode"@, ButtonVariant::Secondary));
    }
    s
}

/// Gives an event to a button with no pending reports and tells whether it
/// reported a click; its reports are consumed.
fn step_button(b: &mut ButtonState, event: &SmashEvent, now_ms: u64) -> (r: (EventStatus, bool))
    requires
        now_ms + KEYBOARD_PRESS_FEEDBACK_MS <= u64::MAX,
    ensures
        r.0 == spec_button_handle(quiet(old(b)@), *event, now_ms).0,
        final(b)@ == quiet(spec_button_handle(quiet(old(b)@), *event, now_ms).1),
        r.1 == spec_button_handle(quiet(old(b)@), *event, now_ms).1.events.contains(ButtonEvent::Click),
{
    let _ = b.take_events();
    assert(b@ =~= quiet(old(b)@));
    let status = b.handle_event(event, now_ms);
    let events = b.take_events();
    assert(b@ =~= quiet(spec_button_handle(quiet(old(b)@), *event, now_ms).1));
    (status, contains_click(&events))
}

/// Room for what activating control `id` does to the counter: the increment
/// button adds one, the decrement button takes one away.
pub open spec fn id_counter_room(counter: i32, id: FocusId) -> bool {
    &&& id == FocusId::ButtonIncrement ==> counter < i32::MAX
    &&& id == FocusId::ButtonDecrement ==> counter > i32::MIN
}

/// Room for what the `+` and `-` shortcuts do to the counter.
pub open spec fn shortcut_counter_room(counter: i32, key: KeyEvent) -> bool {
    &&& key.code == KeyCode::Char('+') ==> counter < i32::MAX
    &&& key.code == KeyCode::Char('-') ==> counter > i32::MIN
}

/// Room for what a key can do to the counter: through the selected control,
/// or through a shortcut.
pub open spec fn key_counter_room(counter: i32, selected: FocusId, key: KeyEvent) -> bool {
    id_counter_room(counter, selected) && shortcut_counter_room(counter, key)
}

impl CookbookState {
    fn apply_click(&mut self, id: FocusId)
        requires
            id_counter_room(old(self).button_counter, id),
        ensures
            final(self)@ == spec_click(old(self)@, id),
            final(self).editor_box == old(self).editor_box,
            final(self).notes_box == old(self).notes_box,
            final(self).preview_box == old(self).preview_box,
    {
        match id {
            FocusId::ButtonPrimary => set_message(&mut self.button_message, "Primary buttons are for the main call to action."),
            FocusId::ButtonSecondary => set_message(&mut self.button_message, "Secondary buttons support the primary flow."),
            FocusId::ButtonOutline => set_message(
                &mut self.button_message,
                "Outline is the quiet / ghost variant in this chrome-light button style.",
            ),
            FocusId::ButtonDanger => set_message(&mut self.button_message, "Danger buttons should be reserved for destructive actions."),
            FocusId::ButtonIncrement => {
                self.button_counter = self.button_counter + 1;
                self.button_message = counter_message_exec(true, self.button_counter);
            },
            FocusId::ButtonDecrement => {
                self.button_counter = self.button_counter - 1;
                self.button_message = counter_message_exec(false, self.button_counter);
            },
            FocusId::ThemeModeToggle => {
                self.is_dark = !self.is_dark;
                update_theme_toggle_label(&mut self.theme_mode_toggle, self.is_dark);
                proof {
                    assert(self@.buttons =~= old(self)@.buttons.update(6, ButtonView { label: toggle_label(self.is_dark), ..old(self)@.buttons[6] }));
                }
            },
            _ => {},
        }
    }

    /// Gives an event to one of the gallery's buttons and applies a click.
    fn button_step(&mut self, id: FocusId, event: &SmashEvent, now_ms: u64) -> (status: EventStatus)
        requires
            button_index(id) >= 0,
            id_counter_room(old(self).button_counter, id),
            now_ms + KEYBOARD_PRESS_FEEDBACK_MS <= u64::MAX,
        ensures
            (status, final(self)@) == spec_button_step(old(self)@, id, *event, now_ms),
            final(self).editor_box == old(self).editor_box,
            final(self).notes_box == old(self).notes_box,
            final(self).preview_box == old(self).preview_box,
    {
        match id {
            FocusId::ButtonPrimary => {
                let (status, clicked) = step_button(&mut self.button_primary, event, now_ms);
                proof {
                    assert(self@.buttons =~= old(self)@.buttons.update(0, quiet(spec_button_handle(quiet(old(self)@.buttons[0]), *event, now_ms).1)));
                }
                if clicked {
                    self.apply_click(id);
                }
                status
            },
            FocusId::ButtonSecondary => {
                let (status, clicked) = step_button(&mut self.button_secondary, event, now_ms);
                proof {
                    assert(self@.buttons =~= old(self)@.buttons.update(1, quiet(spec_button_handle(quiet(old(self)@.buttons[1]), *event, now_ms).1)));
                }
                if clicked {
                    self.apply_click(id);
                }
                status
            },
            FocusId::ButtonOutline => {
                let (status, clicked) = step_button(&mut self.button_outline, event, now_ms);
                proof {
                    assert(self@.buttons =~= old(self)@.buttons.update(2, quiet(spec_button_handle(quiet(old(self)@.buttons[2]), *event, now_ms).1)));
                }
                if clicked {
                    self.apply_click(id);
                }
                status
            },
            FocusId::ButtonDanger => {
                let (status, clicked) = step_button(&mut self.button_danger, event, now_ms);
                proof {
                    assert(self@.buttons =~= old(self)@.buttons.update(3, quiet(spec_button_handle(quiet(old(self)@.buttons[3]), *event, now_ms).1)));
                }
                if clicked {
                    self.apply_click(id);
                }
                status
            },
            FocusId::ButtonIncrement => {
                let (status, clicked) = step_button(&mut self.button_increment, event, now_ms);
                proof {
                    assert(self@.buttons =~= old(self)@.buttons.update(4, quiet(spec_button_handle(quiet(old(self)@.buttons[4]), *event, now_ms).1)));
                }
                if clicked {
                    self.apply_click(id);
                }
                status
            },
            FocusId::ButtonDecrement => {
                let (status, clicked) = step_button(&mut self.button_decrement, event, now_ms);
                proof {
                    assert(self@.buttons =~= old(self)@.buttons.update(5, quiet(spec_button_handle(quiet(old(self)@.buttons[5]), *event, now_ms).1)));
                }
                if clicked {
                    self.apply_click(id);
                }
                status
            },
            FocusId::ThemeModeToggle => {
                let (status, clicked) = step_button(&mut self.theme_mode_toggle, event, now_ms);
                proof {
                    assert(self@.buttons =~= old(self)@.buttons.update(6, quiet(spec_button_handle(quiet(old(self)@.buttons[6]), *event, now_ms).1)));
                }
                if clicked {
                    self.apply_click(id);
                }
                status
            },
            _ => EventStatus::Ignored,
        }
    }
}


impl CookbookState {
    /// Offers a key to the selected control.
    fn route_key(&mut self, selected: FocusId, key: &KeyEvent, now_ms: u64, write_ok: bool) -> (status: EventStatus)
        requires
            old(self).wf(),
            id_counter_room(old(self).button_counter, selected),
            now_ms + KEYBOARD_PRESS_FEEDBACK_MS <= u64::MAX,
        ensures
            final(self).wf(),
            (status, final(self)@) == spec_route_key(old(self)@, selected, *key, now_ms, write_ok),
    {
        let event = SmashEvent::Key(*key);
        match selected {
            FocusId::ButtonPrimary | FocusId::ButtonSecondary | FocusId::ButtonOutline
            | FocusId::ButtonDanger | FocusId::ButtonIncrement | FocusId::ButtonDecrement
            | FocusId::ThemeModeToggle => self.button_step(selected, &event, now_ms),
            FocusId::EditorBox => {
                let status = self.editor_box.handle_smash_event(&event);
                proof {
                    assert(self@.boxes =~= old(self)@.boxes.update(0, spec_handle_event(old(self)@.boxes[0], *key).1));
                    assert(self@.box_settings =~= old(self)@.box_settings);
                }
                status
            },
            FocusId::NotesBox => {
                let status = self.notes_box.handle_smash_event(&event);
                proof {
                    assert(self@.boxes =~= old(self)@.boxes.update(1, spec_handle_event(old(self)@.boxes[1], *key).1));
                    assert(self@.box_settings =~= old(self)@.box_settings);
                }
                status
            },
            FocusId::PreviewBox => {
                let status = self.preview_box.handle_smash_event(&event);
                proof {
                    assert(self@.boxes =~= old(self)@.boxes.update(2, spec_handle_event(old(self)@.boxes[2], *key).1));
                    assert(self@.box_settings =~= old(self)@.box_settings);
                }
                status
            },
            FocusId::Terminal => {
                match self.terminal.handle_event(key) {
                    TerminalInput::Ignored => EventStatus::Ignored,
                    TerminalInput::Handled => EventStatus::Handled,
                    TerminalInput::Write(_) => if write_ok {
                        EventStatus::Handled
                    } else {
                        EventStatus::Ignored
                    },
                }
            },
            _ => EventStatus::Ignored,
        }
    }

    /// The control keys act on: the navigator's selection, or the tab's
    /// default.
    pub fn selected_control(&self) -> (id: FocusId)
        ensures
            id == spec_selected_control(self@),
    {
        match self.focus.get() {
            Some(id) => id,
            None => default_focus_for_tab(self.selected_tab.get()),
        }
    }

    /// The bytes the terminal will ask to have written when `event` reaches
    /// it: the app writes them before handing the event over, and reports
    /// whether the write succeeded.
    pub fn terminal_bytes_for_event(&self, event: &SmashEvent) -> (bytes: Option<Vec<u8>>)
        ensures
            match bytes {
                Some(b) => event is Key && spec_selected_control(self@) == FocusId::Terminal
                    && spec_terminal_handle(self@.terminal_focused, event->Key_0).1 == Some(Some(b@)),
                None => !(event is Key && spec_selected_control(self@) == FocusId::Terminal
                    && spec_terminal_handle(self@.terminal_focused, event->Key_0).1 matches Some(Some(_))),
            },
    {
        match event {
            SmashEvent::Key(key) => {
                if self.selected_control() != FocusId::Terminal {
                    return None;
                }
                let mut probe = self.terminal;
                match probe.handle_event(key) {
                    TerminalInput::Write(bytes) => Some(bytes),
                    _ => None,
                }
            },
            _ => None,
        }
    }
}

/// The area of the first node carrying `id`.
pub fn find_node_area(nodes: &[FocusNode<FocusId>], id: FocusId) -> (r: Option<crate::geometry::Rect>)
    ensures
        r == node_area(nodes@, id),
{
    let mut i: usize = 0;
    assert(nodes@.skip(0) =~= nodes@);
    while i < nodes.len()
        invariant
            0 <= i <= nodes@.len(),
            node_area(nodes@, id) == node_area(nodes@.skip(i as int), id),
        decreases nodes@.len() - i,
    {
        assert(nodes@.skip(i as int)[0] == nodes@[i as int]);
        assert(nodes@.skip(i as int).drop_first() =~= nodes@.skip(i + 1));
        if nodes[i].id == id {
            return Some(nodes[i].area);
        }
        i += 1;
    }
    assert(nodes@.skip(i as int).len() == 0);
    None
}

/// Scrolls the scroll area with Up and Down while there is content in that
/// direction; at an end the key is left for navigation.
pub fn handle_scroll_area_key(key: KeyEvent, focus_nodes: &[FocusNode<FocusId>], offset: &mut u16) -> (status: EventStatus)
    ensures
        (status, *final(offset)) == spec_scroll_key(key, focus_nodes@, *old(offset)),
{
    let area = match find_node_area(focus_nodes, FocusId::ScrollArea) {
        Some(a) => a,
        None => return EventStatus::Ignored,
    };
    let max_offset = scroll_area_max_offset(area);
    let speed: usize = if key.modifiers.shift { 5 } else { 1 };
    let current = *offset as usize;
    if key.code == KeyCode::Up && current > 0 {
        let step = if speed <= current { speed } else { current };
        *offset = (current - step) as u16;
        EventStatus::Handled
    } else if key.code == KeyCode::Down && current < max_offset {
        let step = if speed <= max_offset - current { speed } else { max_offset - current };
        *offset = (current + step) as u16;
        EventStatus::Handled
    } else {
        EventStatus::Ignored
    }
}


impl CookbookState {
    /// The gallery-wide keys; `None` when the key is none of them, else
    /// whether quitting was asked for.
    fn key_global(&mut self, key: KeyEvent, focus_nodes: &[FocusNode<FocusId>]) -> (r: Option<bool>)
        requires
            old(self).wf(),
            shortcut_counter_room(old(self).button_counter, key),
        ensures
            final(self).wf(),
            match spec_key_global(old(self)@, key, focus_nodes@) {
                Some((w, quit)) => r == Some(quit) && final(self)@ == w,
                None => r is None && final(self)@ == old(self)@,
            },
    {
        proof {
            lemma_focus_id_eq();
        }
        let ctrl = key.modifiers.control;
        if ctrl && key.code == KeyCode::Char('q') && key.kind == KeyEventKind::Press {
            return Some(true);
        }
        if ctrl && key.code == KeyCode::Right {
            self.selected_tab.next();
            self.focus.set(Some(FocusId::Tabs));
            return Some(false);
        }
        if ctrl && key.code == KeyCode::Left {
            self.selected_tab.prev();
            self.focus.set(Some(FocusId::Tabs));
            return Some(false);
        }
        if is_ctrl_c_press(key) {
            self.quit_dialog.open();
            return Some(false);
        }
        if key.code == KeyCode::BackTab {
            self.focus.prev(focus_nodes);
            return Some(false);
        }
        if key.code == KeyCode::Tab {
            self.focus.next(focus_nodes);
            return Some(false);
        }
        if self.selected_tab.get() == TAB_BUTTONS {
            if key.code == KeyCode::Char('+') {
                self.button_counter = self.button_counter + 1;
                self.button_message = counter_message_exec(true, self.button_counter);
                return Some(false);
            }
            if key.code == KeyCode::Char('-') {
                self.button_counter = self.button_counter - 1;
                self.button_message = counter_message_exec(false, self.button_counter);
                return Some(false);
            }
        }
        None
    }

    /// The keys of the selected control's kind, then spatial navigation.
    fn key_local(&mut self, selected: FocusId, key: KeyEvent, focus_nodes: &[FocusNode<FocusId>], scroll_offset: &mut u16) -> (status: EventStatus)
        requires
            old(self).wf(),
        ensures
            final(self).wf(),
            ({
                let out = spec_key_local(old(self)@, selected, key, focus_nodes@, *old(scroll_offset));
                &&& status == out.status
                &&& final(self)@ == out.state
                &&& *final(scroll_offset) == out.scroll
                &&& !out.quit
            }),
    {
        proof {
            lemma_focus_id_eq();
        }
        if selected == FocusId::Tabs {
            if key.code == KeyCode::Left {
                self.selected_tab.prev();
                return EventStatus::Handled;
            }
            if key.code == KeyCode::Right {
                self.selected_tab.next();
                return EventStatus::Handled;
            }
        }
        if selected == FocusId::ThemePresets {
            if key.code == KeyCode::Up {
                self.selected_theme_idx.prev();
                return EventStatus::Handled;
            }
            if key.code == KeyCode::Down {
                self.selected_theme_idx.next();
                return EventStatus::Handled;
            }
        }
        if selected == FocusId::ScrollArea {
            if handle_scroll_area_key(key, focus_nodes, scroll_offset) == EventStatus::Handled {
                return EventStatus::Handled;
            }
        }
        if key.code == KeyCode::Left {
            self.focus.move_direction(focus_nodes, FocusDirection::Left);
            EventStatus::Handled
        } else if key.code == KeyCode::Right {
            self.focus.move_direction(focus_nodes, FocusDirection::Right);
            EventStatus::Handled
        } else if key.code == KeyCode::Up {
            self.focus.move_direction(focus_nodes, FocusDirection::Up);
            EventStatus::Handled
        } else if key.code == KeyCode::Down {
            self.focus.move_direction(focus_nodes, FocusDirection::Down);
            EventStatus::Handled
        } else {
            EventStatus::Ignored
        }
    }
}

/// Handles a key in the gallery: the key is remembered for the footer,
/// offered to the selected control, and otherwise used for quitting, tab
/// switching, the quit dialog, tab order, the counter shortcuts, the
/// per-control keys and spatial navigation. `terminal_write_ok` tells whether
/// the bytes `terminal_bytes_for_event` asked for were written.
pub fn handle_key_event(
    key: KeyEvent,
    focus_nodes: &[FocusNode<FocusId>],
    state: &mut CookbookState,
    scroll_offset: &mut u16,
    quit_requested: &mut bool,
    now_ms: u64,
    terminal_write_ok: bool,
) -> (status: EventStatus)
    requires
        old(state).wf(),
        key_counter_room(old(state).button_counter, spec_selected_control(old(state)@), key),
        now_ms + KEYBOARD_PRESS_FEEDBACK_MS <= u64::MAX,
    ensures
        final(state).wf(),
        ({
            let out = spec_handle_key_event(old(state)@, key, focus_nodes@, *old(scroll_offset), now_ms, terminal_write_ok);
            &&& status == out.status
            &&& final(state)@ == out.state
            &&& *final(scroll_offset) == out.scroll
            &&& *final(quit_requested) == (*old(quit_requested) || out.quit)
        }),
{
    state.last_key_debug = Some(key);
    let selected = state.selected_control();
    if state.route_key(selected, &key, now_ms, terminal_write_ok) == EventStatus::Handled {
        return EventStatus::Handled;
    }
    if !(key.kind == KeyEventKind::Press || key.kind == KeyEventKind::Repeat) {
        return EventStatus::Ignored;
    }
    match state.key_global(key, focus_nodes) {
        Some(quit) => {
            if quit {
                *quit_requested = true;
            }
            EventStatus::Handled
        },
        None => state.key_local(selected, key, focus_nodes, scroll_offset),
    }
}


/// The gallery's six sample buttons in order.
pub open spec fn gallery_button(i: int) -> FocusId {
    if i == 0 {
        FocusId::ButtonPrimary
    } else if i == 1 {
        FocusId::ButtonSecondary
    } else if i == 2 {
        FocusId::ButtonOutline
    } else if i == 3 {
        FocusId::ButtonDanger
    } else if i == 4 {
        FocusId::ButtonIncrement
    } else {
        FocusId::ButtonDecrement
    }
}

fn gallery_button_exec(i: usize) -> (id: FocusId)
    ensures
        id == gallery_button(i as int),
{
    if i == 0 {
        FocusId::ButtonPrimary
    } else if i == 1 {
        FocusId::ButtonSecondary
    } else if i == 2 {
        FocusId::ButtonOutline
    } else if i == 3 {
        FocusId::ButtonDanger
    } else if i == 4 {
        FocusId::ButtonIncrement
    } else {
        FocusId::ButtonDecrement
    }
}

/// Offers an event to the sample buttons from the `i`-th on, until one
/// handles it.
pub open spec fn spec_gallery_buttons(v: CookbookView, event: SmashEvent, now: u64, i: int) -> (EventStatus, CookbookView)
    decreases 6 - i,
{
    if i >= 6 {
        (EventStatus::Ignored, v)
    } else {
        let (status, w) = spec_button_step(v, gallery_button(i), event, now);
        if status == EventStatus::Handled {
            (EventStatus::Handled, w)
        } else {
            spec_gallery_buttons(w, event, now, i + 1)
        }
    }
}

/// The first node whose area holds the cell, if any.
pub open spec fn node_at(nodes: Seq<FocusNode<FocusId>>, column: u16, row: u16) -> Option<FocusId>
    decreases nodes.len(),
{
    if nodes.len() == 0 {
        None
    } else if crate::geometry::spec_contains(nodes[0].area, column, row) {
        Some(nodes[0].id)
    } else {
        node_at(nodes.drop_first(), column, row)
    }
}

/// What the gallery's pointer handling does with an event: a left press
/// focuses the control under it; then the sample buttons (buttons tab) or
/// the theme toggle (theme tab) get the event.
pub open spec fn spec_handle_mouse_event(v: CookbookView, event: SmashEvent, nodes: Seq<FocusNode<FocusId>>, now: u64) -> (EventStatus, CookbookView) {
    let v0 = match event {
        SmashEvent::Mouse(m) => if m.kind == crate::events::MouseEventKind::Down(crate::events::MouseButton::Left) {
            match node_at(nodes, m.column, m.row) {
                Some(id) => CookbookView { focus: (Some(id), None), ..v },
                None => v,
            }
        } else {
            v
        },
        _ => v,
    };
    if v0.tab == TAB_BUTTONS {
        spec_gallery_buttons(v0, event, now, 0)
    } else if v0.tab == crate::cookbook::TAB_THEME {
        spec_button_step(v0, FocusId::ThemeModeToggle, event, now)
    } else {
        (EventStatus::Ignored, v0)
    }
}

/// The first node whose area holds the cell.
pub fn find_node_at(nodes: &[FocusNode<FocusId>], column: u16, row: u16) -> (r: Option<FocusId>)
    ensures
        r == node_at(nodes@, column, row),
{
    let mut i: usize = 0;
    assert(nodes@.skip(0) =~= nodes@);
    while i < nodes.len()
        invariant
            0 <= i <= nodes@.len(),
            node_at(nodes@, column, row) == node_at(nodes@.skip(i as int), column, row),
        decreases nodes@.len() - i,
    {
        assert(nodes@.skip(i as int)[0] == nodes@[i as int]);
        assert(nodes@.skip(i as int).drop_first() =~= nodes@.skip(i + 1));
        if crate::geometry::point_in_rect(column, row, nodes[i].area) {
            return Some(nodes[i].id);
        }
        i += 1;
    }
    assert(nodes@.skip(i as int).len() == 0);
    None
}

/// A button that had reported nothing reports a click only while handling
/// the event.
proof fn lemma_click_needs_handled(b: ButtonView, event: SmashEvent, now: u64)
    requires
        b.events.len() == 0,
    ensures
        spec_button_handle(b, event, now).1.events.contains(ButtonEvent::Click) ==> spec_button_handle(b, event, now).0
            == EventStatus::Handled,
{
    let (s, c) = spec_button_handle(b, event, now);
    if s != EventStatus::Handled {
        assert forall|k: int| 0 <= k < c.events.len() implies c.events[k] != ButtonEvent::Click by {
            match event {
                SmashEvent::Mouse(mouse) => {
                    let over = crate::geometry::spec_contains(b.area, mouse.column, mouse.row);
                    if over != b.hovered {
                        let h = ButtonView { hovered: over, events: b.events.push(ButtonEvent::Hover(over)), ..b };
                        assert(h.events =~= seq![ButtonEvent::Hover(over)]);
                    }
                },
                _ => {},
            }
        }
    }
}

/// Handles pointer input in the gallery (every event passes here first).
pub fn handle_mouse_event(event: &SmashEvent, focus_nodes: &[FocusNode<FocusId>], state: &mut CookbookState, now_ms: u64) -> (status: EventStatus)
    requires
        old(state).wf(),
        i32::MIN < old(state).button_counter < i32::MAX,
        now_ms + KEYBOARD_PRESS_FEEDBACK_MS <= u64::MAX,
    ensures
        final(state).wf(),
        (status, final(state)@) == spec_handle_mouse_event(old(state)@, *event, focus_nodes@, now_ms),
        status == EventStatus::Ignored ==> final(state).button_counter == old(state).button_counter,
{
    if let SmashEvent::Mouse(m) = event {
        if m.kind == crate::events::MouseEventKind::Down(crate::events::MouseButton::Left) {
            if let Some(id) = find_node_at(focus_nodes, m.column, m.row) {
                state.focus.set(Some(id));
            }
        }
    }
    let ghost v0 = state@;
    proof {
        let w = match *event {
            SmashEvent::Mouse(m) => if m.kind == crate::events::MouseEventKind::Down(crate::events::MouseButton::Left) {
                match node_at(focus_nodes@, m.column, m.row) {
                    Some(id) => CookbookView { focus: (Some(id), None), ..old(state)@ },
                    None => old(state)@,
                }
            } else {
                old(state)@
            },
            _ => old(state)@,
        };
        assert(v0 =~= w);
    }
    let tab = state.selected_tab.get();
    if tab == TAB_BUTTONS {
        let mut i: usize = 0;
        while i < 6
            invariant
                0 <= i <= 6,
                state.wf(),
                state.button_counter == v0.counter,
                i32::MIN < v0.counter < i32::MAX,
                v0.counter == old(state).button_counter,
                spec_handle_mouse_event(old(state)@, *event, focus_nodes@, now_ms) == spec_gallery_buttons(v0, *event, now_ms, 0),
                now_ms + KEYBOARD_PRESS_FEEDBACK_MS <= u64::MAX,
                spec_gallery_buttons(v0, *event, now_ms, 0) == spec_gallery_buttons(state@, *event, now_ms, i as int),
            decreases 6 - i,
        {
            let id = gallery_button_exec(i);
            let ghost before = state@;
            proof {
                lemma_click_needs_handled(quiet(before.buttons[button_index(id)]), *event, now_ms);
            }
            let status = state.button_step(id, event, now_ms);
            proof {
                assert(spec_gallery_buttons(before, *event, now_ms, i as int) == (if status == EventStatus::Handled {
                    (EventStatus::Handled, state@)
                } else {
                    spec_gallery_buttons(state@, *event, now_ms, i + 1)
                }));
            }
            if status == EventStatus::Handled {
                return EventStatus::Handled;
            }
            i += 1;
        }
        EventStatus::Ignored
    } else if tab == crate::cookbook::TAB_THEME {
        proof {
            lemma_click_needs_handled(quiet(v0.buttons[6]), *event, now_ms);
        }
        state.button_step(FocusId::ThemeModeToggle, event, now_ms)
    } else {
        EventStatus::Ignored
    }
}

/// What the gallery does with one dispatched event: while the quit dialog is
/// open it takes everything (a second Ctrl+C or confirming quits); otherwise
/// pointer handling comes first and keys go on to the key handling.
pub open spec fn spec_dispatch_event(v: CookbookView, event: SmashEvent, nodes: Seq<FocusNode<FocusId>>, scroll: u16, now: u64, write_ok: bool) -> KeyOutcome {
    if v.dialog.is_open {
        if event is Key && spec_is_ctrl_c_press(event->Key_0) {
            KeyOutcome { status: EventStatus::Handled, state: v, scroll, quit: true }
        } else {
            let (r, d) = crate::dialog::spec_dialog_handle(v.dialog, event, now);
            KeyOutcome {
                status: EventStatus::Handled,
                state: CookbookView { dialog: d, ..v },
                scroll,
                quit: r == crate::dialog::DialogEvent::Confirmed,
            }
        }
    } else {
        let (status, w) = spec_handle_mouse_event(v, event, nodes, now);
        if status == EventStatus::Handled {
            KeyOutcome { status, state: w, scroll, quit: false }
        } else {
            match event {
                SmashEvent::Key(key) => spec_handle_key_event(w, key, nodes, scroll, now, write_ok),
                _ => KeyOutcome { status: EventStatus::Ignored, state: w, scroll, quit: false },
            }
        }
    }
}

/// Handles one event taken from the dispatcher.
pub fn dispatch_event(
    event: &SmashEvent,
    focus_nodes: &[FocusNode<FocusId>],
    state: &mut CookbookState,
    scroll_offset: &mut u16,
    quit_requested: &mut bool,
    now_ms: u64,
    terminal_write_ok: bool,
) -> (status: EventStatus)
    requires
        old(state).wf(),
        i32::MIN < old(state).button_counter < i32::MAX,
        now_ms + KEYBOARD_PRESS_FEEDBACK_MS <= u64::MAX,
    ensures
        final(state).wf(),
        ({
            let out = spec_dispatch_event(old(state)@, *event, focus_nodes@, *old(scroll_offset), now_ms, terminal_write_ok);
            &&& status == out.status
            &&& final(state)@ == out.state
            &&& *final(scroll_offset) == out.scroll
            &&& *final(quit_requested) == (*old(quit_requested) || out.quit)
        }),
{
    if state.quit_dialog.is_open() {
        if let SmashEvent::Key(key) = event {
            if is_ctrl_c_press(*key) {
                *quit_requested = true;
                return EventStatus::Handled;
            }
        }
        let r = state.quit_dialog.handle_smash_event(event, now_ms);
        if r == crate::dialog::DialogEvent::Confirmed {
            *quit_requested = true;
        }
        return EventStatus::Handled;
    }
    if handle_mouse_event(event, focus_nodes, state, now_ms) == EventStatus::Handled {
        return EventStatus::Handled;
    }
    match event {
        SmashEvent::Key(key) => handle_key_event(*key, focus_nodes, state, scroll_offset, quit_requested, now_ms, terminal_write_ok),
        _ => EventStatus::Ignored,
    }
}


/// The larger of two heights.
pub open spec fn max16(a: u16, b: u16) -> u16 {
    if a >= b { a } else { b }
}

fn max16_exec(a: u16, b: u16) -> (m: u16)
    ensures
        m == max16(a, b),
{
    if a >= b { a } else { b }
}

/// Where the buttons tab puts its pieces.
#[derive(Clone, Copy, Debug)]
pub struct ButtonGalleryLayout {
    pub intro: Rect,
    pub variants: [Rect; 4],
    pub playground_buttons: [Rect; 2],
    pub playground_info: Rect,
    pub guidance: Rect,
    pub contract: Rect,
}

/// The height of the row of variant buttons: the tallest of them.
pub open spec fn variant_row_height(buttons: Seq<ButtonView>) -> u16 {
    max16(max16(max16(spec_desired_height(buttons[0]), spec_desired_height(buttons[1])), spec_desired_height(buttons[2])), spec_desired_height(buttons[3]))
}

/// The height of the playground row: the taller playground button, and at
/// least five rows.
pub open spec fn playground_row_height(buttons: Seq<ButtonView>) -> u16 {
    max16(max16(spec_desired_height(buttons[4]), spec_desired_height(buttons[5])), 5)
}

/// The buttons tab: a wide and a narrow column.
pub open spec fn gallery_column_constraints() -> Seq<LayoutConstraint> {
    seq![LayoutConstraint::Percentage(65), LayoutConstraint::Percentage(35)]
}

/// The wide column of the buttons tab: the introduction, the variant row,
/// the playground row and the guidance.
pub open spec fn gallery_left_constraints(buttons: Seq<ButtonView>) -> Seq<LayoutConstraint> {
    seq![
        LayoutConstraint::Length(4),
        LayoutConstraint::Length(variant_row_height(buttons)),
        LayoutConstraint::Length(playground_row_height(buttons)),
        LayoutConstraint::Min(0),
    ]
}

/// The variant row: four equal cells.
pub open spec fn gallery_variant_constraints() -> Seq<LayoutConstraint> {
    seq![
        LayoutConstraint::Percentage(25),
        LayoutConstraint::Percentage(25),
        LayoutConstraint::Percentage(25),
        LayoutConstraint::Percentage(25),
    ]
}

/// The playground row: two sixteen-column buttons and the info box.
pub open spec fn gallery_playground_constraints() -> Seq<LayoutConstraint> {
    seq![LayoutConstraint::Length(16), LayoutConstraint::Length(16), LayoutConstraint::Min(0)]
}

/// Whether `l` is an outcome of laying out the buttons tab in `area` for
/// these buttons.
pub open spec fn button_gallery_layout_fits(area: Rect, buttons: Seq<ButtonView>, l: ButtonGalleryLayout) -> bool {
    exists|columns: Seq<Rect>, left: Seq<Rect>|
        #![trigger spec_split_fits(LayoutDirection::Horizontal, gallery_column_constraints(), area, columns),
            spec_split_fits(LayoutDirection::Vertical, gallery_left_constraints(buttons), columns[0], left)]
        spec_split_fits(LayoutDirection::Horizontal, gallery_column_constraints(), area, columns)
            && spec_split_fits(LayoutDirection::Vertical, gallery_left_constraints(buttons), columns[0], left)
            && l.contract == columns[1] && l.intro == left[0] && l.guidance == left[3]
            && spec_split_fits(
            LayoutDirection::Horizontal,
            gallery_variant_constraints(),
            left[1],
            seq![l.variants[0], l.variants[1], l.variants[2], l.variants[3]],
        ) && spec_split_fits(
            LayoutDirection::Horizontal,
            gallery_playground_constraints(),
            left[2],
            seq![l.playground_buttons[0], l.playground_buttons[1], l.playground_info],
        )
}

/// Lays out the buttons tab; the rows grow to fit the buttons' labels.
pub fn button_gallery_layout(area: Rect, state: &CookbookState) -> (l: ButtonGalleryLayout)
    ensures
        button_gallery_layout_fits(area, state@.buttons, l),
{
    let variant_height = max16_exec(
        max16_exec(
            max16_exec(state.button_primary.desired_height(), state.button_secondary.desired_height()),
            state.button_outline.desired_height(),
        ),
        state.button_danger.desired_height(),
    );
    let playground_height = max16_exec(
        max16_exec(state.button_increment.desired_height(), state.button_decrement.desired_height()),
        5,
    );
    let c1 = vec![LayoutConstraint::Percentage(65), LayoutConstraint::Percentage(35)];
    assert(c1@ =~= gallery_column_constraints());
    let columns = layout_split(LayoutDirection::Horizontal, &c1, area);
    let c2 = vec![
        LayoutConstraint::Length(4),
        LayoutConstraint::Length(variant_height),
        LayoutConstraint::Length(playground_height),
        LayoutConstraint::Min(0),
    ];
    assert(c2@ =~= gallery_left_constraints(state@.buttons));
    let left = layout_split(LayoutDirection::Vertical, &c2, columns[0]);
    let c3 = vec![
        LayoutConstraint::Percentage(25),
        LayoutConstraint::Percentage(25),
        LayoutConstraint::Percentage(25),
        LayoutConstraint::Percentage(25),
    ];
    assert(c3@ =~= gallery_variant_constraints());
    let variants = layout_split(LayoutDirection::Horizontal, &c3, left[1]);
    let c4 = vec![LayoutConstraint::Length(16), LayoutConstraint::Length(16), LayoutConstraint::Min(0)];
    assert(c4@ =~= gallery_playground_constraints());
    let playground = layout_split(LayoutDirection::Horizontal, &c4, left[2]);
    let l = ButtonGalleryLayout {
        intro: left[0],
        variants: [variants[0], variants[1], variants[2], variants[3]],
        playground_buttons: [playground[0], playground[1]],
        playground_info: playground[2],
        guidance: left[3],
        contract: columns[1],
    };
    assert(seq![l.variants[0], l.variants[1], l.variants[2], l.variants[3]] =~= variants@);
    assert(seq![l.playground_buttons[0], l.playground_buttons[1], l.playground_info] =~= playground@);
    assert(spec_split_fits(LayoutDirection::Horizontal, gallery_column_constraints(), area, columns@));
    assert(spec_split_fits(LayoutDirection::Vertical, gallery_left_constraints(state@.buttons), columns@[0], left@));
    l
}

/// Where a button's surface lands when it is placed in `area`.
pub open spec fn placed_surface(b: ButtonView, area: Rect) -> Rect {
    spec_surface_area(b, spec_layout_area(b, area))
}

/// The layout of the open tab's body.
#[derive(Clone, Copy, Debug)]
pub enum TabLayout {
    Buttons(ButtonGalleryLayout),
    Textboxes(TextboxGalleryLayout),
    ScrollEffects(ScrollEffectsLayout),
    Terminal(TerminalDemoLayout),
    Theme(ThemeDemoLayout),
    Blank,
}

/// Whether `t` is an outcome of laying out the open tab of `v` in `body`.
pub open spec fn tab_layout_fits(body: Rect, v: CookbookView, t: TabLayout) -> bool {
    if v.tab == TAB_BUTTONS {
        t matches TabLayout::Buttons(l) && button_gallery_layout_fits(body, v.buttons, l)
    } else if v.tab == crate::cookbook::TAB_TEXTBOXES {
        t matches TabLayout::Textboxes(l) && textbox_layout_fits(body, l)
    } else if v.tab == crate::cookbook::TAB_SCROLL_EFFECTS {
        t matches TabLayout::ScrollEffects(l) && scroll_effects_layout_fits(body, l)
    } else if v.tab == crate::cookbook::TAB_TERMINAL {
        t matches TabLayout::Terminal(l) && terminal_demo_layout_fits(body, l)
    } else if v.tab == crate::cookbook::TAB_THEME {
        t matches TabLayout::Theme(l) && theme_demo_layout_fits(body, l)
    } else {
        t is Blank
    }
}

/// Lays out the open tab in `body`.
pub fn tab_layout(body: Rect, state: &CookbookState) -> (t: TabLayout)
    ensures
        tab_layout_fits(body, state@, t),
{
    let tab = state.selected_tab.get();
    if tab == TAB_BUTTONS {
        TabLayout::Buttons(button_gallery_layout(body, state))
    } else if tab == crate::cookbook::TAB_TEXTBOXES {
        TabLayout::Textboxes(textbox_gallery_layout(body))
    } else if tab == crate::cookbook::TAB_SCROLL_EFFECTS {
        TabLayout::ScrollEffects(scroll_effects_layout(body))
    } else if tab == crate::cookbook::TAB_TERMINAL {
        TabLayout::Terminal(terminal_demo_layout(body))
    } else if tab == crate::cookbook::TAB_THEME {
        TabLayout::Theme(theme_demo_layout(body))
    } else {
        TabLayout::Blank
    }
}

/// The controls focus can land on, each with the area it takes: the tab bar
/// first, then the controls of the tab laid out in `t`.
pub open spec fn spec_focus_nodes(app: AppLayout, t: TabLayout, v: CookbookView) -> Seq<FocusNode<FocusId>> {
    let tabs = seq![FocusNode { id: FocusId::Tabs, area: app.tabs }];
    let b = v.buttons;
    match t {
        TabLayout::Buttons(l) => tabs + seq![
            FocusNode { id: FocusId::ButtonPrimary, area: placed_surface(b[0], l.variants[0]) },
            FocusNode { id: FocusId::ButtonSecondary, area: placed_surface(b[1], l.variants[1]) },
            FocusNode { id: FocusId::ButtonOutline, area: placed_surface(b[2], l.variants[2]) },
            FocusNode { id: FocusId::ButtonDanger, area: placed_surface(b[3], l.variants[3]) },
            FocusNode { id: FocusId::ButtonIncrement, area: placed_surface(b[4], l.playground_buttons[0]) },
            FocusNode { id: FocusId::ButtonDecrement, area: placed_surface(b[5], l.playground_buttons[1]) },
        ],
        TabLayout::Textboxes(l) => tabs + seq![
            FocusNode { id: FocusId::EditorBox, area: l.samples[0] },
            FocusNode { id: FocusId::NotesBox, area: l.samples[1] },
            FocusNode { id: FocusId::PreviewBox, area: l.samples[2] },
        ],
        TabLayout::ScrollEffects(l) => tabs.push(FocusNode { id: FocusId::ScrollArea, area: l.scroll }),
        TabLayout::Terminal(l) => tabs.push(FocusNode { id: FocusId::Terminal, area: l.terminal }),
        TabLayout::Theme(l) => tabs + seq![
            FocusNode { id: FocusId::ThemePresets, area: l.presets },
            FocusNode { id: FocusId::ThemeModeToggle, area: spec_layout_area(b[6], l.toggle) },
        ],
        TabLayout::Blank => tabs,
    }
}

/// The controls focus can land on in a laid-out screen, with their areas.
pub fn focus_nodes_in_layout(app: &AppLayout, t: &TabLayout, state: &CookbookState) -> (nodes: Vec<FocusNode<FocusId>>)
    ensures
        nodes@ == spec_focus_nodes(*app, *t, state@),
{
    let mut nodes: Vec<FocusNode<FocusId>> = vec![FocusNode::new(FocusId::Tabs, app.tabs)];
    match t {
        TabLayout::Buttons(layout) => {
            nodes.push(FocusNode::new(FocusId::ButtonPrimary, state.button_primary.surface_area(state.button_primary.layout_area(layout.variants[0]))));
            nodes.push(FocusNode::new(FocusId::ButtonSecondary, state.button_secondary.surface_area(state.button_secondary.layout_area(layout.variants[1]))));
            nodes.push(FocusNode::new(FocusId::ButtonOutline, state.button_outline.surface_area(state.button_outline.layout_area(layout.variants[2]))));
            nodes.push(FocusNode::new(FocusId::ButtonDanger, state.button_danger.surface_area(state.button_danger.layout_area(layout.variants[3]))));
            nodes.push(FocusNode::new(FocusId::ButtonIncrement, state.button_increment.surface_area(state.button_increment.layout_area(layout.playground_buttons[0]))));
            nodes.push(FocusNode::new(FocusId::ButtonDecrement, state.button_decrement.surface_area(state.button_decrement.layout_area(layout.playground_buttons[1]))));
        },
        TabLayout::Textboxes(layout) => {
            nodes.push(FocusNode::new(FocusId::EditorBox, layout.samples[0]));
            nodes.push(FocusNode::new(FocusId::NotesBox, layout.samples[1]));
            nodes.push(FocusNode::new(FocusId::PreviewBox, layout.samples[2]));
        },
        TabLayout::ScrollEffects(layout) => {
            nodes.push(FocusNode::new(FocusId::ScrollArea, layout.scroll));
        },
        TabLayout::Terminal(layout) => {
            nodes.push(FocusNode::new(FocusId::Terminal, layout.terminal));
        },
        TabLayout::Theme(layout) => {
            nodes.push(FocusNode::new(FocusId::ThemePresets, layout.presets));
            nodes.push(FocusNode::new(FocusId::ThemeModeToggle, state.theme_mode_toggle.layout_area(layout.toggle)));
        },
        TabLayout::Blank => {},
    }
    assert(nodes@ =~= spec_focus_nodes(*app, *t, state@));
    nodes
}

/// The controls focus can land on for the open tab, with their areas: the
/// screen is laid out, then the nodes are read off that layout.
pub fn focus_nodes_for_area(area: Rect, state: &CookbookState) -> (nodes: Vec<FocusNode<FocusId>>)
    ensures
        exists|app: AppLayout, t: TabLayout|
            #![trigger app_layout_fits(area, app), tab_layout_fits(app.body, state@, t)]
            app_layout_fits(area, app) && tab_layout_fits(app.body, state@, t) && nodes@ == spec_focus_nodes(app, t, state@),
{
    let app = app_layout(area);
    let t = tab_layout(app.body, state);
    focus_nodes_in_layout(&app, &t, state)
}

/// Keeps the navigator on a visible control, preferring the open tab's
/// default control when the selection has to be recovered.
pub fn sync_visible_focus(state: &mut CookbookState, nodes: &[FocusNode<FocusId>])
    requires
        old(state).wf(),
    ensures
        final(state).wf(),
        final(state)@ == (CookbookView {
            focus: nav_sync_with_preferred(old(state)@.focus, nodes@, spec_default_focus_for_tab(old(state)@.tab as usize)).1,
            ..old(state)@
        }),
{
    proof {
        lemma_focus_id_eq();
    }
    let preferred = default_focus_for_tab(state.selected_tab.get());
    state.focus.sync_with_preferred(nodes, preferred);
}

/// Whether the navigator selects `id`.
pub open spec fn selects(v: CookbookView, id: FocusId) -> bool {
    v.focus.0 == Some(id)
}

/// The controls after following the navigator: the selected button is
/// focused and the others blurred; textboxes and the terminal are selected
/// or deselected.
pub open spec fn spec_sync_focus_visuals(v: CookbookView) -> CookbookView {
    CookbookView {
        buttons: seq![
            spec_set_focus(v.buttons[0], selects(v, FocusId::ButtonPrimary)),
            spec_set_focus(v.buttons[1], selects(v, FocusId::ButtonSecondary)),
            spec_set_focus(v.buttons[2], selects(v, FocusId::ButtonOutline)),
            spec_set_focus(v.buttons[3], selects(v, FocusId::ButtonDanger)),
            spec_set_focus(v.buttons[4], selects(v, FocusId::ButtonIncrement)),
            spec_set_focus(v.buttons[5], selects(v, FocusId::ButtonDecrement)),
            spec_set_focus(v.buttons[6], selects(v, FocusId::ThemeModeToggle)),
        ],
        boxes: seq![
            spec_textbox_navigator_sync(v.boxes[0], selects(v, FocusId::EditorBox)),
            spec_textbox_navigator_sync(v.boxes[1], selects(v, FocusId::NotesBox)),
            spec_textbox_navigator_sync(v.boxes[2], selects(v, FocusId::PreviewBox)),
        ],
        terminal_selected: selects(v, FocusId::Terminal),
        terminal_focused: selects(v, FocusId::Terminal) && v.terminal_focused,
        ..v
    }
}

fn sync_one_box(b: &mut TextBoxState, selected: bool)
    requires
        old(b).wf(),
    ensures
        final(b).wf(),
        final(b)@ == spec_textbox_navigator_sync(old(b)@, selected),
        final(b).settings() == old(b).settings(),
{
    if selected {
        b.select();
    } else {
        b.deselect();
    }
    assert(b@.model == old(b)@.model);
    assert(b@ == spec_textbox_navigator_sync(old(b)@, selected));
}

/// Makes every control show whether the navigator selects it.
pub fn sync_focus_visuals(state: &mut CookbookState)
    requires
        old(state).wf(),
    ensures
        final(state).wf(),
        final(state)@ == spec_sync_focus_visuals(old(state)@),
{
    proof {
        lemma_focus_id_eq();
    }
    let selected = state.focus.get();
    let is = |id: FocusId| -> (b: bool)
        ensures
            b == (selected == Some(id)),
    {
        match selected {
            Some(s) => s == id,
            None => false,
        }
    };
    let p = is(FocusId::ButtonPrimary);
    state.button_primary.sync_navigator_focus_button(p);
    let p = is(FocusId::ButtonSecondary);
    state.button_secondary.sync_navigator_focus_button(p);
    let p = is(FocusId::ButtonOutline);
    state.button_outline.sync_navigator_focus_button(p);
    let p = is(FocusId::ButtonDanger);
    state.button_danger.sync_navigator_focus_button(p);
    let p = is(FocusId::ButtonIncrement);
    state.button_increment.sync_navigator_focus_button(p);
    let p = is(FocusId::ButtonDecrement);
    state.button_decrement.sync_navigator_focus_button(p);
    let p = is(FocusId::ThemeModeToggle);
    state.theme_mode_toggle.sync_navigator_focus_button(p);
    let p = is(FocusId::EditorBox);
    sync_one_box(&mut state.editor_box, p);
    let p = is(FocusId::NotesBox);
    sync_one_box(&mut state.notes_box, p);
    let p = is(FocusId::PreviewBox);
    sync_one_box(&mut state.preview_box, p);
    let p = is(FocusId::Terminal);
    state.terminal.sync_navigator_focus(p);
    assert(state@ =~= spec_sync_focus_visuals(old(state)@));
}

/// What the footer says about the selected control.
pub open spec fn spec_footer_hint(v: CookbookView) -> Seq<char> {
    let active_box = (selects(v, FocusId::EditorBox) && v.boxes[0].focused) || (selects(v, FocusId::NotesBox)
        && v.boxes[1].focused) || (selects(v, FocusId::PreviewBox) && v.boxes[2].focused);
    let active_terminal = selects(v, FocusId::Terminal) && v.terminal_focused;
    if active_box {
        "textbox active: type normally, esc exits editing"@
    } else if active_terminal {
        "terminal active: type normally, esc exits interaction"@
    } else if selects(v, FocusId::Tabs) {
        "tabs selected: left/right switches tabs, down enters content"@
    } else if selects(v, FocusId::ThemePresets) {
        "theme presets selected: up/down changes the preset, right moves onward"@
    } else if selects(v, FocusId::ScrollArea) {
        "scroll area selected: up/down scrolls, and up at the top returns to tabs"@
    } else if selects(v, FocusId::EditorBox) || selects(v, FocusId::NotesBox) || selects(v, FocusId::PreviewBox) {
        "textbox selected: enter starts editing"@
    } else if selects(v, FocusId::Terminal) {
        "terminal selected: enter starts interaction"@
    } else {
        "tab/backtab cycles focus, arrows move spatially, enter activates"@
    }
}

/// What the footer says about the selected control.
pub fn footer_hint(state: &CookbookState) -> (hint: &'static str)
    ensures
        hint@ == spec_footer_hint(state@),
{
    proof {
        lemma_focus_id_eq();
    }
    let selected = state.focus.get();
    let active_box = (selected == Some(FocusId::EditorBox) && state.editor_box.is_focused()) || (selected
        == Some(FocusId::NotesBox) && state.notes_box.is_focused()) || (selected == Some(FocusId::PreviewBox)
        && state.preview_box.is_focused());
    let active_terminal = selected == Some(FocusId::Terminal) && state.terminal.is_focused();
    if active_box {
        "textbox active: type normally, esc exits editing"
    } else if active_terminal {
        "terminal active: type normally, esc exits interaction"
    } else if selected == Some(FocusId::Tabs) {
        "tabs selected: left/right switches tabs, down enters content"
    } else if selected == Some(FocusId::ThemePresets) {
        "theme presets selected: up/down changes the preset, right moves onward"
    } else if selected == Some(FocusId::ScrollArea) {
        "scroll area selected: up/down scrolls, and up at the top returns to tabs"
    } else if selected == Some(FocusId::EditorBox) || selected == Some(FocusId::NotesBox) || selected
        == Some(FocusId::PreviewBox) {
        "textbox selected: enter starts editing"
    } else if selected == Some(FocusId::Terminal) {
        "terminal selected: enter starts interaction"
    } else {
        "tab/backtab cycles focus, arrows move spatially, enter activates"
    }
}


/// Whatever key arrives, the gallery remembers it, and the open tab and the
/// chosen theme preset stay among the existing ones.
pub proof fn law_key_keeps_tabs_in_range(v: CookbookView, key: KeyEvent, nodes: Seq<FocusNode<FocusId>>, scroll: u16, now: u64, write_ok: bool)
    requires
        v.tab < v.tab_count,
        v.theme_idx < v.theme_count,
        v.buttons.len() == 7,
        v.boxes.len() == 3,
    ensures
        ({
            let out = spec_handle_key_event(v, key, nodes, scroll, now, write_ok);
            &&& out.state.last_key == Some(key)
            &&& out.state.tab < out.state.tab_count
            &&& out.state.tab_count == v.tab_count
            &&& out.state.theme_idx < out.state.theme_count
            &&& out.state.theme_count == v.theme_count
        }),
{
}

/// Keys never quit the gallery except Ctrl+Q.
pub proof fn law_only_ctrl_q_quits(v: CookbookView, key: KeyEvent, nodes: Seq<FocusNode<FocusId>>, scroll: u16, now: u64, write_ok: bool)
    ensures
        spec_handle_key_event(v, key, nodes, scroll, now, write_ok).quit ==> key.code == KeyCode::Char('q') && key.modifiers.control && key.kind == KeyEventKind::Press,
{
}

/// A key other than Enter passes through the gallery's buttons: none takes
/// it, and only their pending reports are dropped.
proof fn lemma_buttons_pass_other_keys(v: CookbookView, key: KeyEvent, now: u64, i: int)
    requires
        v.buttons.len() == 7,
        key.code != KeyCode::Enter,
        0 <= i <= 6,
    ensures
        ({
            let (s, w) = spec_gallery_buttons(v, SmashEvent::Key(key), now, i);
            &&& s == EventStatus::Ignored
            &&& w == (CookbookView { buttons: w.buttons, ..v })
            &&& w.buttons.len() == 7
        }),
    decreases 6 - i,
{
    if i < 6 {
        let (s1, w1) = spec_button_step(v, gallery_button(i), SmashEvent::Key(key), now);
        assert(s1 == EventStatus::Ignored);
        assert(w1 == (CookbookView { buttons: w1.buttons, ..v }));
        lemma_buttons_pass_other_keys(w1, key, now, i + 1);
    }
}

/// Ctrl+C asks once before quitting: when the selected control does not take
/// the key itself (a textbox being edited copies with it, an active terminal
/// passes it to its program), the first press opens the quit dialog without
/// quitting, and a second press while the dialog is open quits.
pub proof fn law_ctrl_c_asks_before_quitting(
    v: CookbookView,
    key: KeyEvent,
    nodes: Seq<FocusNode<FocusId>>,
    scroll: u16,
    now: u64,
    write_ok: bool,
)
    requires
        v.buttons.len() == 7,
        v.boxes.len() == 3,
        spec_is_ctrl_c_press(key),
        !v.dialog.is_open,
        box_index(spec_selected_control(v)) >= 0 ==> !v.boxes[box_index(spec_selected_control(v))].focused,
        spec_selected_control(v) == FocusId::Terminal ==> !v.terminal_focused,
    ensures
        ({
            let first = spec_dispatch_event(v, SmashEvent::Key(key), nodes, scroll, now, write_ok);
            let second = spec_dispatch_event(first.state, SmashEvent::Key(key), nodes, first.scroll, now, write_ok);
            &&& first.status == EventStatus::Handled
            &&& !first.quit
            &&& first.state.dialog.is_open
            &&& second.quit
        }),
{
    let event = SmashEvent::Key(key);
    let (ms, mv) = spec_handle_mouse_event(v, event, nodes, now);
    if v.tab == TAB_BUTTONS {
        lemma_buttons_pass_other_keys(v, key, now, 0);
    } else if v.tab == crate::cookbook::TAB_THEME {
        let (s1, w1) = spec_button_step(v, FocusId::ThemeModeToggle, event, now);
        assert(s1 == EventStatus::Ignored);
    }
    assert(ms == EventStatus::Ignored);
    assert(mv == (CookbookView { buttons: mv.buttons, ..v }));
    let v0 = CookbookView { last_key: Some(key), ..mv };
    let selected = spec_selected_control(v0);
    assert(selected == spec_selected_control(v));
    let (rs, v1) = spec_route_key(v0, selected, key, now, write_ok);
    assert(rs == EventStatus::Ignored);
    assert(!v1.dialog.is_open);
}

/// The gallery's footer: the focused control, what the keys do there, the
/// gallery-wide shortcuts and, once a key was pressed, that key.
pub open spec fn spec_footer_help(v: CookbookView) -> Seq<char> {
    let base = "focus: "@ + spec_focus_label(v.focus.0) + " | "@ + spec_footer_hint(v)
        + " | ctrl+left/right: switch tabs | ctrl+c twice: quit | ctrl+q: quit"@;
    match v.last_key {
        Some(k) => base + " | last: "@ + spec_key_name(k.code) + spec_modifiers_text(k.modifiers),
        None => base,
    }
}

/// The gallery's footer text.
pub fn footer_help(state: &CookbookState) -> (text: String)
    ensures
        text@ == spec_footer_help(state@),
{
    let mut out: Vec<char> = Vec::new();
    push_text(&mut out, "focus: ");
    push_text(&mut out, focus_label(state.focus.get()));
    push_text(&mut out, " | ");
    push_text(&mut out, footer_hint(state));
    push_text(&mut out, " | ctrl+left/right: switch tabs | ctrl+c twice: quit | ctrl+q: quit");
    match state.last_key_debug {
        Some(k) => {
            push_text(&mut out, " | last: ");
            push_key_name(&mut out, k.code);
            push_modifiers(&mut out, k.modifiers);
        },
        None => {},
    }
    string_from_chars(&out)
}

} // verus!
