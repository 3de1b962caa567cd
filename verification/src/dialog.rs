use crate::button::{
    contains_click, fresh_button, spec_button_handle, spec_draw_button, spec_set_focus, use_button_variant, ButtonEvent, ButtonState,
    ButtonVariant, ButtonView, KEYBOARD_PRESS_FEEDBACK_MS,
};
use crate::events::{EventStatus, KeyCode, KeyEvent, KeyEventKind, MouseButton, MouseEventKind, SmashEvent};
use crate::geometry::Rect;
use crate::text::{chars_of, string_from_chars};
use vstd::prelude::*;

verus! {

/// How a dialog answered an event.
#[derive(Clone, Copy, Debug, PartialEq, Eq, Structural)]
pub enum DialogEvent {
    /// The dialog did not take the event.
    Ignored,
    /// The dialog took the event and stays open.
    Handled,
    /// The dialog was dismissed without confirming.
    Cancelled,
    /// The confirm action was chosen.
    Confirmed,
}

/// What a dialog remembers. The buttons are held without their pending event
/// reports, which the dialog consumes as it handles events.
pub struct DialogView {
    pub title: Seq<char>,
    pub message: Seq<char>,
    pub cancel_label: Seq<char>,
    pub confirm_label: Seq<char>,
    pub is_open: bool,
    /// 0 for cancel, 1 for confirm.
    pub selected_action: nat,
    pub cancel: ButtonView,
    pub confirm: ButtonView,
    /// Counts the times the dialog was opened (wrapping).
    pub show_generation: u64,
    /// The generation whose opening animation was last started.
    pub rendered_generation: u64,
    /// Whether an opening animation is running.
    pub has_show_effect: bool,
    /// When the animation last advanced, in milliseconds.
    pub last_effect_tick: Option<u64>,
}

/// A confirmation dialog with a cancel and a confirm button.
pub struct DialogState {
    title: String,
    message: String,
    cancel_label: String,
    confirm_label: String,
    is_open: bool,
    selected_action: usize,
    cancel_button: ButtonState,
    confirm_button: ButtonState,
    show_generation: u64,
    rendered_generation: u64,
    has_show_effect: bool,
    last_effect_tick: Option<u64>,
}

/// A button view with no pending reports.
pub open spec fn quiet(b: ButtonView) -> ButtonView {
    ButtonView { events: Seq::empty(), ..b }
}

impl View for DialogState {
    type V = DialogView;

    closed spec fn view(&self) -> DialogView {
        DialogView {
            title: self.title@,
            message: self.message@,
            cancel_label: self.cancel_label@,
            confirm_label: self.confirm_label@,
            is_open: self.is_open,
            selected_action: self.selected_action as nat,
            cancel: quiet(self.cancel_button@),
            confirm: quiet(self.confirm_button@),
            show_generation: self.show_generation,
            rendered_generation: self.rendered_generation,
            has_show_effect: self.has_show_effect,
            last_effect_tick: self.last_effect_tick,
        }
    }
}

/// A closed dialog with `cancel` and `confirm` buttons, cancel selected.
pub open spec fn fresh_dialog(title: Seq<char>, message: Seq<char>) -> DialogView {
    DialogView {
        title,
        message,
        cancel_label: "cancel"@,
        confirm_label: "confirm"@,
        is_open: false,
        selected_action: 0,
        cancel: fresh_button("cancel"@, ButtonVariant::Outline),
        confirm: fresh_button("confirm"@, ButtonVariant::Primary),
        show_generation: 0,
        rendered_generation: 0,
        has_show_effect: false,
        last_effect_tick: None,
    }
}

/// Creates a closed dialog.
pub fn use_dialog(title: &str, message: &str) -> (d: DialogState)
    ensures
        d@ == fresh_dialog(title@, message@),
{
    let title_chars = chars_of(title);
    let message_chars = chars_of(message);
    let cancel_chars = chars_of("cancel");
    let confirm_chars = chars_of("confirm");
    DialogState {
        title: string_from_chars(&title_chars),
        message: string_from_chars(&message_chars),
        cancel_label: string_from_chars(&cancel_chars),
        confirm_label: string_from_chars(&confirm_chars),
        is_open: false,
        selected_action: 0,
        cancel_button: use_button_variant("cancel", ButtonVariant::Outline),
        confirm_button: use_button_variant("confirm", ButtonVariant::Primary),
        show_generation: 0,
        rendered_generation: 0,
        has_show_effect: false,
        last_effect_tick: None,
    }
}

/// Focuses the button of the selected action and blurs the other.
pub open spec fn spec_sync_buttons(v: DialogView) -> DialogView {
    DialogView {
        cancel: quiet(spec_set_focus(v.cancel, v.selected_action == 0)),
        confirm: quiet(spec_set_focus(v.confirm, v.selected_action == 1)),
        ..v
    }
}

/// Selects an action (0 or 1) and moves button focus to it.
pub open spec fn spec_select_action(v: DialogView, index: nat) -> DialogView {
    spec_sync_buttons(DialogView { selected_action: index, ..v })
}

/// `g + 1`, wrapping to zero.
pub open spec fn wrapping_inc(g: u64) -> u64 {
    if g == u64::MAX { 0 } else { (g + 1) as u64 }
}

/// Opening: cancel selected, a new generation, no animation yet.
pub open spec fn spec_open(v: DialogView) -> DialogView {
    let s = spec_select_action(v, 0);
    DialogView {
        show_generation: wrapping_inc(s.show_generation),
        has_show_effect: false,
        last_effect_tick: None,
        is_open: true,
        ..s
    }
}

/// Closing: cancel selected, both buttons blurred, no animation.
pub open spec fn spec_close(v: DialogView) -> DialogView {
    DialogView {
        selected_action: 0,
        cancel: quiet(spec_set_focus(v.cancel, false)),
        confirm: quiet(spec_set_focus(v.confirm, false)),
        has_show_effect: false,
        last_effect_tick: None,
        is_open: false,
        ..v
    }
}

/// What an open dialog does with a key.
pub open spec fn spec_dialog_key(v: DialogView, event: SmashEvent, now: u64) -> (DialogEvent, DialogView)
    recommends
        event is Key,
{
    let key = event->Key_0;
    if key.code == KeyCode::Enter {
        if v.selected_action == 0 {
            let (status, b) = spec_button_handle(v.cancel, event, now);
            let v1 = DialogView { cancel: quiet(b), ..v };
            if b.events.contains(ButtonEvent::Click) {
                (DialogEvent::Cancelled, spec_close(v1))
            } else if status == EventStatus::Handled {
                (DialogEvent::Handled, v1)
            } else {
                (DialogEvent::Ignored, v1)
            }
        } else {
            let (status, b) = spec_button_handle(v.confirm, event, now);
            let v1 = DialogView { confirm: quiet(b), ..v };
            if b.events.contains(ButtonEvent::Click) {
                (DialogEvent::Confirmed, spec_close(v1))
            } else if status == EventStatus::Handled {
                (DialogEvent::Handled, v1)
            } else {
                (DialogEvent::Ignored, v1)
            }
        }
    } else if key.kind == KeyEventKind::Release {
        (DialogEvent::Ignored, v)
    } else if key.code == KeyCode::Esc {
        (DialogEvent::Cancelled, spec_close(v))
    } else if key.code == KeyCode::Left || key.code == KeyCode::Up || key.code == KeyCode::BackTab {
        (DialogEvent::Handled, spec_select_action(v, 0))
    } else if key.code == KeyCode::Right || key.code == KeyCode::Down || key.code == KeyCode::Tab {
        (DialogEvent::Handled, spec_select_action(v, 1))
    } else {
        (DialogEvent::Ignored, v)
    }
}

/// What an open dialog does with a mouse event: both buttons see it, the
/// selection follows button focus, a click decides, and left presses,
/// releases and moves are taken even when no button took them.
pub open spec fn spec_dialog_mouse(v: DialogView, event: SmashEvent, now: u64) -> (DialogEvent, DialogView)
    recommends
        event is Mouse,
{
    let mouse = event->Mouse_0;
    let (cs, c) = spec_button_handle(v.cancel, event, now);
    let (fs, f) = spec_button_handle(v.confirm, event, now);
    let selected: nat = if f.focused { 1 } else if c.focused { 0 } else { v.selected_action };
    let v1 = DialogView { cancel: quiet(c), confirm: quiet(f), selected_action: selected, ..v };
    if f.events.contains(ButtonEvent::Click) {
        (DialogEvent::Confirmed, spec_close(v1))
    } else if c.events.contains(ButtonEvent::Click) {
        (DialogEvent::Cancelled, spec_close(v1))
    } else if cs == EventStatus::Handled || fs == EventStatus::Handled || mouse.kind
        == MouseEventKind::Down(MouseButton::Left) || mouse.kind == MouseEventKind::Up(MouseButton::Left)
        || mouse.kind == MouseEventKind::Moved {
        (DialogEvent::Handled, v1)
    } else {
        (DialogEvent::Ignored, v1)
    }
}

/// What a dialog does with an event at time `now` (milliseconds).
pub open spec fn spec_dialog_handle(v: DialogView, event: SmashEvent, now: u64) -> (DialogEvent, DialogView) {
    if !v.is_open {
        (DialogEvent::Ignored, v)
    } else {
        match event {
            SmashEvent::Key(_) => spec_dialog_key(v, event, now),
            SmashEvent::Mouse(_) => spec_dialog_mouse(v, event, now),
            _ => (DialogEvent::Ignored, v),
        }
    }
}

/// The dialog once its buttons are drawn: each shows whether its action is
/// selected and is drawn in its area at time `now`.
pub open spec fn spec_place_buttons(v: DialogView, cancel_area: Rect, confirm_area: Rect, now: u64) -> DialogView {
    let s = spec_sync_buttons(v);
    DialogView {
        cancel: quiet(spec_draw_button(s.cancel, cancel_area, now)),
        confirm: quiet(spec_draw_button(s.confirm, confirm_area, now)),
        ..s
    }
}

/// One frame of the opening animation: whether a new animation is to be
/// started, and how many milliseconds it advances.
#[derive(Clone, Copy, Debug, PartialEq, Eq, Structural)]
pub struct ShowEffectStep {
    pub restart: bool,
    pub elapsed_ms: u64,
}

/// The animation step taken at time `now`, and the dialog after it: a new
/// animation starts when the dialog was reopened since the last one or none
/// runs; it advances by the time since the previous frame, or 16 ms on the
/// first frame.
pub open spec fn spec_show_effect_step(v: DialogView, now: u64) -> (ShowEffectStep, DialogView) {
    let restart = v.rendered_generation != v.show_generation || !v.has_show_effect;
    let last = if restart { None } else { v.last_effect_tick };
    let elapsed = match last {
        Some(t) => if now >= t { (now - t) as u64 } else { 0 },
        None => 16,
    };
    (
        ShowEffectStep { restart, elapsed_ms: elapsed },
        DialogView {
            has_show_effect: true,
            rendered_generation: v.show_generation,
            last_effect_tick: Some(now),
            ..v
        },
    )
}

impl DialogState {
    fn take_button_events(&mut self)
        ensures
            final(self)@ == old(self)@,
            final(self).cancel_button@ == quiet(old(self).cancel_button@),
            final(self).confirm_button@ == quiet(old(self).confirm_button@),
    {
        let _ = self.cancel_button.take_events();
        let _ = self.confirm_button.take_events();
        assert(self.cancel_button@ =~= quiet(old(self).cancel_button@));
    }

    fn sync_action_buttons(&mut self)
        ensures
            final(self)@ == spec_sync_buttons(old(self)@),
    {
        let selected = self.selected_action;
        if selected == 0 {
            self.cancel_button.focus();
        } else {
            self.cancel_button.blur();
        }
        if selected == 1 {
            self.confirm_button.focus();
        } else {
            self.confirm_button.blur();
        }
    }

    fn set_selected_action(&mut self, index: usize)
        requires
            index < 2,
        ensures
            final(self)@ == spec_select_action(old(self)@, index as nat),
    {
        self.selected_action = index;
        self.sync_action_buttons();
    }

    /// Opens the dialog with the cancel action selected and a fresh opening
    /// animation.
    pub fn open(&mut self)
        ensures
            final(self)@ == spec_open(old(self)@),
    {
        self.set_selected_action(0);
        self.show_generation = self.show_generation.wrapping_add(1);
        self.has_show_effect = false;
        self.last_effect_tick = None;
        self.is_open = true;
    }

    /// Closes the dialog.
    pub fn close(&mut self)
        ensures
            final(self)@ == spec_close(old(self)@),
    {
        self.selected_action = 0;
        self.cancel_button.blur();
        self.confirm_button.blur();
        self.has_show_effect = false;
        self.last_effect_tick = None;
        self.is_open = false;
    }

    /// Replaces the message and opens the dialog.
    pub fn open_with_message(&mut self, message: &str)
        ensures
            final(self)@ == spec_open(DialogView { message: message@, ..old(self)@ }),
    {
        self.set_message(message);
        self.open();
    }

    pub fn is_open(&self) -> (b: bool)
        ensures
            b == self@.is_open,
    {
        self.is_open
    }

    /// The selected action: 0 for cancel, 1 for confirm.
    pub fn selected_action(&self) -> (i: usize)
        ensures
            i == self@.selected_action,
    {
        self.selected_action
    }

    pub fn cancel_button(&self) -> (b: &ButtonState)
        ensures
            quiet(b@) == self@.cancel,
    {
        &self.cancel_button
    }

    pub fn confirm_button(&self) -> (b: &ButtonState)
        ensures
            quiet(b@) == self@.confirm,
    {
        &self.confirm_button
    }

    pub fn title(&self) -> (t: String)
        ensures
            t@ == self@.title,
    {
        self.title.clone()
    }

    pub fn message(&self) -> (t: String)
        ensures
            t@ == self@.message,
    {
        self.message.clone()
    }

    pub fn set_title(&mut self, title: &str)
        ensures
            final(self)@ == (DialogView { title: title@, ..old(self)@ }),
    {
        let chars = chars_of(title);
        self.title = string_from_chars(&chars);
    }

    pub fn set_message(&mut self, message: &str)
        ensures
            final(self)@ == (DialogView { message: message@, ..old(self)@ }),
    {
        let chars = chars_of(message);
        self.message = string_from_chars(&chars);
    }

    /// Renames the two actions, on the dialog and on its buttons.
    pub fn set_labels(&mut self, cancel_label: &str, confirm_label: &str)
        ensures
            final(self)@ == (DialogView {
                cancel_label: cancel_label@,
                confirm_label: confirm_label@,
                cancel: ButtonView { label: cancel_label@, ..old(self)@.cancel },
                confirm: ButtonView { label: confirm_label@, ..old(self)@.confirm },
                ..old(self)@
            }),
    {
        let c = chars_of(cancel_label);
        let f = chars_of(confirm_label);
        self.cancel_label = string_from_chars(&c);
        self.confirm_label = string_from_chars(&f);
        self.cancel_button.set_label(cancel_label);
        self.confirm_button.set_label(confirm_label);
    }

    /// Reacts to an event at time `now_ms` (milliseconds): Enter activates the
    /// selected button, Esc cancels, arrows and Tab move between the actions,
    /// and the mouse reaches both buttons.
    pub fn handle_smash_event(&mut self, event: &SmashEvent, now_ms: u64) -> (r: DialogEvent)
        requires
            now_ms + KEYBOARD_PRESS_FEEDBACK_MS <= u64::MAX,
        ensures
            (r, final(self)@) == spec_dialog_handle(old(self)@, *event, now_ms),
    {
        if !self.is_open {
            return DialogEvent::Ignored;
        }
        self.take_button_events();
        match event {
            SmashEvent::Key(key) => {
                if key.code == KeyCode::Enter {
                    if self.selected_action == 0 {
                        let status = self.cancel_button.handle_event(event, now_ms);
                        let events = self.cancel_button.take_events();
                        if contains_click(&events) {
                            self.close();
                            return DialogEvent::Cancelled;
                        }
                        return if status == EventStatus::Handled {
                            DialogEvent::Handled
                        } else {
                            DialogEvent::Ignored
                        };
                    } else {
                        let status = self.confirm_button.handle_event(event, now_ms);
                        let events = self.confirm_button.take_events();
                        if contains_click(&events) {
                            self.close();
                            return DialogEvent::Confirmed;
                        }
                        return if status == EventStatus::Handled {
                            DialogEvent::Handled
                        } else {
                            DialogEvent::Ignored
                        };
                    }
                }
                if key.kind == KeyEventKind::Release {
                    return DialogEvent::Ignored;
                }
                if key.code == KeyCode::Esc {
                    self.close();
                    DialogEvent::Cancelled
                } else if key.code == KeyCode::Left || key.code == KeyCode::Up || key.code
                    == KeyCode::BackTab {
                    self.set_selected_action(0);
                    DialogEvent::Handled
                } else if key.code == KeyCode::Right || key.code == KeyCode::Down || key.code
                    == KeyCode::Tab {
                    self.set_selected_action(1);
                    DialogEvent::Handled
                } else {
                    DialogEvent::Ignored
                }
            },
            SmashEvent::Mouse(mouse) => {
                let cancel_status = self.cancel_button.handle_event(event, now_ms);
                let confirm_status = self.confirm_button.handle_event(event, now_ms);
                if self.confirm_button.is_focused() {
                    self.selected_action = 1;
                } else if self.cancel_button.is_focused() {
                    self.selected_action = 0;
                }
                let cancel_events = self.cancel_button.take_events();
                let confirm_events = self.confirm_button.take_events();
                if contains_click(&confirm_events) {
                    self.close();
                    DialogEvent::Confirmed
                } else if contains_click(&cancel_events) {
                    self.close();
                    DialogEvent::Cancelled
                } else if cancel_status == EventStatus::Handled || confirm_status
                    == EventStatus::Handled || mouse.kind == MouseEventKind::Down(MouseButton::Left)
                    || mouse.kind == MouseEventKind::Up(MouseButton::Left) || mouse.kind
                    == MouseEventKind::Moved {
                    DialogEvent::Handled
                } else {
                    DialogEvent::Ignored
                }
            },
            _ => DialogEvent::Ignored,
        }
    }

    pub fn show_generation(&self) -> (g: u64)
        ensures
            g == self@.show_generation,
    {
        self.show_generation
    }

    pub fn rendered_generation(&self) -> (g: u64)
        ensures
            g == self@.rendered_generation,
    {
        self.rendered_generation
    }

    pub fn has_show_effect(&self) -> (b: bool)
        ensures
            b == self@.has_show_effect,
    {
        self.has_show_effect
    }

    pub fn last_effect_tick(&self) -> (t: Option<u64>)
        ensures
            t == self@.last_effect_tick,
    {
        self.last_effect_tick
    }

    pub fn cancel_label(&self) -> (t: String)
        ensures
            t@ == self@.cancel_label,
    {
        self.cancel_label.clone()
    }

    pub fn confirm_label(&self) -> (t: String)
        ensures
            t@ == self@.confirm_label,
    {
        self.confirm_label.clone()
    }

    /// Prepares the action buttons for a frame drawn at time `now_ms`, the
    /// cancel button in `cancel_area` and the confirm button in
    /// `confirm_area`: each shows whether its action is selected, ends its
    /// keyboard press feedback when due, and records the surface it fills.
    pub fn place_buttons(&mut self, cancel_area: Rect, confirm_area: Rect, now_ms: u64)
        ensures
            final(self)@ == spec_place_buttons(old(self)@, cancel_area, confirm_area, now_ms),
    {
        self.sync_action_buttons();
        self.cancel_button.sync_keyboard_press_feedback(now_ms);
        let _ = self.cancel_button.place(cancel_area);
        self.confirm_button.sync_keyboard_press_feedback(now_ms);
        let _ = self.confirm_button.place(confirm_area);
    }

    /// Advances the opening animation for a frame drawn at time `now_ms`.
    pub fn advance_show_effect(&mut self, now_ms: u64) -> (step: ShowEffectStep)
        ensures
            (step, final(self)@) == spec_show_effect_step(old(self)@, now_ms),
    {
        let restart = self.rendered_generation != self.show_generation || !self.has_show_effect;
        if restart {
            self.has_show_effect = true;
            self.rendered_generation = self.show_generation;
            self.last_effect_tick = None;
        }
        let elapsed = match self.last_effect_tick {
            Some(t) => if now_ms >= t {
                now_ms - t
            } else {
                0
            },
            None => 16,
        };
        self.last_effect_tick = Some(now_ms);
        ShowEffectStep { restart, elapsed_ms: elapsed }
    }
}


/// A closed dialog ignores every event and stays as it was.
pub proof fn law_closed_dialog_ignores_events(v: DialogView, event: SmashEvent, now: u64)
    requires
        !v.is_open,
    ensures
        spec_dialog_handle(v, event, now) == (DialogEvent::Ignored, v),
{
}

/// A dialog that answers `Cancelled` or `Confirmed` is closed afterwards, and
/// one that answers `Handled` or `Ignored` while open stays open.
pub proof fn law_decision_closes_dialog(v: DialogView, event: SmashEvent, now: u64)
    ensures
        ({
            let (r, w) = spec_dialog_handle(v, event, now);
            &&& (r == DialogEvent::Cancelled || r == DialogEvent::Confirmed) ==> !w.is_open
            &&& (v.is_open && (r == DialogEvent::Handled || r == DialogEvent::Ignored)) ==> w.is_open
        }),
{
}

/// Opening a dialog selects the cancel action and focuses exactly its
/// button, whatever state the dialog was in.
pub proof fn law_open_selects_cancel(v: DialogView)
    ensures
        spec_open(v).is_open,
        spec_open(v).selected_action == 0,
        spec_open(v).cancel.focused,
        !spec_open(v).confirm.focused,
        !spec_open(v).has_show_effect,
{
}

/// In an open dialog, pressing Left, Up or Shift+Tab selects the cancel
/// action (and Right, Down or Tab the confirm action); the dialog stays open,
/// and a following press of Enter answers `Cancelled` (or `Confirmed`) and
/// closes it.
pub proof fn law_arrow_keys_pick_the_action_enter_takes(v: DialogView, key: KeyEvent, enter: KeyEvent, now: u64, later: u64)
    requires
        v.is_open,
        key.kind != KeyEventKind::Release,
        enter.code == KeyCode::Enter,
        enter.kind == KeyEventKind::Press,
    ensures
        ({
            let (r, w) = spec_dialog_handle(v, SmashEvent::Key(key), now);
            let (r2, w2) = spec_dialog_handle(w, SmashEvent::Key(enter), later);
            &&& (key.code == KeyCode::Left || key.code == KeyCode::Up || key.code == KeyCode::BackTab) ==> {
                &&& r == DialogEvent::Handled
                &&& w.is_open
                &&& w.selected_action == 0
                &&& r2 == DialogEvent::Cancelled
                &&& !w2.is_open
            }
            &&& (key.code == KeyCode::Right || key.code == KeyCode::Down || key.code == KeyCode::Tab) ==> {
                &&& r == DialogEvent::Handled
                &&& w.is_open
                &&& w.selected_action == 1
                &&& r2 == DialogEvent::Confirmed
                &&& !w2.is_open
            }
        }),
{
    let (r, w) = spec_dialog_handle(v, SmashEvent::Key(key), now);
    if key.code == KeyCode::Left || key.code == KeyCode::Up || key.code == KeyCode::BackTab {
        assert(w.cancel.focused);
        let (st, b) = spec_button_handle(w.cancel, SmashEvent::Key(enter), later);
        assert(b.events.contains(ButtonEvent::Click)) by {
            assert(b.events.last() == ButtonEvent::Click);
        }
    }
    if key.code == KeyCode::Right || key.code == KeyCode::Down || key.code == KeyCode::Tab {
        assert(w.confirm.focused);
        let (st, b) = spec_button_handle(w.confirm, SmashEvent::Key(enter), later);
        assert(b.events.contains(ButtonEvent::Click)) by {
            assert(b.events.last() == ButtonEvent::Click);
        }
    }
}

} // verus!
