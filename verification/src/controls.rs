use crate::button::{spec_button_handle, spec_set_focus, ButtonState, ButtonView};
use crate::events::{EventStatus, SmashEvent};
use crate::reactive::NavigatorFocusable;
use crate::textbox::{spec_handle_event, spec_textbox_navigator_sync, TextBoxState, TextBoxView};
use vstd::prelude::*;

verus! {

/// A control of either kind that the navigator can select, so that buttons
/// and textboxes can share one list.
pub enum NavigatorControl {
    Button(ButtonState),
    TextBox(TextBoxState),
}

/// A control's state, as values.
pub enum NavigatorControlView {
    Button(ButtonView),
    TextBox(TextBoxView),
}

impl View for NavigatorControl {
    type V = NavigatorControlView;

    open spec fn view(&self) -> NavigatorControlView {
        match self {
            NavigatorControl::Button(b) => NavigatorControlView::Button(b@),
            NavigatorControl::TextBox(t) => NavigatorControlView::TextBox(t@),
        }
    }
}

impl NavigatorFocusable for NavigatorControl {
    open spec fn navigator_inv(&self) -> bool {
        match self {
            NavigatorControl::Button(_) => true,
            NavigatorControl::TextBox(t) => t.wf(),
        }
    }

    open spec fn navigator_sync(v: NavigatorControlView, selected: bool) -> NavigatorControlView {
        match v {
            NavigatorControlView::Button(b) => NavigatorControlView::Button(spec_set_focus(b, selected)),
            NavigatorControlView::TextBox(t) => NavigatorControlView::TextBox(spec_textbox_navigator_sync(t, selected)),
        }
    }

    open spec fn navigator_active(v: NavigatorControlView) -> bool {
        match v {
            NavigatorControlView::Button(_) => false,
            NavigatorControlView::TextBox(t) => t.focused,
        }
    }

    open spec fn navigator_handle(v: NavigatorControlView, event: SmashEvent, now: u64) -> (EventStatus, NavigatorControlView) {
        match v {
            NavigatorControlView::Button(b) => {
                let (s, w) = spec_button_handle(b, event, now);
                (s, NavigatorControlView::Button(w))
            },
            NavigatorControlView::TextBox(t) => match event {
                SmashEvent::Key(key) => (
                    if spec_handle_event(t, key).0 { EventStatus::Handled } else { EventStatus::Ignored },
                    NavigatorControlView::TextBox(spec_handle_event(t, key).1),
                ),
                _ => (EventStatus::Ignored, NavigatorControlView::TextBox(t)),
            },
        }
    }

    fn sync_navigator_focus(&mut self, selected: bool) {
        match self {
            NavigatorControl::Button(b) => b.sync_navigator_focus(selected),
            NavigatorControl::TextBox(t) => t.sync_navigator_focus(selected),
        }
    }

    fn is_navigator_active(&self) -> (b: bool) {
        match self {
            NavigatorControl::Button(b) => b.is_navigator_active(),
            NavigatorControl::TextBox(t) => t.is_navigator_active(),
        }
    }

    fn handle_navigator_event(&mut self, event: &SmashEvent, now_ms: u64) -> (status: EventStatus) {
        match self {
            NavigatorControl::Button(b) => b.handle_navigator_event(event, now_ms),
            NavigatorControl::TextBox(t) => t.handle_navigator_event(event, now_ms),
        }
    }
}

} // verus!
