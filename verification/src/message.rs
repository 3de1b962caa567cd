use crate::events::{EventStatus, KeyCode, KeyEvent, KeyEventKind, MouseButton, MouseEventKind, SmashEvent};
use crate::reactive::NavigatorFocusable;
use crate::text::{chars_of, string_from_chars};
use vstd::prelude::*;

verus! {

/// How long, in milliseconds, the "copied!" feedback stays up.
pub const COPY_FEEDBACK_MS: u64 = 1500;

/// How a message box answered an event.
#[derive(Clone, Copy, Debug, PartialEq, Eq, Structural)]
pub enum MessageEvent {
    Ignored,
    Handled,
    Dismissed,
}

/// What a message box remembers.
pub struct MessageView {
    pub title: Seq<char>,
    pub message: Seq<char>,
    pub is_open: bool,
    /// Whether a system clipboard can be written.
    pub clipboard_available: bool,
    /// Until when the "copied!" feedback shows, in milliseconds.
    pub copied_feedback: Option<u64>,
    /// Text to be written to the system clipboard.
    pub pending_copy: Option<Seq<char>>,
}

/// A dismissable message box whose text can be copied with Ctrl+C.
pub struct MessageState {
    title: String,
    message: String,
    is_open: bool,
    clipboard_available: bool,
    copied_feedback: Option<u64>,
    pending_copy: Option<String>,
}

impl View for MessageState {
    type V = MessageView;

    closed spec fn view(&self) -> MessageView {
        MessageView {
            title: self.title@,
            message: self.message@,
            is_open: self.is_open,
            clipboard_available: self.clipboard_available,
            copied_feedback: self.copied_feedback,
            pending_copy: match self.pending_copy {
                Some(t) => Some(t@),
                None => None,
            },
        }
    }
}

/// Creates a closed message box; `clipboard_available` tells whether a system
/// clipboard could be opened.
pub fn use_message(title: &str, message: &str, clipboard_available: bool) -> (m: MessageState)
    ensures
        m@ == (MessageView {
            title: title@,
            message: message@,
            is_open: false,
            clipboard_available,
            copied_feedback: None,
            pending_copy: None,
        }),
{
    let t = chars_of(title);
    let m = chars_of(message);
    MessageState {
        title: string_from_chars(&t),
        message: string_from_chars(&m),
        is_open: false,
        clipboard_available,
        copied_feedback: None,
        pending_copy: None,
    }
}

/// Closing drops the copy feedback.
pub open spec fn spec_message_close(v: MessageView) -> MessageView {
    MessageView { copied_feedback: None, is_open: false, ..v }
}

/// Copying queues the message for the clipboard and starts the feedback,
/// when there is a clipboard.
pub open spec fn spec_message_copy(v: MessageView, now: u64) -> MessageView {
    if v.clipboard_available {
        MessageView {
            pending_copy: Some(v.message),
            copied_feedback: Some((now + COPY_FEEDBACK_MS) as u64),
            ..v
        }
    } else {
        v
    }
}

/// What a message box does with an event at time `now` (milliseconds).
pub open spec fn spec_message_handle(v: MessageView, event: SmashEvent, now: u64) -> (MessageEvent, MessageView) {
    if !v.is_open {
        (MessageEvent::Ignored, v)
    } else {
        match event {
            SmashEvent::Key(key) => if key.kind == KeyEventKind::Release {
                (MessageEvent::Ignored, v)
            } else if key.modifiers.control && key.code == KeyCode::Char('c') {
                (MessageEvent::Handled, spec_message_copy(v, now))
            } else if key.code == KeyCode::Esc {
                (MessageEvent::Dismissed, spec_message_close(v))
            } else {
                (MessageEvent::Ignored, v)
            },
            SmashEvent::Mouse(mouse) => if mouse.kind == MouseEventKind::Down(MouseButton::Left)
                || mouse.kind == MouseEventKind::Up(MouseButton::Left) {
                (MessageEvent::Dismissed, spec_message_close(v))
            } else {
                (MessageEvent::Handled, v)
            },
            _ => (MessageEvent::Ignored, v),
        }
    }
}

impl MessageState {
    pub fn open(&mut self)
        ensures
            final(self)@ == (MessageView { is_open: true, ..old(self)@ }),
    {
        self.is_open = true;
    }

    pub fn close(&mut self)
        ensures
            final(self)@ == spec_message_close(old(self)@),
    {
        self.copied_feedback = None;
        self.is_open = false;
    }

    pub fn is_open(&self) -> (b: bool)
        ensures
            b == self@.is_open,
    {
        self.is_open
    }

    pub fn title(&self) -> (t: String)
        ensures
            t@ == self@.title,
    {
        self.title.clone()
    }

    pub fn message(&self) -> (t: String)
        ensures
            t@ == self@.message,
    {
        self.message.clone()
    }

    pub fn set_title(&mut self, title: &str)
        ensures
            final(self)@ == (MessageView { title: title@, ..old(self)@ }),
    {
        let t = chars_of(title);
        self.title = string_from_chars(&t);
    }

    pub fn set_message(&mut self, message: &str)
        ensures
            final(self)@ == (MessageView { message: message@, ..old(self)@ }),
    {
        let m = chars_of(message);
        self.message = string_from_chars(&m);
    }

    /// Replaces the message, drops the copy feedback and opens the box.
    pub fn open_with_message(&mut self, message: &str)
        ensures
            final(self)@ == (MessageView {
                message: message@,
                copied_feedback: None,
                is_open: true,
                ..old(self)@
            }),
    {
        self.set_message(message);
        self.copied_feedback = None;
        self.open();
    }

    /// Whether the "copied!" feedback shows at time `now_ms`.
    pub fn shows_copied(&self, now_ms: u64) -> (b: bool)
        ensures
            b == (match self@.copied_feedback {
                Some(d) => now_ms < d,
                None => false,
            }),
    {
        match self.copied_feedback {
            Some(d) => now_ms < d,
            None => false,
        }
    }

    /// Takes the text waiting to be written to the clipboard.
    pub fn take_pending_copy(&mut self) -> (t: Option<String>)
        ensures
            match t {
                Some(s) => old(self)@.pending_copy == Some(s@),
                None => old(self)@.pending_copy is None,
            },
            final(self)@ == (MessageView { pending_copy: None, ..old(self)@ }),
    {
        let mut t: Option<String> = None;
        std::mem::swap(&mut t, &mut self.pending_copy);
        t
    }

    fn copy_message_to_clipboard(&mut self, now_ms: u64)
        requires
            now_ms + COPY_FEEDBACK_MS <= u64::MAX,
        ensures
            final(self)@ == spec_message_copy(old(self)@, now_ms),
    {
        if self.clipboard_available {
            self.pending_copy = Some(self.message.clone());
            self.copied_feedback = Some(now_ms + COPY_FEEDBACK_MS);
        }
    }

    /// Reacts to an event at time `now_ms`: Ctrl+C copies, Esc or a left
    /// click dismisses, other mouse events are swallowed while open.
    pub fn handle_smash_event(&mut self, event: &SmashEvent, now_ms: u64) -> (r: MessageEvent)
        requires
            now_ms + COPY_FEEDBACK_MS <= u64::MAX,
        ensures
            (r, final(self)@) == spec_message_handle(old(self)@, *event, now_ms),
    {
        if !self.is_open {
            return MessageEvent::Ignored;
        }
        match event {
            SmashEvent::Key(key) => {
                if key.kind == KeyEventKind::Release {
                    return MessageEvent::Ignored;
                }
                if key.modifiers.control && key.code == KeyCode::Char('c') {
                    self.copy_message_to_clipboard(now_ms);
                    return MessageEvent::Handled;
                }
                if key.code == KeyCode::Esc {
                    self.close();
                    MessageEvent::Dismissed
                } else {
                    MessageEvent::Ignored
                }
            },
            SmashEvent::Mouse(mouse) => {
                if mouse.kind == MouseEventKind::Down(MouseButton::Left) || mouse.kind
                    == MouseEventKind::Up(MouseButton::Left) {
                    self.close();
                    MessageEvent::Dismissed
                } else {
                    MessageEvent::Handled
                }
            },
            _ => MessageEvent::Ignored,
        }
    }
}

impl NavigatorFocusable for MessageState {
    open spec fn navigator_inv(&self) -> bool {
        true
    }

    /// A message box ignores navigator selection.
    open spec fn navigator_sync(v: MessageView, selected: bool) -> MessageView {
        v
    }

    open spec fn navigator_active(v: MessageView) -> bool {
        false
    }

    /// Anything the box does not ignore counts as handled.
    open spec fn navigator_handle(v: MessageView, event: SmashEvent, now: u64) -> (EventStatus, MessageView) {
        let (r, w) = spec_message_handle(v, event, now);
        (if r == MessageEvent::Ignored { EventStatus::Ignored } else { EventStatus::Handled }, w)
    }

    fn sync_navigator_focus(&mut self, selected: bool) {
    }

    fn is_navigator_active(&self) -> (b: bool) {
        false
    }

    fn handle_navigator_event(&mut self, event: &SmashEvent, now_ms: u64) -> (status: EventStatus) {
        match self.handle_smash_event(event, now_ms) {
            MessageEvent::Ignored => EventStatus::Ignored,
            _ => EventStatus::Handled,
        }
    }
}

/// A closed message box ignores every event and stays as it was.
pub proof fn law_closed_message_ignores_events(v: MessageView, event: SmashEvent, now: u64)
    requires
        !v.is_open,
    ensures
        spec_message_handle(v, event, now) == (MessageEvent::Ignored, v),
{
}

/// A dismissed message box is closed afterwards, and its copy feedback gone.
pub proof fn law_dismiss_closes_message(v: MessageView, event: SmashEvent, now: u64)
    ensures
        ({
            let (r, w) = spec_message_handle(v, event, now);
            r == MessageEvent::Dismissed ==> !w.is_open && w.copied_feedback is None
        }),
{
}

/// Copying with Ctrl+C queues exactly the message text for the clipboard
/// (when there is one) and leaves the box open.
pub proof fn law_copy_queues_message(v: MessageView, key: KeyEvent, now: u64)
    requires
        v.is_open,
        v.clipboard_available,
        key.kind != KeyEventKind::Release,
        key.modifiers.control,
        key.code == KeyCode::Char('c'),
    ensures
        ({
            let (r, w) = spec_message_handle(v, SmashEvent::Key(key), now);
            r == MessageEvent::Handled && w.is_open && w.pending_copy == Some(v.message)
        }),
{
}

} // verus!
