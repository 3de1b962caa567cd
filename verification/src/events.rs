use vstd::prelude::*;

verus! {

/// The state of the modifier keys held during a key or mouse event.
#[derive(Clone, Copy, Debug, PartialEq, Eq, Structural)]
pub struct KeyModifiers {
    pub shift: bool,
    pub control: bool,
    pub alt: bool,
    pub super_key: bool,
    pub hyper: bool,
    pub meta: bool,
}

impl KeyModifiers {
    /// No modifier held.
    pub fn none() -> (m: KeyModifiers)
        ensures
            !m.shift && !m.control && !m.alt && !m.super_key && !m.hyper && !m.meta,
    {
        KeyModifiers {
            shift: false,
            control: false,
            alt: false,
            super_key: false,
            hyper: false,
            meta: false,
        }
    }

    /// Only Shift held.
    pub fn shift() -> (m: KeyModifiers)
        ensures
            m.shift && !m.control && !m.alt && !m.super_key && !m.hyper && !m.meta,
    {
        KeyModifiers { shift: true, ..KeyModifiers::none() }
    }

    /// Only Control held.
    pub fn control() -> (m: KeyModifiers)
        ensures
            !m.shift && m.control && !m.alt && !m.super_key && !m.hyper && !m.meta,
    {
        KeyModifiers { control: true, ..KeyModifiers::none() }
    }

    /// Only Alt held.
    pub fn alt() -> (m: KeyModifiers)
        ensures
            !m.shift && !m.control && m.alt && !m.super_key && !m.hyper && !m.meta,
    {
        KeyModifiers { alt: true, ..KeyModifiers::none() }
    }

    /// True when no modifier is held.
    pub fn is_empty(&self) -> (b: bool)
        ensures
            b == (!self.shift && !self.control && !self.alt && !self.super_key && !self.hyper
                && !self.meta),
    {
        !self.shift && !self.control && !self.alt && !self.super_key && !self.hyper && !self.meta
    }
}

/// A key on the keyboard.
#[derive(Clone, Copy, Debug, PartialEq, Eq, Structural)]
pub enum KeyCode {
    Backspace,
    Enter,
    Left,
    Right,
    Up,
    Down,
    Home,
    End,
    PageUp,
    PageDown,
    Tab,
    BackTab,
    Delete,
    Insert,
    F(u8),
    Char(char),
    Null,
    Esc,
    CapsLock,
    ScrollLock,
    NumLock,
    PrintScreen,
    Pause,
    Menu,
    KeypadBegin,
    Media,
    Modifier,
}

/// Whether a key went down, repeated, or came up.
#[derive(Clone, Copy, Debug, PartialEq, Eq, Structural)]
pub enum KeyEventKind {
    Press,
    Repeat,
    Release,
}

/// A keyboard event.
#[derive(Clone, Copy, Debug, PartialEq, Eq, Structural)]
pub struct KeyEvent {
    pub code: KeyCode,
    pub modifiers: KeyModifiers,
    pub kind: KeyEventKind,
}

impl KeyEvent {
    /// A key press.
    pub fn new(code: KeyCode, modifiers: KeyModifiers) -> (e: KeyEvent)
        ensures
            e.code == code,
            e.modifiers == modifiers,
            e.kind == KeyEventKind::Press,
    {
        KeyEvent { code, modifiers, kind: KeyEventKind::Press }
    }

    /// A key event of the given kind.
    pub fn with_kind(code: KeyCode, modifiers: KeyModifiers, kind: KeyEventKind) -> (e: KeyEvent)
        ensures
            e.code == code,
            e.modifiers == modifiers,
            e.kind == kind,
    {
        KeyEvent { code, modifiers, kind }
    }
}

/// A mouse button.
#[derive(Clone, Copy, Debug, PartialEq, Eq, Structural)]
pub enum MouseButton {
    Left,
    Right,
    Middle,
}

/// What the mouse did.
#[derive(Clone, Copy, Debug, PartialEq, Eq, Structural)]
pub enum MouseEventKind {
    Down(MouseButton),
    Up(MouseButton),
    Drag(MouseButton),
    Moved,
    ScrollDown,
    ScrollUp,
    ScrollLeft,
    ScrollRight,
}

/// A mouse event at a terminal cell.
#[derive(Clone, Copy, Debug, PartialEq, Eq, Structural)]
pub struct MouseEvent {
    pub kind: MouseEventKind,
    pub column: u16,
    pub row: u16,
    pub modifiers: KeyModifiers,
}

/// An input event routed through the toolkit.
#[derive(Clone, Debug)]
pub enum SmashEvent {
    Key(KeyEvent),
    Mouse(MouseEvent),
    Resize(u16, u16),
    Custom(String),
}

/// Whether a handler consumed an event or let it bubble on.
#[derive(Clone, Copy, Debug, PartialEq, Eq, Structural)]
pub enum EventStatus {
    /// Continue bubbling.
    Ignored,
    /// Stop bubbling.
    Handled,
}

impl Default for EventStatus {
    fn default() -> (s: EventStatus)
        ensures
            s == EventStatus::Ignored,
    {
        EventStatus::Ignored
    }
}

/// A local event emitter for components: every subscriber receives each
/// event emitted after it subscribed, in the order of emission. A subscriber
/// is a numbered mailbox that it takes its events from.
pub struct EventEmitter<T> {
    mailboxes: Vec<Vec<T>>,
}

impl<T> View for EventEmitter<T> {
    type V = Seq<Seq<T>>;

    /// The events waiting for each subscriber, oldest first.
    closed spec fn view(&self) -> Seq<Seq<T>> {
        self.mailboxes@.map_values(|m: Vec<T>| m@)
    }
}

impl<T: Copy> EventEmitter<T> {
    /// An emitter with no subscribers.
    pub fn new() -> (e: Self)
        ensures
            e@ == Seq::<Seq<T>>::empty(),
    {
        let e = EventEmitter { mailboxes: Vec::new() };
        assert(e@ =~= Seq::<Seq<T>>::empty());
        e
    }

    /// Adds a subscriber with nothing waiting for it; its number is the count
    /// of earlier subscribers.
    pub fn subscribe(&mut self) -> (id: usize)
        ensures
            id == old(self)@.len(),
            final(self)@ == old(self)@.push(Seq::<T>::empty()),
    {
        let id = self.mailboxes.len();
        self.mailboxes.push(Vec::new());
        assert(self@ =~= old(self)@.push(Seq::<T>::empty()));
        id
    }

    /// Hands `event` to every subscriber.
    pub fn emit(&mut self, event: T)
        ensures
            final(self)@.len() == old(self)@.len(),
            forall|i: int| 0 <= i < old(self)@.len() ==> #[trigger] final(self)@[i] == old(self)@[i].push(event),
    {
        let ghost before = self.mailboxes@;
        let mut i: usize = 0;
        while i < self.mailboxes.len()
            invariant
                0 <= i <= self.mailboxes@.len(),
                self.mailboxes@.len() == before.len(),
                forall|j: int| 0 <= j < i ==> (#[trigger] self.mailboxes@[j])@ == before[j]@.push(event),
                forall|j: int| i <= j < self.mailboxes@.len() ==> (#[trigger] self.mailboxes@[j])@ == before[j]@,
            decreases self.mailboxes@.len() - i,
        {
            let mut mailbox: Vec<T> = Vec::new();
            std::mem::swap(&mut mailbox, &mut self.mailboxes[i]);
            mailbox.push(event);
            self.mailboxes.set(i, mailbox);
            i += 1;
        }
        proof {
            assert forall|j: int| 0 <= j < old(self)@.len() implies #[trigger] self@[j] == old(self)@[j].push(event) by {
                assert(self@[j] == self.mailboxes@[j]@);
                assert(old(self)@[j] == before[j]@);
            }
        }
    }

    /// Takes the events waiting for subscriber `id`, oldest first.
    pub fn take(&mut self, id: usize) -> (events: Vec<T>)
        requires
            id < old(self)@.len(),
        ensures
            events@ == old(self)@[id as int],
            final(self)@ == old(self)@.update(id as int, Seq::<T>::empty()),
    {
        let mut taken: Vec<T> = Vec::new();
        std::mem::swap(&mut taken, &mut self.mailboxes[id]);
        assert(self@ =~= old(self)@.update(id as int, Seq::<T>::empty()));
        taken
    }
}

/// A queue of pending events, handed out in the order they were emitted.
pub struct Dispatcher {
    events: Vec<SmashEvent>,
}

impl View for Dispatcher {
    type V = Seq<SmashEvent>;

    closed spec fn view(&self) -> Seq<SmashEvent> {
        self.events@
    }
}

/// Creates an empty dispatcher.
pub fn use_dispatcher() -> (d: Dispatcher)
    ensures
        d@ == Seq::<SmashEvent>::empty(),
{
    Dispatcher { events: Vec::new() }
}

impl Dispatcher {
    /// Queues an event behind the ones already pending.
    pub fn emit(&mut self, event: SmashEvent)
        ensures
            final(self)@ == old(self)@.push(event),
    {
        self.events.push(event);
    }

    /// Drops every pending event.
    pub fn clear(&mut self)
        ensures
            final(self)@ == Seq::<SmashEvent>::empty(),
    {
        self.events = Vec::new();
    }

    /// Takes every pending event, oldest first, and leaves the queue empty.
    pub fn drain(&mut self) -> (events: Vec<SmashEvent>)
        ensures
            events@ == old(self)@,
            final(self)@ == Seq::<SmashEvent>::empty(),
    {
        let mut taken: Vec<SmashEvent> = Vec::new();
        std::mem::swap(&mut taken, &mut self.events);
        taken
    }

    /// Number of pending events.
    pub fn len(&self) -> (n: usize)
        ensures
            n == self@.len(),
    {
        self.events.len()
    }
}


/// `answers` are what `f` may have answered for each of `events`, and
/// `handled` tells whether one of them is `Handled`.
pub open spec fn dispatch_answers<F: FnMut(&SmashEvent) -> EventStatus>(
    f: F,
    events: Seq<SmashEvent>,
    answers: Seq<EventStatus>,
    handled: bool,
) -> bool {
    &&& answers.len() == events.len()
    &&& forall|j: int| 0 <= j < answers.len() ==> call_ensures(f, (&events[j],), #[trigger] answers[j])
    &&& handled == exists|j: int| 0 <= j < answers.len() && #[trigger] answers[j] == EventStatus::Handled
}

impl Dispatcher {
    /// Takes every pending event, oldest first, hands each to `f`, and tells
    /// whether `f` answered `Handled` for any of them. The queue is left
    /// empty.
    pub fn dispatch<F: FnMut(&SmashEvent) -> EventStatus>(&mut self, mut f: F) -> (handled: bool)
        requires
            forall|e: &SmashEvent| call_requires(f, (e,)),
        ensures
            final(self)@ == Seq::<SmashEvent>::empty(),
            exists|answers: Seq<EventStatus>| #[trigger] dispatch_answers(f, old(self)@, answers, handled),
    {
        let ghost f0 = f;
        let events = self.drain();
        let mut handled = false;
        let mut i: usize = 0;
        let ghost mut answers: Seq<EventStatus> = Seq::empty();
        while i < events.len()
            invariant
                0 <= i <= events@.len(),
                f == f0,
                forall|e: &SmashEvent| call_requires(f, (e,)),
                answers.len() == i,
                forall|j: int| 0 <= j < i ==> call_ensures(f, (&events@[j],), #[trigger] answers[j]),
                handled == exists|j: int| 0 <= j < i && #[trigger] answers[j] == EventStatus::Handled,
            decreases events@.len() - i,
        {
            let answer = f(&events[i]);
            proof {
                let prev = answers;
                answers = answers.push(answer);
                assert(answers[i as int] == answer);
                assert(forall|j: int| 0 <= j < i ==> answers[j] == prev[j]);
            }
            if answer == EventStatus::Handled {
                handled = true;
            }
            i += 1;
        }
        assert(dispatch_answers(f, events@, answers, handled));
        assert(events@ == old(self)@);
        handled
    }
    /// The same as `dispatch`.
    pub fn on<F: FnMut(&SmashEvent) -> EventStatus>(&mut self, f: F) -> (handled: bool)
        requires
            forall|e: &SmashEvent| call_requires(f, (e,)),
        ensures
            final(self)@ == Seq::<SmashEvent>::empty(),
            exists|answers: Seq<EventStatus>| #[trigger] dispatch_answers(f, old(self)@, answers, handled),
    {
        self.dispatch(f)
    }
}

} // verus!
