use crate::events::{
    EventStatus, KeyCode, KeyEvent, KeyEventKind, MouseButton, MouseEvent, MouseEventKind,
    SmashEvent,
};
use crate::geometry::{point_in_rect, sat_add, spec_contains, Rect};
use crate::reactive::NavigatorFocusable;
use crate::text::{
    char_width, chars_of, display_width, join_newline, lemma_display_width_prefix, split_lines,
    str_lines, string_from_chars,
};
use vstd::prelude::*;

verus! {

/// How long, in milliseconds, a keyboard activation keeps a button drawn as
/// pressed when no key release arrives.
pub const KEYBOARD_PRESS_FEEDBACK_MS: u64 = 120;

/// What a button reports to whoever listens to it.
#[derive(Clone, Copy, Debug, PartialEq, Eq, Structural)]
pub enum ButtonEvent {
    Click,
    Hover(bool),
    Focus(bool),
}

/// The visual weight of a button.
#[derive(Clone, Copy, Debug, PartialEq, Eq, Structural)]
pub enum ButtonVariant {
    Primary,
    Secondary,
    Outline,
    Danger,
}

impl Default for ButtonVariant {
    fn default() -> (v: ButtonVariant)
        ensures
            v == ButtonVariant::Outline,
    {
        ButtonVariant::Outline
    }
}

/// The colour roles of a theme that components are drawn with.
#[derive(Clone, Copy, Debug, PartialEq, Eq, Structural)]
pub enum ThemeRole {
    Primary,
    OnPrimary,
    PrimaryContainer,
    OnPrimaryContainer,
    Secondary,
    OnSecondary,
    SecondaryContainer,
    OnSecondaryContainer,
    Error,
    OnError,
    ErrorContainer,
    OnErrorContainer,
    TertiaryContainer,
    OnTertiaryContainer,
    Surface,
    OnSurface,
    SurfaceVariant,
    OnSurfaceVariant,
    Outline,
    OutlineVariant,
}

/// How a button is drawn: the roles of its label and its fill, and whether
/// the label is bold.
#[derive(Clone, Copy, Debug, PartialEq, Eq, Structural)]
pub struct ButtonLook {
    pub fg: ThemeRole,
    pub bg: ThemeRole,
    pub bold: bool,
}

/// The look of a button of `variant`: a soft fill at rest; the variant's
/// container colours, bold, when hovered or focused; the variant's strong
/// colour, bold, while pressed (the quiet variant keeps a plain fill). Pressed
/// wins over focused, which wins over hovered.
pub open spec fn spec_button_look(variant: ButtonVariant, pressed: bool, focused: bool, hovered: bool) -> ButtonLook {
    let (rest_fg, raised_fg, raised_bg, pressed_fg, pressed_bg) = match variant {
        ButtonVariant::Primary => (ThemeRole::Primary, ThemeRole::OnPrimaryContainer, ThemeRole::PrimaryContainer,
            ThemeRole::OnPrimary, ThemeRole::Primary),
        ButtonVariant::Secondary => (ThemeRole::Secondary, ThemeRole::OnSecondaryContainer,
            ThemeRole::SecondaryContainer, ThemeRole::OnSecondary, ThemeRole::Secondary),
        ButtonVariant::Outline => (ThemeRole::OnSurfaceVariant, ThemeRole::OnSurface, ThemeRole::OutlineVariant,
            ThemeRole::OnSurface, ThemeRole::SurfaceVariant),
        ButtonVariant::Danger => (ThemeRole::Error, ThemeRole::OnErrorContainer, ThemeRole::ErrorContainer,
            ThemeRole::OnError, ThemeRole::Error),
    };
    if pressed {
        ButtonLook { fg: pressed_fg, bg: pressed_bg, bold: true }
    } else if focused || hovered {
        ButtonLook { fg: raised_fg, bg: raised_bg, bold: true }
    } else {
        ButtonLook { fg: rest_fg, bg: ThemeRole::SurfaceVariant, bold: false }
    }
}

/// Everything a button remembers.
pub struct ButtonView {
    pub variant: ButtonVariant,
    pub focused: bool,
    pub hovered: bool,
    pub pressed: bool,
    pub label: Seq<char>,
    pub min_height: u16,
    pub max_height: Option<u16>,
    /// When the keyboard press feedback ends, in milliseconds.
    pub press_deadline: Option<u64>,
    /// Events reported and not yet taken, oldest first.
    pub events: Seq<ButtonEvent>,
    /// The surface the button was last placed on; mouse events are tested
    /// against it.
    pub area: Rect,
}

/// A clickable button that reacts to Enter while focused and to the mouse over
/// its area.
pub struct ButtonState {
    variant: ButtonVariant,
    focused: bool,
    hovered: bool,
    pressed: bool,
    label: String,
    min_height: u16,
    max_height: Option<u16>,
    press_deadline: Option<u64>,
    events: Vec<ButtonEvent>,
    area: Rect,
}

impl View for ButtonState {
    type V = ButtonView;

    closed spec fn view(&self) -> ButtonView {
        ButtonView {
            variant: self.variant,
            focused: self.focused,
            hovered: self.hovered,
            pressed: self.pressed,
            label: self.label@,
            min_height: self.min_height,
            max_height: self.max_height,
            press_deadline: self.press_deadline,
            events: self.events@,
            area: self.area,
        }
    }
}

/// A button with the outline variant.
pub fn use_button(label: &str) -> (b: ButtonState)
    ensures
        b@ == fresh_button(label@, ButtonVariant::Outline),
{
    use_button_variant(label, ButtonVariant::Outline)
}

/// A button at rest: not focused, hovered or pressed, with no height bounds.
pub open spec fn fresh_button(label: Seq<char>, variant: ButtonVariant) -> ButtonView {
    ButtonView {
        variant,
        focused: false,
        hovered: false,
        pressed: false,
        label,
        min_height: 0,
        max_height: None,
        press_deadline: None,
        events: Seq::empty(),
        area: Rect { x: 0, y: 0, width: 0, height: 0 },
    }
}

/// A button of the given variant.
pub fn use_button_variant(label: &str, variant: ButtonVariant) -> (b: ButtonState)
    ensures
        b@ == fresh_button(label@, variant),
{
    let chars = chars_of(label);
    ButtonState {
        variant,
        focused: false,
        hovered: false,
        pressed: false,
        label: string_from_chars(&chars),
        min_height: 0,
        max_height: None,
        press_deadline: None,
        events: Vec::new(),
        area: Rect { x: 0, y: 0, width: 0, height: 0 },
    }
}

// ---------------------------------------------------------------------------
// State changes, as the spec functions the methods are held to
// ---------------------------------------------------------------------------

/// No longer pressed, and no keyboard feedback pending.
pub open spec fn spec_clear_pressed(v: ButtonView) -> ButtonView {
    ButtonView { pressed: false, press_deadline: None, ..v }
}

/// Focuses or blurs; blurring lets go of a press, and a change of focus is
/// reported.
pub open spec fn spec_set_focus(v: ButtonView, focused: bool) -> ButtonView {
    let v1 = if !focused && v.pressed { spec_clear_pressed(v) } else { v };
    if v1.focused != focused {
        ButtonView { focused, events: v1.events.push(ButtonEvent::Focus(focused)), ..v1 }
    } else {
        v1
    }
}

/// The keyboard part of event handling: Enter presses (and clicks), repeats
/// extend the feedback, releases let go. Ctrl+arrows are left to the parent.
pub open spec fn spec_button_key(v: ButtonView, key: KeyEvent, now: u64) -> (EventStatus, ButtonView) {
    let arrow = key.code == KeyCode::Left || key.code == KeyCode::Right || key.code == KeyCode::Up
        || key.code == KeyCode::Down;
    if !v.focused || (key.modifiers.control && arrow) || key.code != KeyCode::Enter {
        (EventStatus::Ignored, v)
    } else {
        match key.kind {
            KeyEventKind::Press => (
                EventStatus::Handled,
                ButtonView {
                    pressed: true,
                    press_deadline: Some((now + KEYBOARD_PRESS_FEEDBACK_MS) as u64),
                    events: v.events.push(ButtonEvent::Click),
                    ..v
                },
            ),
            KeyEventKind::Repeat => (
                EventStatus::Handled,
                ButtonView { press_deadline: Some((now + KEYBOARD_PRESS_FEEDBACK_MS) as u64), ..v },
            ),
            KeyEventKind::Release => (EventStatus::Handled, spec_clear_pressed(v)),
        }
    }
}

/// The mouse part of event handling: hover tracking over the button's area,
/// a left press inside presses, a left release inside while pressed clicks,
/// and leaving the area while pressed blurs.
pub open spec fn spec_button_mouse(v: ButtonView, mouse: MouseEvent) -> (EventStatus, ButtonView) {
    let over = spec_contains(v.area, mouse.column, mouse.row);
    let v1 = if over != v.hovered {
        let h = ButtonView { hovered: over, events: v.events.push(ButtonEvent::Hover(over)), ..v };
        if !over && !h.pressed {
            spec_set_focus(h, false)
        } else {
            h
        }
    } else {
        v
    };
    if over {
        if mouse.kind == MouseEventKind::Down(MouseButton::Left) {
            let f = spec_set_focus(v1, true);
            (EventStatus::Handled, ButtonView { pressed: true, press_deadline: None, ..f })
        } else if mouse.kind == MouseEventKind::Up(MouseButton::Left) && v1.pressed {
            let c = spec_clear_pressed(v1);
            (EventStatus::Handled, ButtonView { events: c.events.push(ButtonEvent::Click), ..c })
        } else {
            (EventStatus::Ignored, v1)
        }
    } else if v1.pressed {
        (EventStatus::Ignored, spec_set_focus(v1, false))
    } else {
        (EventStatus::Ignored, v1)
    }
}

/// What a button does with a toolkit event at time `now` (milliseconds).
pub open spec fn spec_button_handle(v: ButtonView, event: SmashEvent, now: u64) -> (EventStatus, ButtonView) {
    match event {
        SmashEvent::Key(key) => spec_button_key(v, key, now),
        SmashEvent::Mouse(mouse) => spec_button_mouse(v, mouse),
        _ => (EventStatus::Ignored, v),
    }
}

/// The height a button's label asks for: one row per label line, within the
/// minimum and maximum heights, but never less than the label needs to fit
/// nor less than one row.
pub open spec fn spec_desired_height(v: ButtonView) -> u16 {
    let lines = str_lines(v.label).len();
    let intrinsic = (if lines > 1 { lines } else { 1 }) as u16;
    let h = if intrinsic >= v.min_height { intrinsic } else { v.min_height };
    let h2 = match v.max_height {
        Some(m) => {
            let cap = if m >= intrinsic { m } else { intrinsic };
            if h <= cap { h } else { cap }
        },
        None => h,
    };
    if h2 >= 1 { h2 } else { 1 }
}

/// The rows of `area` a button occupies: its desired height, centred
/// vertically (an empty area is kept as it is; the top row stops at the edge
/// of the cell grid).
pub open spec fn spec_layout_area(v: ButtonView, area: Rect) -> Rect {
    if area.width == 0 || area.height == 0 {
        area
    } else {
        let d = spec_desired_height(v);
        let height = if d <= area.height { d } else { area.height };
        Rect {
            x: area.x,
            y: sat_add(area.y as int, (area.height - height) / 2) as u16,
            width: area.width,
            height,
        }
    }
}

/// Columns of padding on each side of a button's label.
pub const BUTTON_PADDING_X: u16 = 1;

/// The widest label line in display columns, counting at most 65536.
pub open spec fn max_line_width(lines: Seq<Seq<char>>) -> int
    decreases lines.len(),
{
    if lines.len() == 0 {
        0
    } else {
        let rest = max_line_width(lines.drop_last());
        let w = display_width(lines.last());
        let w = if w <= 65536 { w } else { 65536 };
        if w >= rest { w } else { rest }
    }
}

/// The width of the label as drawn: its widest line, and the four columns of
/// the `[ ]` or `> <` marks while focused or pressed.
pub open spec fn spec_label_width(v: ButtonView) -> int {
    max_line_width(str_lines(v.label)) + (if v.focused || v.pressed { 4int } else { 0 })
}

/// The filled surface of a button placed in `area`: as wide as its label
/// with a column of padding on each side (at most the area's width), centred
/// horizontally; an empty area is kept as it is.
pub open spec fn spec_surface_area(v: ButtonView, area: Rect) -> Rect {
    if area.width == 0 || area.height == 0 {
        area
    } else {
        let want = spec_label_width(v) + 2 * BUTTON_PADDING_X;
        let width = if want <= area.width { want } else { area.width as int };
        Rect {
            x: sat_add(area.x as int, (area.width - width) / 2) as u16,
            y: area.y,
            width: width as u16,
            height: area.height,
        }
    }
}

impl ButtonState {
    fn clear_pressed(&mut self)
        ensures
            final(self)@ == spec_clear_pressed(old(self)@),
    {
        self.pressed = false;
        self.press_deadline = None;
    }

    fn set_focus(&mut self, focused: bool)
        ensures
            final(self)@ == spec_set_focus(old(self)@, focused),
    {
        if !focused && self.pressed {
            self.clear_pressed();
        }
        if self.focused != focused {
            self.focused = focused;
            self.events.push(ButtonEvent::Focus(focused));
        }
    }

    /// Focuses the button, reporting the change.
    pub fn focus(&mut self)
        ensures
            final(self)@ == spec_set_focus(old(self)@, true),
    {
        self.set_focus(true);
    }

    /// Blurs the button, letting go of a press and reporting the change.
    pub fn blur(&mut self)
        ensures
            final(self)@ == spec_set_focus(old(self)@, false),
    {
        self.set_focus(false);
    }

    pub fn variant(&self) -> (v: ButtonVariant)
        ensures
            v == self@.variant,
    {
        self.variant
    }

    pub fn set_variant(&mut self, variant: ButtonVariant)
        ensures
            final(self)@ == (ButtonView { variant, ..old(self)@ }),
    {
        self.variant = variant;
    }

    pub fn is_focused(&self) -> (b: bool)
        ensures
            b == self@.focused,
    {
        self.focused
    }

    pub fn is_hovered(&self) -> (b: bool)
        ensures
            b == self@.hovered,
    {
        self.hovered
    }

    pub fn is_pressed(&self) -> (b: bool)
        ensures
            b == self@.pressed,
    {
        self.pressed
    }

    /// Draws the button as pressed or not, without reporting anything.
    pub fn set_pressed(&mut self, pressed: bool)
        ensures
            final(self)@ == (ButtonView { pressed, ..old(self)@ }),
    {
        self.pressed = pressed;
    }

    pub fn label(&self) -> (l: String)
        ensures
            l@ == self@.label,
    {
        self.label.clone()
    }

    pub fn set_label(&mut self, label: &str)
        ensures
            final(self)@ == (ButtonView { label: label@, ..old(self)@ }),
    {
        let chars = chars_of(label);
        self.label = string_from_chars(&chars);
    }

    pub fn set_area(&mut self, area: Rect)
        ensures
            final(self)@ == (ButtonView { area, ..old(self)@ }),
    {
        self.area = area;
    }

    pub fn area(&self) -> (a: Rect)
        ensures
            a == self@.area,
    {
        self.area
    }

    /// Sets the minimum height, raising the maximum to it when it was lower.
    pub fn set_min_height(&mut self, min_height: u16)
        ensures
            final(self)@ == (ButtonView {
                min_height,
                max_height: match old(self)@.max_height {
                    Some(m) => Some(if m < min_height { min_height } else { m }),
                    None => None,
                },
                ..old(self)@
            }),
    {
        self.min_height = min_height;
        if let Some(max_height) = self.max_height {
            if max_height < min_height {
                self.max_height = Some(min_height);
            }
        }
    }

    /// Sets the maximum height, never below the minimum.
    pub fn set_max_height(&mut self, max_height: Option<u16>)
        ensures
            final(self)@ == (ButtonView {
                max_height: match max_height {
                    Some(m) => Some(if m >= old(self)@.min_height { m } else { old(self)@.min_height }),
                    None => None,
                },
                ..old(self)@
            }),
    {
        self.max_height = match max_height {
            Some(m) => Some(if m >= self.min_height { m } else { self.min_height }),
            None => None,
        };
    }

    pub fn clear_max_height(&mut self)
        ensures
            final(self)@ == (ButtonView { max_height: None, ..old(self)@ }),
    {
        self.max_height = None;
    }

    /// The height the label asks for.
    pub fn desired_height(&self) -> (h: u16)
        ensures
            h == spec_desired_height(self@),
    {
        let lines = split_lines(self.label.as_str());
        let count = lines.len();
        proof {
            assert(lines.deep_view().len() == lines@.len());
        }
        let intrinsic: u16 = if count > 1 {
            count as u16
        } else {
            1
        };
        let mut height: u16 = if intrinsic >= self.min_height {
            intrinsic
        } else {
            self.min_height
        };
        if let Some(m) = self.max_height {
            let cap: u16 = if m >= intrinsic {
                m
            } else {
                intrinsic
            };
            if height > cap {
                height = cap;
            }
        }
        if height >= 1 {
            height
        } else {
            1
        }
    }

    /// The rows of `area` the button occupies.
    pub fn layout_area(&self, area: Rect) -> (r: Rect)
        ensures
            r == spec_layout_area(self@, area),
    {
        if area.width == 0 || area.height == 0 {
            return area;
        }
        let d = self.desired_height();
        let height = if d <= area.height {
            d
        } else {
            area.height
        };
        Rect { x: area.x, y: area.y.saturating_add((area.height - height) / 2), width: area.width, height }
    }

    /// The widest label line, in display columns, counting at most 65536.
    fn label_lines_width(&self) -> (w: u64)
        ensures
            w == max_line_width(str_lines(self@.label)),
            w <= 65536,
    {
        let lines = split_lines(self.label.as_str());
        let mut best: u64 = 0;
        let mut i: usize = 0;
        while i < lines.len()
            invariant
                0 <= i <= lines@.len(),
                lines.deep_view() == str_lines(self@.label),
                best == max_line_width(lines.deep_view().take(i as int)),
                best <= 65536,
            decreases lines@.len() - i,
        {
            let line = &lines[i];
            assert(lines.deep_view()[i as int] == line@);
            let mut w: u64 = 0;
            let mut j: usize = 0;
            while j < line.len() && w < 65536
                invariant
                    0 <= j <= line@.len(),
                    w == display_width(line@.take(j as int)),
                    w < 65536 + 256,
                decreases line@.len() - j,
            {
                proof {
                    assert(line@.take(j + 1).drop_last() =~= line@.take(j as int));
                }
                match char_width(line[j]) {
                    Some(n) => {
                        w = w + n as u64;
                    },
                    None => {},
                }
                j += 1;
            }
            proof {
                lemma_display_width_prefix(line@, j as int);
                if j == line@.len() {
                    assert(line@.take(j as int) =~= line@);
                }
                assert(lines.deep_view().take(i + 1).drop_last() =~= lines.deep_view().take(i as int));
            }
            let capped = if w <= 65536 { w } else { 65536 };
            if capped >= best {
                best = capped;
            }
            i += 1;
        }
        proof {
            assert(lines.deep_view().take(i as int) =~= lines.deep_view());
        }
        best
    }

    /// The filled surface of the button placed in `area`.
    pub fn surface_area(&self, area: Rect) -> (r: Rect)
        ensures
            r == spec_surface_area(self@, area),
    {
        if area.width == 0 || area.height == 0 {
            return area;
        }
        let label = self.label_lines_width() + if self.focused || self.pressed { 4 } else { 0 };
        let want = label + 2 * BUTTON_PADDING_X as u64;
        let width: u16 = if want <= area.width as u64 { want as u16 } else { area.width };
        Rect {
            x: area.x.saturating_add((area.width - width) / 2),
            y: area.y,
            width,
            height: area.height,
        }
    }

    /// Focuses the button when the navigator selects it, blurs it otherwise.
    pub fn sync_navigator_focus_button(&mut self, selected: bool)
        ensures
            final(self)@ == spec_set_focus(old(self)@, selected),
    {
        self.set_focus(selected);
    }

    /// Ends the keyboard press feedback once its deadline has passed.
    pub fn sync_keyboard_press_feedback(&mut self, now_ms: u64)
        ensures
            final(self)@ == spec_sync_press_feedback(old(self)@, now_ms),
    {
        if let Some(deadline) = self.press_deadline {
            if now_ms >= deadline {
                self.clear_pressed();
            }
        }
    }

    /// Takes the events reported since the last call, oldest first.
    pub fn take_events(&mut self) -> (events: Vec<ButtonEvent>)
        ensures
            events@ == old(self)@.events,
            final(self)@ == (ButtonView { events: Seq::empty(), ..old(self)@ }),
    {
        let mut taken: Vec<ButtonEvent> = Vec::new();
        std::mem::swap(&mut taken, &mut self.events);
        taken
    }

    fn handle_key(&mut self, key: &KeyEvent, now_ms: u64) -> (status: EventStatus)
        requires
            now_ms + KEYBOARD_PRESS_FEEDBACK_MS <= u64::MAX,
        ensures
            (status, final(self)@) == spec_button_key(old(self)@, *key, now_ms),
    {
        if !self.focused {
            return EventStatus::Ignored;
        }
        let arrow = key.code == KeyCode::Left || key.code == KeyCode::Right || key.code
            == KeyCode::Up || key.code == KeyCode::Down;
        if key.modifiers.control && arrow {
            return EventStatus::Ignored;
        }
        if key.code != KeyCode::Enter {
            return EventStatus::Ignored;
        }
        match key.kind {
            KeyEventKind::Press => {
                self.pressed = true;
                self.press_deadline = Some(now_ms + KEYBOARD_PRESS_FEEDBACK_MS);
                self.events.push(ButtonEvent::Click);
                EventStatus::Handled
            },
            KeyEventKind::Repeat => {
                self.press_deadline = Some(now_ms + KEYBOARD_PRESS_FEEDBACK_MS);
                EventStatus::Handled
            },
            KeyEventKind::Release => {
                self.clear_pressed();
                EventStatus::Handled
            },
        }
    }

    fn handle_mouse(&mut self, mouse: &MouseEvent) -> (status: EventStatus)
        ensures
            (status, final(self)@) == spec_button_mouse(old(self)@, *mouse),
    {
        let over = point_in_rect(mouse.column, mouse.row, self.area);
        if over != self.hovered {
            self.hovered = over;
            self.events.push(ButtonEvent::Hover(over));
            if !over && !self.pressed {
                self.blur();
            }
        }
        if over {
            if mouse.kind == MouseEventKind::Down(MouseButton::Left) {
                self.focus();
                self.pressed = true;
                self.press_deadline = None;
                return EventStatus::Handled;
            }
            if mouse.kind == MouseEventKind::Up(MouseButton::Left) && self.pressed {
                self.clear_pressed();
                self.events.push(ButtonEvent::Click);
                return EventStatus::Handled;
            }
        } else if self.pressed {
            self.blur();
        }
        EventStatus::Ignored
    }

    /// Reacts to a key or mouse event at time `now_ms` (milliseconds on any
    /// monotonic clock); clicks, hovers and focus changes are reported through
    /// `take_events`.
    pub fn handle_event(&mut self, event: &SmashEvent, now_ms: u64) -> (status: EventStatus)
        requires
            now_ms + KEYBOARD_PRESS_FEEDBACK_MS <= u64::MAX,
        ensures
            (status, final(self)@) == spec_button_handle(old(self)@, *event, now_ms),
    {
        match event {
            SmashEvent::Key(key) => self.handle_key(key, now_ms),
            SmashEvent::Mouse(mouse) => self.handle_mouse(mouse),
            _ => EventStatus::Ignored,
        }
    }

    /// Places the button in `area` and then reacts to the event.
    pub fn handle_smash_event(&mut self, event: &SmashEvent, area: Rect, now_ms: u64) -> (status: EventStatus)
        requires
            now_ms + KEYBOARD_PRESS_FEEDBACK_MS <= u64::MAX,
        ensures
            (status, final(self)@) == spec_button_handle(
                ButtonView { area: spec_surface_area(old(self)@, spec_layout_area(old(self)@, area)), ..old(self)@ },
                *event,
                now_ms,
            ),
    {
        let placed = self.layout_area(area);
        let surface = self.surface_area(placed);
        self.area = surface;
        self.handle_event(event, now_ms)
    }

    /// How the button is drawn in its current state.
    pub fn look(&self) -> (l: ButtonLook)
        ensures
            l == spec_button_look(self@.variant, self@.pressed, self@.focused, self@.hovered),
    {
        let (rest_fg, raised_fg, raised_bg, pressed_fg, pressed_bg) = match self.variant {
            ButtonVariant::Primary => (ThemeRole::Primary, ThemeRole::OnPrimaryContainer, ThemeRole::PrimaryContainer,
                ThemeRole::OnPrimary, ThemeRole::Primary),
            ButtonVariant::Secondary => (ThemeRole::Secondary, ThemeRole::OnSecondaryContainer,
                ThemeRole::SecondaryContainer, ThemeRole::OnSecondary, ThemeRole::Secondary),
            ButtonVariant::Outline => (ThemeRole::OnSurfaceVariant, ThemeRole::OnSurface, ThemeRole::OutlineVariant,
                ThemeRole::OnSurface, ThemeRole::SurfaceVariant),
            ButtonVariant::Danger => (ThemeRole::Error, ThemeRole::OnErrorContainer, ThemeRole::ErrorContainer,
                ThemeRole::OnError, ThemeRole::Error),
        };
        if self.pressed {
            ButtonLook { fg: pressed_fg, bg: pressed_bg, bold: true }
        } else if self.focused || self.hovered {
            ButtonLook { fg: raised_fg, bg: raised_bg, bold: true }
        } else {
            ButtonLook { fg: rest_fg, bg: ThemeRole::SurfaceVariant, bold: false }
        }
    }

    /// Places the button in `area`, as drawing it does: the surface becomes
    /// the area mouse events are tested against.
    pub fn place(&mut self, area: Rect) -> (surface: Rect)
        ensures
            surface == spec_surface_area(old(self)@, spec_layout_area(old(self)@, area)),
            final(self)@ == (ButtonView { area: surface, ..old(self)@ }),
    {
        let placed = self.layout_area(area);
        let surface = self.surface_area(placed);
        self.area = surface;
        surface
    }
}


/// A button at time `now`: its keyboard press feedback ends once the
/// deadline has passed.
pub open spec fn spec_sync_press_feedback(v: ButtonView, now: u64) -> ButtonView {
    match v.press_deadline {
        Some(d) => if now >= d { spec_clear_pressed(v) } else { v },
        None => v,
    }
}

/// A button drawn in `area` at time `now`: feedback expired when due, and
/// the surface it fills recorded as the area mouse events are tested
/// against.
pub open spec fn spec_draw_button(v: ButtonView, area: Rect, now: u64) -> ButtonView {
    let s = spec_sync_press_feedback(v, now);
    ButtonView { area: spec_surface_area(s, spec_layout_area(s, area)), ..s }
}

/// One label line as drawn: `> line <` while pressed, `[ line ]` while
/// focused, plain otherwise.
pub open spec fn decorate_line(line: Seq<char>, focused: bool, pressed: bool) -> Seq<char> {
    if pressed {
        seq!['>', ' '] + line + seq![' ', '<']
    } else if focused {
        seq!['[', ' '] + line + seq![' ', ']']
    } else {
        line
    }
}

/// A button label as drawn: every line decorated, joined by newlines.
pub open spec fn spec_decorate_button_label(label: Seq<char>, focused: bool, pressed: bool) -> Seq<char> {
    join_newline(str_lines(label).map_values(|l: Seq<char>| decorate_line(l, focused, pressed)))
}

/// A button label as drawn: every line decorated, joined by newlines.
pub fn decorate_button_label(label: &str, focused: bool, pressed: bool) -> (s: String)
    ensures
        s@ == spec_decorate_button_label(label@, focused, pressed),
{
    let lines = split_lines(label);
    let ghost all = str_lines(label@).map_values(|l: Seq<char>| decorate_line(l, focused, pressed));
    let mut out: Vec<char> = Vec::new();
    let mut i: usize = 0;
    while i < lines.len()
        invariant
            0 <= i <= lines@.len(),
            lines.deep_view() == str_lines(label@),
            all == str_lines(label@).map_values(|l: Seq<char>| decorate_line(l, focused, pressed)),
            all.len() == lines@.len(),
            out@ == join_newline(all.take(i as int)),
        decreases lines@.len() - i,
    {
        assert(lines.deep_view()[i as int] == lines@[i as int]@);
        let ghost prev = out@;
        if i > 0 {
            out.push('\n');
        }
        if pressed {
            out.push('>');
            out.push(' ');
        } else if focused {
            out.push('[');
            out.push(' ');
        }
        let line = &lines[i];
        let mut j: usize = 0;
        let ghost mid = out@;
        while j < line.len()
            invariant
                0 <= j <= line@.len(),
                out@ == mid + line@.take(j as int),
            decreases line@.len() - j,
        {
            out.push(line[j]);
            j += 1;
            assert(out@ =~= mid + line@.take(j as int));
        }
        assert(line@.take(j as int) =~= line@);
        if pressed {
            out.push(' ');
            out.push('<');
        } else if focused {
            out.push(' ');
            out.push(']');
        }
        proof {
            let t = all.take(i + 1);
            assert(t.drop_last() =~= all.take(i as int));
            assert(t.last() == decorate_line(line@, focused, pressed));
            if i == 0 {
                assert(out@ =~= t[0]);
            } else {
                assert(out@ =~= prev + seq!['\n'] + t.last());
            }
        }
        i += 1;
    }
    proof {
        assert(all.take(i as int) =~= all);
    }
    string_from_chars(&out)
}

impl NavigatorFocusable for ButtonState {
    open spec fn navigator_inv(&self) -> bool {
        true
    }

    /// A button is focused exactly while the navigator selects it.
    open spec fn navigator_sync(v: ButtonView, selected: bool) -> ButtonView {
        spec_set_focus(v, selected)
    }

    /// A button has no separate active mode.
    open spec fn navigator_active(v: ButtonView) -> bool {
        false
    }

    open spec fn navigator_handle(v: ButtonView, event: SmashEvent, now: u64) -> (EventStatus, ButtonView) {
        spec_button_handle(v, event, now)
    }

    fn sync_navigator_focus(&mut self, selected: bool) {
        if selected {
            self.focus();
        } else {
            self.blur();
        }
    }

    fn is_navigator_active(&self) -> (b: bool) {
        false
    }

    fn handle_navigator_event(&mut self, event: &SmashEvent, now_ms: u64) -> (status: EventStatus) {
        self.handle_event(event, now_ms)
    }
}

/// Whether a click was reported.
pub fn contains_click(events: &Vec<ButtonEvent>) -> (b: bool)
    ensures
        b == events@.contains(ButtonEvent::Click),
{
    let mut i: usize = 0;
    while i < events.len()
        invariant
            0 <= i <= events@.len(),
            forall|j: int| 0 <= j < i ==> events@[j] != ButtonEvent::Click,
        decreases events@.len() - i,
    {
        if events[i] == ButtonEvent::Click {
            return true;
        }
        i += 1;
    }
    false
}


/// On a focused button, an Enter press followed by its release reports
/// exactly one click, and leaves the button focused and no longer pressed.
pub proof fn law_enter_press_then_release_clicks_once(v: ButtonView, m: crate::events::KeyModifiers, now1: u64, now2: u64)
    requires
        v.focused,
        now1 + KEYBOARD_PRESS_FEEDBACK_MS <= u64::MAX,
    ensures
        ({
            let press = KeyEvent { code: KeyCode::Enter, modifiers: m, kind: KeyEventKind::Press };
            let release = KeyEvent { code: KeyCode::Enter, modifiers: m, kind: KeyEventKind::Release };
            let (s1, a) = spec_button_key(v, press, now1);
            let (s2, b) = spec_button_key(a, release, now2);
            &&& s1 == EventStatus::Handled && s2 == EventStatus::Handled
            &&& a.pressed
            &&& b.focused && !b.pressed && b.press_deadline is None
            &&& b.events == v.events.push(ButtonEvent::Click)
        }),
{
}

/// A left press and release over a button report exactly one click and leave
/// the button focused, hovered and not pressed.
pub proof fn law_mouse_press_then_release_clicks_once(v: ButtonView, column: u16, row: u16, m: crate::events::KeyModifiers)
    requires
        spec_contains(v.area, column, row),
    ensures
        ({
            let down = MouseEvent { kind: MouseEventKind::Down(MouseButton::Left), column, row, modifiers: m };
            let up = MouseEvent { kind: MouseEventKind::Up(MouseButton::Left), column, row, modifiers: m };
            let (s1, a) = spec_button_mouse(v, down);
            let (s2, b) = spec_button_mouse(a, up);
            &&& s1 == EventStatus::Handled && s2 == EventStatus::Handled
            &&& b.focused && b.hovered && !b.pressed
            &&& b.events.len() > v.events.len()
            &&& b.events.last() == ButtonEvent::Click
            &&& b.events.drop_last().contains(ButtonEvent::Click) == v.events.contains(ButtonEvent::Click)
        }),
{
    let down = MouseEvent { kind: MouseEventKind::Down(MouseButton::Left), column, row, modifiers: m };
    let up = MouseEvent { kind: MouseEventKind::Up(MouseButton::Left), column, row, modifiers: m };
    let (s1, a) = spec_button_mouse(v, down);
    let (s2, b) = spec_button_mouse(a, up);
    assert(b.events.drop_last() =~= a.events);
    let h = if !v.hovered { v.events.push(ButtonEvent::Hover(true)) } else { v.events };
    let f = if !v.focused { h.push(ButtonEvent::Focus(true)) } else { h };
    assert(a.events == f);
    assert forall|i: int| 0 <= i < a.events.len() && a.events[i] == ButtonEvent::Click implies v.events.contains(ButtonEvent::Click) by {
        if i < v.events.len() {
            assert(v.events[i] == ButtonEvent::Click);
        } else {
            assert(a.events[i] != ButtonEvent::Click);
        }
    }
    if v.events.contains(ButtonEvent::Click) {
        let i = choose|i: int| 0 <= i < v.events.len() && v.events[i] == ButtonEvent::Click;
        assert(a.events[i] == ButtonEvent::Click);
    }
}

} // verus!
