use crate::button::KEYBOARD_PRESS_FEEDBACK_MS;
use crate::dialog::{spec_dialog_handle, spec_open, DialogEvent, DialogState, DialogView};
use crate::events::{EventStatus, KeyCode, KeyEvent, KeyEventKind, SmashEvent};
use crate::geometry::Rect;
use crate::layout::{
    determined_offset, layout_split, length_sum, min_count, min_sum, percent_sum, spec_clamped, spec_cut, spec_determined_split,
    spec_main_size,
    determined_size, spec_split_determined, spec_split_fits, LayoutConstraint, LayoutDirection,
};
use crate::reactive::FocusNode;
use vstd::laws_eq::obeys_concrete_eq;
use vstd::prelude::*;
use vstd::std_specs::cmp::{PartialEqSpec, PartialEqSpecImpl};

verus! {

/// Index of the buttons tab.
pub const TAB_BUTTONS: usize = 0;
/// Index of the textboxes tab.
pub const TAB_TEXTBOXES: usize = 1;
/// Index of the scroll and effects tab.
pub const TAB_SCROLL_EFFECTS: usize = 2;
/// Index of the terminal tab.
pub const TAB_TERMINAL: usize = 3;
/// Index of the theme tab.
pub const TAB_THEME: usize = 4;
/// Number of tabs in the gallery.
pub const TAB_COUNT: usize = 5;
/// Lines of sample content in the scroll area.
pub const SCROLL_CONTENT_LINES: usize = 30;

/// Every control of the component gallery that focus can land on.
#[derive(Clone, Copy, Debug, Eq)]
pub enum FocusId {
    Tabs,
    ButtonPrimary,
    ButtonSecondary,
    ButtonOutline,
    ButtonDanger,
    ButtonIncrement,
    ButtonDecrement,
    EditorBox,
    NotesBox,
    PreviewBox,
    ScrollArea,
    Terminal,
    ThemePresets,
    ThemeModeToggle,
}

impl FocusId {
    /// The position of the control in declaration order.
    pub open spec fn ordinal(self) -> int {
        match self {
            FocusId::Tabs => 0,
            FocusId::ButtonPrimary => 1,
            FocusId::ButtonSecondary => 2,
            FocusId::ButtonOutline => 3,
            FocusId::ButtonDanger => 4,
            FocusId::ButtonIncrement => 5,
            FocusId::ButtonDecrement => 6,
            FocusId::EditorBox => 7,
            FocusId::NotesBox => 8,
            FocusId::PreviewBox => 9,
            FocusId::ScrollArea => 10,
            FocusId::Terminal => 11,
            FocusId::ThemePresets => 12,
            FocusId::ThemeModeToggle => 13,
        }
    }

    fn ordinal_exec(&self) -> (n: u8)
        ensures
            n == self.ordinal(),
    {
        match self {
            FocusId::Tabs => 0,
            FocusId::ButtonPrimary => 1,
            FocusId::ButtonSecondary => 2,
            FocusId::ButtonOutline => 3,
            FocusId::ButtonDanger => 4,
            FocusId::ButtonIncrement => 5,
            FocusId::ButtonDecrement => 6,
            FocusId::EditorBox => 7,
            FocusId::NotesBox => 8,
            FocusId::PreviewBox => 9,
            FocusId::ScrollArea => 10,
            FocusId::Terminal => 11,
            FocusId::ThemePresets => 12,
            FocusId::ThemeModeToggle => 13,
        }
    }
}

impl PartialEq for FocusId {
    fn eq(&self, other: &Self) -> (r: bool) {
        self.ordinal_exec() == other.ordinal_exec()
    }
}

impl PartialEqSpecImpl for FocusId {
    open spec fn obeys_eq_spec() -> bool {
        true
    }

    open spec fn eq_spec(&self, other: &FocusId) -> bool {
        self.ordinal() == other.ordinal()
    }
}

/// Two controls compare equal exactly when they are the same control.
pub proof fn lemma_focus_id_eq()
    ensures
        obeys_concrete_eq::<FocusId>(),
{
    assert forall|x: FocusId, y: FocusId| PartialEqSpec::eq_spec(&x, &y) <==> x == y by {
        if x.ordinal() == y.ordinal() {
            match x {
                FocusId::Tabs => {},
                FocusId::ButtonPrimary => {},
                FocusId::ButtonSecondary => {},
                FocusId::ButtonOutline => {},
                FocusId::ButtonDanger => {},
                FocusId::ButtonIncrement => {},
                FocusId::ButtonDecrement => {},
                FocusId::EditorBox => {},
                FocusId::NotesBox => {},
                FocusId::PreviewBox => {},
                FocusId::ScrollArea => {},
                FocusId::Terminal => {},
                FocusId::ThemePresets => {},
                FocusId::ThemeModeToggle => {},
            }
        }
    }
    reveal(obeys_concrete_eq);
}

/// The name shown for a textbox in the gallery's textbox list.
pub open spec fn spec_textbox_label(id: FocusId) -> Seq<char> {
    match id {
        FocusId::EditorBox => "editor"@,
        FocusId::NotesBox => "plain text"@,
        FocusId::PreviewBox => "preview"@,
        _ => "textbox"@,
    }
}

/// The name shown for a textbox in the gallery's textbox list.
pub fn textbox_label(id: FocusId) -> (label: &'static str)
    ensures
        label@ == spec_textbox_label(id),
{
    match id {
        FocusId::EditorBox => "editor",
        FocusId::NotesBox => "plain text",
        FocusId::PreviewBox => "preview",
        _ => "textbox",
    }
}

/// The control that takes focus when a tab is opened.
pub open spec fn spec_default_focus_for_tab(tab: usize) -> FocusId {
    if tab == TAB_BUTTONS {
        FocusId::ButtonPrimary
    } else if tab == TAB_TEXTBOXES {
        FocusId::EditorBox
    } else if tab == TAB_SCROLL_EFFECTS {
        FocusId::ScrollArea
    } else if tab == TAB_TERMINAL {
        FocusId::Terminal
    } else if tab == TAB_THEME {
        FocusId::ThemePresets
    } else {
        FocusId::Tabs
    }
}

/// The control that takes focus when a tab is opened.
pub fn default_focus_for_tab(tab: usize) -> (id: FocusId)
    ensures
        id == spec_default_focus_for_tab(tab),
{
    if tab == TAB_BUTTONS {
        FocusId::ButtonPrimary
    } else if tab == TAB_TEXTBOXES {
        FocusId::EditorBox
    } else if tab == TAB_SCROLL_EFFECTS {
        FocusId::ScrollArea
    } else if tab == TAB_TERMINAL {
        FocusId::Terminal
    } else if tab == TAB_THEME {
        FocusId::ThemePresets
    } else {
        FocusId::Tabs
    }
}

/// How the footer names the focused control.
pub open spec fn spec_focus_label(selected: Option<FocusId>) -> Seq<char> {
    match selected {
        Some(FocusId::Tabs) => "tabs"@,
        Some(FocusId::ButtonPrimary) => "primary button"@,
        Some(FocusId::ButtonSecondary) => "secondary button"@,
        Some(FocusId::ButtonOutline) => "quiet button"@,
        Some(FocusId::ButtonDanger) => "danger button"@,
        Some(FocusId::ButtonIncrement) => "increment button"@,
        Some(FocusId::ButtonDecrement) => "decrement button"@,
        Some(FocusId::EditorBox) => "editor textbox"@,
        Some(FocusId::NotesBox) => "plain text textbox"@,
        Some(FocusId::PreviewBox) => "preview textbox"@,
        Some(FocusId::ScrollArea) => "scroll area"@,
        Some(FocusId::Terminal) => "terminal"@,
        Some(FocusId::ThemePresets) => "theme presets"@,
        Some(FocusId::ThemeModeToggle) => "theme mode toggle"@,
        None => "nothing"@,
    }
}

/// How the footer names the focused control.
pub fn focus_label(selected: Option<FocusId>) -> (label: &'static str)
    ensures
        label@ == spec_focus_label(selected),
{
    match selected {
        Some(FocusId::Tabs) => "tabs",
        Some(FocusId::ButtonPrimary) => "primary button",
        Some(FocusId::ButtonSecondary) => "secondary button",
        Some(FocusId::ButtonOutline) => "quiet button",
        Some(FocusId::ButtonDanger) => "danger button",
        Some(FocusId::ButtonIncrement) => "increment button",
        Some(FocusId::ButtonDecrement) => "decrement button",
        Some(FocusId::EditorBox) => "editor textbox",
        Some(FocusId::NotesBox) => "plain text textbox",
        Some(FocusId::PreviewBox) => "preview textbox",
        Some(FocusId::ScrollArea) => "scroll area",
        Some(FocusId::Terminal) => "terminal",
        Some(FocusId::ThemePresets) => "theme presets",
        Some(FocusId::ThemeModeToggle) => "theme mode toggle",
        None => "nothing",
    }
}

/// A fresh press of Ctrl+C (not a repeat or a release).
pub open spec fn spec_is_ctrl_c_press(key: KeyEvent) -> bool {
    key.kind == KeyEventKind::Press && key.code == KeyCode::Char('c') && key.modifiers.control
}

/// A fresh press of Ctrl+C (not a repeat or a release).
pub fn is_ctrl_c_press(key: KeyEvent) -> (b: bool)
    ensures
        b == spec_is_ctrl_c_press(key),
{
    key.kind == KeyEventKind::Press && key.code == KeyCode::Char('c') && key.modifiers.control
}

/// How far the scroll area's content can scroll when it is drawn in `area`
/// (a bordered block, so two rows go to the border).
pub open spec fn spec_scroll_area_max_offset(area: Rect) -> int {
    let visible = if area.height >= 2 { area.height - 2 } else { 0 };
    if SCROLL_CONTENT_LINES >= visible { SCROLL_CONTENT_LINES - visible } else { 0 }
}

/// How far the scroll area's content can scroll when it is drawn in `area`.
pub fn scroll_area_max_offset(area: Rect) -> (n: usize)
    ensures
        n == spec_scroll_area_max_offset(area),
{
    let visible_lines = area.height.saturating_sub(2) as usize;
    SCROLL_CONTENT_LINES.saturating_sub(visible_lines)
}

/// The shell screen's answer to a key: while the quit dialog is open, a
/// Ctrl+C press or the dialog's confirmation quits and every other key goes
/// to the dialog; otherwise Ctrl+C opens the dialog and a Ctrl+Q press quits.
pub open spec fn spec_shell_key(d: DialogView, key: KeyEvent, now_ms: u64) -> (bool, DialogView) {
    if d.is_open {
        if spec_is_ctrl_c_press(key) {
            (true, d)
        } else {
            let (r, w) = spec_dialog_handle(d, SmashEvent::Key(key), now_ms);
            (r == DialogEvent::Confirmed, w)
        }
    } else if spec_is_ctrl_c_press(key) {
        (false, spec_open(d))
    } else {
        (key.kind == KeyEventKind::Press && key.code == KeyCode::Char('q') && key.modifiers.control, d)
    }
}

/// Handles a key on the shell screen; whether to quit.
pub fn shell_key(dialog: &mut DialogState, key: KeyEvent, now_ms: u64) -> (quit: bool)
    requires
        now_ms + KEYBOARD_PRESS_FEEDBACK_MS <= u64::MAX,
    ensures
        (quit, final(dialog)@) == spec_shell_key(old(dialog)@, key, now_ms),
{
    if dialog.is_open() {
        if is_ctrl_c_press(key) {
            return true;
        }
        return dialog.handle_smash_event(&SmashEvent::Key(key), now_ms) == DialogEvent::Confirmed;
    }
    if is_ctrl_c_press(key) {
        dialog.open();
        false
    } else {
        key.kind == KeyEventKind::Press && key.code == KeyCode::Char('q') && key.modifiers.control
    }
}

/// The three bands of the gallery screen.
#[derive(Clone, Copy, Debug, PartialEq, Eq, Structural)]
pub struct AppLayout {
    pub tabs: Rect,
    pub body: Rect,
    pub footer: Rect,
}

/// The gallery screen's bands: a three-row tab bar, the body, a one-row footer.
pub open spec fn app_constraints() -> Seq<LayoutConstraint> {
    seq![LayoutConstraint::Length(3), LayoutConstraint::Min(0), LayoutConstraint::Length(1)]
}

proof fn lemma_app_constraints_counts()
    ensures
        length_sum(app_constraints()) == 4,
        min_sum(app_constraints()) == 0,
        min_count(app_constraints()) == 1,
{
    let cs = app_constraints();
    assert(cs.drop_last().drop_last().drop_last() =~= Seq::<LayoutConstraint>::empty());
    reveal_with_fuel(length_sum, 4);
    reveal_with_fuel(min_sum, 4);
    reveal_with_fuel(min_count, 4);
}

/// Two percentages that add up to a hundred and each give a whole number of
/// cells determine their split.
proof fn lemma_two_percent(cs: Seq<LayoutConstraint>, p: u16, q: u16, total: int)
    requires
        cs == seq![LayoutConstraint::Percentage(p), LayoutConstraint::Percentage(q)],
        p + q == 100,
        (p * total) % 100 == 0,
        (q * total) % 100 == 0,
    ensures
        spec_split_determined(cs, total),
        determined_offset(cs, total, 1) == p * total / 100,
        determined_size(cs[0], cs, total) == p * total / 100,
        determined_size(cs[1], cs, total) == q * total / 100,
{
    assert(cs.drop_last().drop_last() =~= Seq::<LayoutConstraint>::empty());
    reveal_with_fuel(percent_sum, 3);
    reveal_with_fuel(determined_offset, 2);
}

/// A `Min(0)` followed by a length that fits determines its split: the
/// length last, the `Min` before it.
proof fn lemma_min_then_length(cs: Seq<LayoutConstraint>, n: u16, total: int)
    requires
        cs == seq![LayoutConstraint::Min(0), LayoutConstraint::Length(n)],
        n <= total,
    ensures
        spec_split_determined(cs, total),
        determined_offset(cs, total, 1) == total - n,
        determined_size(cs[0], cs, total) == total - n,
        determined_size(cs[1], cs, total) == n,
{
    assert(cs.drop_last().drop_last() =~= Seq::<LayoutConstraint>::empty());
    reveal_with_fuel(length_sum, 3);
    reveal_with_fuel(min_sum, 3);
    reveal_with_fuel(min_count, 3);
    reveal_with_fuel(determined_offset, 2);
}

/// A length that fits followed by a `Min(0)` determines its split: the
/// length first, the `Min` after it.
proof fn lemma_length_then_min(cs: Seq<LayoutConstraint>, n: u16, total: int)
    requires
        cs == seq![LayoutConstraint::Length(n), LayoutConstraint::Min(0)],
        n <= total,
    ensures
        spec_split_determined(cs, total),
        determined_offset(cs, total, 1) == n,
        determined_size(cs[0], cs, total) == n,
        determined_size(cs[1], cs, total) == total - n,
{
    assert(cs.drop_last().drop_last() =~= Seq::<LayoutConstraint>::empty());
    reveal_with_fuel(length_sum, 3);
    reveal_with_fuel(min_sum, 3);
    reveal_with_fuel(min_count, 3);
    reveal_with_fuel(determined_offset, 2);
}

/// Whether `l` is an outcome of cutting `area` into the screen's bands.
pub open spec fn app_layout_fits(area: Rect, l: AppLayout) -> bool {
    spec_split_fits(LayoutDirection::Vertical, app_constraints(), area, seq![l.tabs, l.body, l.footer])
}

/// The screen's bands when it is at least four rows high: a three-row tab
/// bar at the top, a one-row footer at the bottom and the body between,
/// each the full width of the (clamped) area.
pub open spec fn spec_app_bands(area: Rect) -> AppLayout {
    let a = spec_clamped(area);
    AppLayout {
        tabs: Rect { x: a.x, y: a.y, width: a.width, height: 3 },
        body: Rect { x: a.x, y: (a.y + 3) as u16, width: a.width, height: (a.height - 4) as u16 },
        footer: Rect { x: a.x, y: (a.y + a.height - 1) as u16, width: a.width, height: 1 },
    }
}

/// The screen's bands tile it: full width, one below the other without gap
/// or overlap, from its top row to its bottom row.
pub proof fn law_app_bands_tile(area: Rect)
    requires
        spec_clamped(area).height >= 4,
    ensures
        ({
            let a = spec_clamped(area);
            let b = spec_app_bands(area);
            &&& b.tabs.x == a.x && b.body.x == a.x && b.footer.x == a.x
            &&& b.tabs.width == a.width && b.body.width == a.width && b.footer.width == a.width
            &&& b.tabs.y == a.y
            &&& b.body.y == b.tabs.y + b.tabs.height
            &&& b.footer.y == b.body.y + b.body.height
            &&& b.footer.y + b.footer.height == a.y + a.height
        }),
{
}

/// Cuts the screen into a three-row tab bar, the body, and a one-row footer.
pub fn app_layout(area: Rect) -> (l: AppLayout)
    ensures
        app_layout_fits(area, l),
        spec_clamped(area).height >= 4 ==> l == spec_app_bands(area),
{
    let constraints = vec![
        LayoutConstraint::Length(3),
        LayoutConstraint::Min(0),
        LayoutConstraint::Length(1),
    ];
    assert(constraints@ =~= app_constraints());
    let sections = layout_split(LayoutDirection::Vertical, &constraints, area);
    let l = AppLayout { tabs: sections[0], body: sections[1], footer: sections[2] };
    assert(seq![l.tabs, l.body, l.footer] =~= sections@);
    proof {
        let cs = app_constraints();
        let h = spec_main_size(LayoutDirection::Vertical, area);
        lemma_app_constraints_counts();
        if spec_clamped(area).height >= 4 {
            assert(spec_split_determined(cs, h));
            assert(determined_offset(cs, h, 1) == 3);
            assert(determined_offset(cs, h, 2) == h - 1);
            assert(sections@ == spec_determined_split(LayoutDirection::Vertical, cs, area));
            assert(sections@[0] == spec_determined_split(LayoutDirection::Vertical, cs, area)[0]);
            assert(sections@[1] == spec_determined_split(LayoutDirection::Vertical, cs, area)[1]);
            assert(sections@[2] == spec_determined_split(LayoutDirection::Vertical, cs, area)[2]);
        }
    }
    l
}

/// Where the textbox tab puts its three samples, the selection list and the guide.
#[derive(Clone, Copy, Debug)]
pub struct TextboxGalleryLayout {
    pub samples: [Rect; 3],
    pub selection: Rect,
    pub guide: Rect,
}

/// The textbox tab: a wide left column and a narrow sidebar.
pub open spec fn textbox_column_constraints() -> Seq<LayoutConstraint> {
    seq![LayoutConstraint::Percentage(68), LayoutConstraint::Percentage(32)]
}

/// The left column of the textbox tab: three samples.
pub open spec fn textbox_sample_constraints() -> Seq<LayoutConstraint> {
    seq![LayoutConstraint::Percentage(45), LayoutConstraint::Percentage(25), LayoutConstraint::Percentage(30)]
}

/// The sidebar of the textbox tab: the selection list above the guide.
pub open spec fn textbox_sidebar_constraints() -> Seq<LayoutConstraint> {
    seq![LayoutConstraint::Length(8), LayoutConstraint::Min(0)]
}

/// Whether `l` is an outcome of laying out the textbox tab in `area`.
pub open spec fn textbox_layout_fits(area: Rect, l: TextboxGalleryLayout) -> bool {
    exists|columns: Seq<Rect>|
        #[trigger] spec_split_fits(LayoutDirection::Horizontal, textbox_column_constraints(), area, columns)
            && spec_split_fits(
            LayoutDirection::Vertical,
            textbox_sample_constraints(),
            columns[0],
            seq![l.samples[0], l.samples[1], l.samples[2]],
        ) && spec_split_fits(LayoutDirection::Vertical, textbox_sidebar_constraints(), columns[1], seq![l.selection, l.guide])
}

/// The textbox tab when its (clamped) width is a multiple of twenty-five
/// and its height a multiple of twenty, at least eight rows: a left column
/// of 68 percent holding the samples at 45, 25 and 30 percent of the height,
/// and a sidebar of the rest with an eight-row selection list above the
/// guide.
pub open spec fn spec_textbox_bands(area: Rect) -> TextboxGalleryLayout {
    let a = spec_clamped(area);
    let left = a.width * 68 / 100;
    let right = a.width * 32 / 100;
    let s0 = a.height * 45 / 100;
    let s1 = a.height * 25 / 100;
    let s2 = a.height * 30 / 100;
    TextboxGalleryLayout {
        samples: [
            Rect { x: a.x, y: a.y, width: left as u16, height: s0 as u16 },
            Rect { x: a.x, y: (a.y + s0) as u16, width: left as u16, height: s1 as u16 },
            Rect { x: a.x, y: (a.y + s0 + s1) as u16, width: left as u16, height: s2 as u16 },
        ],
        selection: Rect { x: (a.x + left) as u16, y: a.y, width: right as u16, height: 8 },
        guide: Rect { x: (a.x + left) as u16, y: (a.y + 8) as u16, width: right as u16, height: (a.height - 8) as u16 },
    }
}

/// Lays out the textbox tab.
pub fn textbox_gallery_layout(area: Rect) -> (l: TextboxGalleryLayout)
    ensures
        textbox_layout_fits(area, l),
        spec_clamped(area).width % 25 == 0 && spec_clamped(area).height % 20 == 0 && spec_clamped(area).height >= 8
            ==> l == spec_textbox_bands(area),
{
    let c1 = vec![LayoutConstraint::Percentage(68), LayoutConstraint::Percentage(32)];
    assert(c1@ =~= textbox_column_constraints());
    let columns = layout_split(LayoutDirection::Horizontal, &c1, area);
    let c2 = vec![
        LayoutConstraint::Percentage(45),
        LayoutConstraint::Percentage(25),
        LayoutConstraint::Percentage(30),
    ];
    assert(c2@ =~= textbox_sample_constraints());
    let samples = layout_split(LayoutDirection::Vertical, &c2, columns[0]);
    let c3 = vec![LayoutConstraint::Length(8), LayoutConstraint::Min(0)];
    assert(c3@ =~= textbox_sidebar_constraints());
    let sidebar = layout_split(LayoutDirection::Vertical, &c3, columns[1]);
    let l = TextboxGalleryLayout {
        samples: [samples[0], samples[1], samples[2]],
        selection: sidebar[0],
        guide: sidebar[1],
    };
    assert(seq![l.samples[0], l.samples[1], l.samples[2]] =~= samples@);
    assert(seq![l.selection, l.guide] =~= sidebar@);
    proof {
        let a = spec_clamped(area);
        if a.width % 25 == 0 && a.height % 20 == 0 && a.height >= 8 {
            lemma_two_percent(textbox_column_constraints(), 68, 32, a.width as int);
            let cols = spec_determined_split(LayoutDirection::Horizontal, textbox_column_constraints(), area);
            assert(columns@[0] == cols[0]);
            assert(columns@[1] == cols[1]);
            assert(spec_clamped(columns@[0]) == columns@[0]);
            assert(spec_clamped(columns@[1]) == columns@[1]);
            let h = a.height as int;
            let cs = textbox_sample_constraints();
            assert(cs.drop_last().drop_last().drop_last() =~= Seq::<LayoutConstraint>::empty());
            reveal_with_fuel(crate::layout::percent_sum, 4);
            reveal_with_fuel(determined_offset, 3);
            let k = h / 20;
            assert((45 * h) % 100 == 0 && (25 * h) % 100 == 0 && (30 * h) % 100 == 0) by (nonlinear_arith)
                requires
                    h == 20 * k,
            ;
            assert(cs[0]->Percentage_0 == 45 && cs[1]->Percentage_0 == 25 && cs[2]->Percentage_0 == 30);
            assert(spec_split_determined(cs, h));
            let ss = spec_determined_split(LayoutDirection::Vertical, cs, columns@[0]);
            assert(samples@[0] == ss[0]);
            assert(samples@[1] == ss[1]);
            assert(samples@[2] == ss[2]);
            lemma_length_then_min(textbox_sidebar_constraints(), 8, h);
            let bs = spec_determined_split(LayoutDirection::Vertical, textbox_sidebar_constraints(), columns@[1]);
            assert(sidebar@[0] == bs[0]);
            assert(sidebar@[1] == bs[1]);
        }
    }
    assert(spec_split_fits(LayoutDirection::Horizontal, textbox_column_constraints(), area, columns@));
    l
}

/// Where the scroll tab puts the scroll area and the effect demo.
#[derive(Clone, Copy, Debug, PartialEq, Eq, Structural)]
pub struct ScrollEffectsLayout {
    pub scroll: Rect,
    pub effect: Rect,
}

/// The scroll tab: two equal rows.
pub open spec fn scroll_effects_constraints() -> Seq<LayoutConstraint> {
    seq![LayoutConstraint::Percentage(50), LayoutConstraint::Percentage(50)]
}

/// Whether `l` is an outcome of laying out the scroll tab in `area`.
pub open spec fn scroll_effects_layout_fits(area: Rect, l: ScrollEffectsLayout) -> bool {
    spec_split_fits(LayoutDirection::Vertical, scroll_effects_constraints(), area, seq![l.scroll, l.effect])
}

/// Lays out the scroll tab: the scroll area above, the effect demo below.
pub fn scroll_effects_layout(area: Rect) -> (l: ScrollEffectsLayout)
    ensures
        scroll_effects_layout_fits(area, l),
        spec_clamped(area).height % 2 == 0 ==> l == (ScrollEffectsLayout {
            scroll: spec_cut(LayoutDirection::Vertical, area, spec_clamped(area).y as int, spec_clamped(area).height as int / 2),
            effect: spec_cut(
                LayoutDirection::Vertical,
                area,
                spec_clamped(area).y + spec_clamped(area).height / 2,
                spec_clamped(area).height as int / 2,
            ),
        }),
{
    let c = vec![LayoutConstraint::Percentage(50), LayoutConstraint::Percentage(50)];
    assert(c@ =~= scroll_effects_constraints());
    let rows = layout_split(LayoutDirection::Vertical, &c, area);
    let l = ScrollEffectsLayout { scroll: rows[0], effect: rows[1] };
    assert(seq![l.scroll, l.effect] =~= rows@);
    proof {
        let cs = scroll_effects_constraints();
        let h = spec_main_size(LayoutDirection::Vertical, area);
        assert(cs.drop_last().drop_last() =~= Seq::<LayoutConstraint>::empty());
        reveal_with_fuel(percent_sum, 3);
        if h % 2 == 0 {
            assert((50 * h) % 100 == 0);
            assert(50 * h / 100 == h / 2);
            assert(spec_split_determined(cs, h));
            assert(determined_offset(cs, h, 1) == h / 2);
            assert(rows@[0] == spec_determined_split(LayoutDirection::Vertical, cs, area)[0]);
            assert(rows@[1] == spec_determined_split(LayoutDirection::Vertical, cs, area)[1]);
        }
    }
    l
}

/// Where the terminal tab puts its introduction and the terminal.
#[derive(Clone, Copy, Debug, PartialEq, Eq, Structural)]
pub struct TerminalDemoLayout {
    pub intro: Rect,
    pub terminal: Rect,
}

/// The terminal tab: a four-row introduction and the rest.
pub open spec fn terminal_demo_constraints() -> Seq<LayoutConstraint> {
    seq![LayoutConstraint::Length(4), LayoutConstraint::Min(0)]
}

/// Whether `l` is an outcome of laying out the terminal tab in `area`.
pub open spec fn terminal_demo_layout_fits(area: Rect, l: TerminalDemoLayout) -> bool {
    spec_split_fits(LayoutDirection::Vertical, terminal_demo_constraints(), area, seq![l.intro, l.terminal])
}

/// Lays out the terminal tab.
pub fn terminal_demo_layout(area: Rect) -> (l: TerminalDemoLayout)
    ensures
        terminal_demo_layout_fits(area, l),
        spec_clamped(area).height >= 4 ==> l == (TerminalDemoLayout {
            intro: spec_cut(LayoutDirection::Vertical, area, spec_clamped(area).y as int, 4),
            terminal: spec_cut(
                LayoutDirection::Vertical,
                area,
                spec_clamped(area).y + 4,
                spec_clamped(area).height - 4,
            ),
        }),
{
    let c = vec![LayoutConstraint::Length(4), LayoutConstraint::Min(0)];
    assert(c@ =~= terminal_demo_constraints());
    let rows = layout_split(LayoutDirection::Vertical, &c, area);
    let l = TerminalDemoLayout { intro: rows[0], terminal: rows[1] };
    assert(seq![l.intro, l.terminal] =~= rows@);
    proof {
        let cs = terminal_demo_constraints();
        let h = spec_main_size(LayoutDirection::Vertical, area);
        assert(cs.drop_last().drop_last() =~= Seq::<LayoutConstraint>::empty());
        reveal_with_fuel(length_sum, 3);
        reveal_with_fuel(min_sum, 3);
        reveal_with_fuel(min_count, 3);
        if spec_clamped(area).height >= 4 {
            assert(spec_split_determined(cs, h));
            assert(determined_offset(cs, h, 1) == 4);
            assert(rows@[0] == spec_determined_split(LayoutDirection::Vertical, cs, area)[0]);
            assert(rows@[1] == spec_determined_split(LayoutDirection::Vertical, cs, area)[1]);
        }
    }
    l
}

/// Where the theme tab puts the preset list, the mode toggle, the swatches and
/// the info line.
#[derive(Clone, Copy, Debug, PartialEq, Eq, Structural)]
pub struct ThemeDemoLayout {
    pub presets: Rect,
    pub toggle: Rect,
    pub swatches: Rect,
    pub info: Rect,
}

/// The theme tab: a narrow left and a wide right column.
pub open spec fn theme_column_constraints() -> Seq<LayoutConstraint> {
    seq![LayoutConstraint::Percentage(30), LayoutConstraint::Percentage(70)]
}

/// The left column of the theme tab: presets above a three-row toggle.
pub open spec fn theme_left_constraints() -> Seq<LayoutConstraint> {
    seq![LayoutConstraint::Min(0), LayoutConstraint::Length(3)]
}

/// The right column of the theme tab: swatches above a four-row info box.
pub open spec fn theme_right_constraints() -> Seq<LayoutConstraint> {
    seq![LayoutConstraint::Min(0), LayoutConstraint::Length(4)]
}

/// Whether `l` is an outcome of laying out the theme tab in `area`.
pub open spec fn theme_demo_layout_fits(area: Rect, l: ThemeDemoLayout) -> bool {
    exists|columns: Seq<Rect>|
        #[trigger] spec_split_fits(LayoutDirection::Horizontal, theme_column_constraints(), area, columns)
            && spec_split_fits(LayoutDirection::Vertical, theme_left_constraints(), columns[0], seq![l.presets, l.toggle])
            && spec_split_fits(LayoutDirection::Vertical, theme_right_constraints(), columns[1], seq![l.swatches, l.info])
}

/// The theme tab when its (clamped) width is a multiple of ten and it is at
/// least four rows high: a left column of three tenths, with the presets
/// above a three-row toggle, and a right column of the rest, with the
/// swatches above a four-row info box.
pub open spec fn spec_theme_bands(area: Rect) -> ThemeDemoLayout {
    let a = spec_clamped(area);
    let left = a.width * 3 / 10;
    let right = a.width * 7 / 10;
    ThemeDemoLayout {
        presets: Rect { x: a.x, y: a.y, width: left as u16, height: (a.height - 3) as u16 },
        toggle: Rect { x: a.x, y: (a.y + a.height - 3) as u16, width: left as u16, height: 3 },
        swatches: Rect { x: (a.x + left) as u16, y: a.y, width: right as u16, height: (a.height - 4) as u16 },
        info: Rect { x: (a.x + left) as u16, y: (a.y + a.height - 4) as u16, width: right as u16, height: 4 },
    }
}

/// Lays out the theme tab.
pub fn theme_demo_layout(area: Rect) -> (l: ThemeDemoLayout)
    ensures
        theme_demo_layout_fits(area, l),
        spec_clamped(area).width % 10 == 0 && spec_clamped(area).height >= 4 ==> l == spec_theme_bands(area),
{
    let c1 = vec![LayoutConstraint::Percentage(30), LayoutConstraint::Percentage(70)];
    assert(c1@ =~= theme_column_constraints());
    let outer = layout_split(LayoutDirection::Horizontal, &c1, area);
    let c2 = vec![LayoutConstraint::Min(0), LayoutConstraint::Length(3)];
    assert(c2@ =~= theme_left_constraints());
    let left = layout_split(LayoutDirection::Vertical, &c2, outer[0]);
    let c3 = vec![LayoutConstraint::Min(0), LayoutConstraint::Length(4)];
    assert(c3@ =~= theme_right_constraints());
    let right = layout_split(LayoutDirection::Vertical, &c3, outer[1]);
    let l = ThemeDemoLayout { presets: left[0], toggle: left[1], swatches: right[0], info: right[1] };
    assert(seq![l.presets, l.toggle] =~= left@);
    assert(seq![l.swatches, l.info] =~= right@);
    proof {
        let a = spec_clamped(area);
        if a.width % 10 == 0 && a.height >= 4 {
            lemma_two_percent(theme_column_constraints(), 30, 70, a.width as int);
            let cols = spec_determined_split(LayoutDirection::Horizontal, theme_column_constraints(), area);
            assert(outer@[0] == cols[0]);
            assert(outer@[1] == cols[1]);
            assert(determined_offset(theme_column_constraints(), a.width as int, 1) == a.width * 3 / 10);
            lemma_min_then_length(theme_left_constraints(), 3, outer@[0].height as int);
            lemma_min_then_length(theme_right_constraints(), 4, outer@[1].height as int);
            assert(spec_clamped(outer@[0]) == outer@[0]);
            assert(spec_clamped(outer@[1]) == outer@[1]);
            let ls = spec_determined_split(LayoutDirection::Vertical, theme_left_constraints(), outer@[0]);
            let rs = spec_determined_split(LayoutDirection::Vertical, theme_right_constraints(), outer@[1]);
            assert(left@[0] == ls[0]);
            assert(left@[1] == ls[1]);
            assert(right@[0] == rs[0]);
            assert(right@[1] == rs[1]);
        }
    }
    assert(spec_split_fits(LayoutDirection::Horizontal, theme_column_constraints(), area, outer@));
    l
}

} // verus!
