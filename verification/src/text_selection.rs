use crate::events::{MouseButton, MouseEventKind, SmashEvent};
use crate::geometry::Rect;
use crate::text::chars_of;
use vstd::prelude::*;

verus! {

/// A cell position relative to an area: (row, column).
pub type CellPos = (u16, u16);

/// Something that shows text in an area and can give back the text between
/// two of its cells, for copying a selection.
pub trait TextProvider {
    /// The text between two cell positions (ordered by row) of `area`.
    fn text_in_range(&self, top: CellPos, bottom: CellPos, area: Rect) -> String;

    /// All of the text.
    fn full_text(&self) -> String;
}

/// Something whose content can be copied as a whole.
pub trait Copyable {
    fn copy_text(&self) -> String;
}

/// What a mouse event did to a selection.
#[derive(Clone, Copy, Debug, PartialEq, Eq, Structural)]
pub enum SelectionAction {
    Unchanged,
    Changed,
    Finished,
}

/// A mouse-drawn selection over the cells of an area: the cell where the drag
/// started and the cell it reached.
#[derive(Clone, Copy, Debug)]
pub struct TextSelection {
    pub anchor: Option<CellPos>,
    pub focus: Option<CellPos>,
}

impl Default for TextSelection {
    fn default() -> (s: TextSelection)
        ensures
            s.anchor is None && s.focus is None,
    {
        TextSelection::new()
    }
}

/// `a - b`, or zero.
pub open spec fn sub0(a: u16, b: u16) -> u16 {
    if a >= b { (a - b) as u16 } else { 0 }
}

/// What a mouse event does to a selection over `area`: a left press starts
/// one, a left drag extends a started one, a left release finishes it.
pub open spec fn spec_selection_mouse(s: TextSelection, event: SmashEvent, area: Rect) -> (SelectionAction, TextSelection) {
    match event {
        SmashEvent::Mouse(m) => {
            let rel = (sub0(m.row, area.y), sub0(m.column, area.x));
            if m.kind == MouseEventKind::Down(MouseButton::Left) {
                (SelectionAction::Changed, TextSelection { anchor: Some(rel), focus: Some(rel) })
            } else if m.kind == MouseEventKind::Drag(MouseButton::Left) && s.anchor is Some {
                (SelectionAction::Changed, TextSelection { focus: Some(rel), ..s })
            } else if m.kind == MouseEventKind::Up(MouseButton::Left) && s.anchor is Some {
                (SelectionAction::Finished, s)
            } else {
                (SelectionAction::Unchanged, s)
            }
        },
        _ => (SelectionAction::Unchanged, s),
    }
}

/// The selection as a box: the smaller row and column, and the larger row and
/// column, when both ends are set and differ.
pub open spec fn spec_normalized_range(s: TextSelection) -> Option<(CellPos, CellPos)> {
    match (s.anchor, s.focus) {
        (Some(a), Some(f)) => {
            let start = (if a.0 <= f.0 { a.0 } else { f.0 }, if a.1 <= f.1 { a.1 } else { f.1 });
            let end = (if a.0 >= f.0 { a.0 } else { f.0 }, if a.1 >= f.1 { a.1 } else { f.1 });
            if start == end {
                None
            } else {
                Some((start, end))
            }
        },
        _ => None,
    }
}

/// The two ends ordered by row, when both are set.
pub open spec fn spec_selection_ends(s: TextSelection) -> Option<(CellPos, CellPos)> {
    match (s.anchor, s.focus) {
        (Some(a), Some(f)) => if a.0 <= f.0 { Some((a, f)) } else { Some((f, a)) },
        _ => None,
    }
}

/// The columns highlighted on `row` of an area `width` cells wide, when the
/// row lies between the ends: the whole span on a single row, from the start
/// column on the top row, up to the end column on the bottom row, and every
/// column in between.
pub open spec fn spec_row_span(s: TextSelection, row: u16, width: u16) -> Option<(u16, u16)> {
    match spec_selection_ends(s) {
        Some((top, bottom)) => {
            let right = sub0(width, 1);
            if row < top.0 || row > bottom.0 {
                None
            } else if top.0 == bottom.0 {
                Some((if top.1 <= bottom.1 { top.1 } else { bottom.1 }, if top.1 >= bottom.1 { top.1 } else { bottom.1 }))
            } else if row == top.0 {
                Some((top.1, right))
            } else if row == bottom.0 {
                Some((0, bottom.1))
            } else {
                Some((0, right))
            }
        },
        None => None,
    }
}

/// The highlight of a selection row by row, in terms of its two ends: no
/// row outside the rows between them is highlighted; when both ends lie on
/// one row, exactly the columns from the smaller end column to the larger
/// are; otherwise the upper end's row runs from its column to the right edge,
/// the lower end's row from the left edge to its column, and every row
/// between is highlighted across the whole width.
pub proof fn law_row_span_follows_the_ends(a: CellPos, f: CellPos, row: u16, width: u16)
    ensures
        ({
            let span = spec_row_span(TextSelection { anchor: Some(a), focus: Some(f) }, row, width);
            let (top, bottom) = if a.0 <= f.0 { (a, f) } else { (f, a) };
            let right = if width == 0 { 0 } else { (width - 1) as u16 };
            &&& (row < top.0 || row > bottom.0) ==> span is None
            &&& a.0 == f.0 && row == a.0 ==> span == Some((if a.1 <= f.1 { a.1 } else { f.1 }, if a.1 <= f.1 { f.1 } else { a.1 }))
            &&& a.0 != f.0 && row == top.0 ==> span == Some((top.1, right))
            &&& a.0 != f.0 && row == bottom.0 ==> span == Some((0u16, bottom.1))
            &&& top.0 < row < bottom.0 ==> span == Some((0u16, right))
        }),
{
}

/// Without both ends there is nothing highlighted.
pub proof fn law_no_span_without_both_ends(s: TextSelection, row: u16, width: u16)
    requires
        s.anchor is None || s.focus is None,
    ensures
        spec_row_span(s, row, width) is None,
{
}

impl TextSelection {
    pub fn new() -> (s: TextSelection)
        ensures
            s.anchor is None && s.focus is None,
    {
        TextSelection { anchor: None, focus: None }
    }

    /// Follows a mouse event over `area`.
    pub fn handle_mouse_event(&mut self, event: &SmashEvent, area: Rect) -> (a: SelectionAction)
        ensures
            (a, *final(self)) == spec_selection_mouse(*old(self), *event, area),
    {
        match event {
            SmashEvent::Mouse(m) => {
                let rel = (m.row.saturating_sub(area.y), m.column.saturating_sub(area.x));
                if m.kind == MouseEventKind::Down(MouseButton::Left) {
                    self.anchor = Some(rel);
                    self.focus = Some(rel);
                    SelectionAction::Changed
                } else if m.kind == MouseEventKind::Drag(MouseButton::Left) && self.anchor.is_some() {
                    self.focus = Some(rel);
                    SelectionAction::Changed
                } else if m.kind == MouseEventKind::Up(MouseButton::Left) && self.anchor.is_some() {
                    SelectionAction::Finished
                } else {
                    SelectionAction::Unchanged
                }
            },
            _ => SelectionAction::Unchanged,
        }
    }

    /// Forgets the selection.
    pub fn clear(&mut self)
        ensures
            final(self).anchor is None && final(self).focus is None,
    {
        self.anchor = None;
        self.focus = None;
    }

    /// The selection as a box, when there is a non-empty one.
    pub fn normalized_range(&self) -> (r: Option<(CellPos, CellPos)>)
        ensures
            r == spec_normalized_range(*self),
    {
        match (self.anchor, self.focus) {
            (Some(a), Some(f)) => {
                let start = (if a.0 <= f.0 { a.0 } else { f.0 }, if a.1 <= f.1 { a.1 } else { f.1 });
                let end = (if a.0 >= f.0 { a.0 } else { f.0 }, if a.1 >= f.1 { a.1 } else { f.1 });
                if start.0 == end.0 && start.1 == end.1 {
                    None
                } else {
                    Some((start, end))
                }
            },
            _ => None,
        }
    }

    /// The text to put on the clipboard when `text` is copied: none when it
    /// is empty.
    pub fn copy_text(&self, text: &str) -> (r: Option<String>)
        ensures
            match r {
                Some(t) => text@.len() > 0 && t@ == text@,
                None => text@.len() == 0,
            },
    {
        if text.unicode_len() == 0 {
            None
        } else {
            Some(text.to_owned())
        }
    }

    /// The selected text, as `provider` lays it out in `area` between the
    /// selection's ends, to put on the clipboard: none without a selection
    /// or when that text is empty.
    pub fn copy<P: TextProvider>(&self, provider: &P, area: Rect) -> (r: Option<String>)
        ensures
            match spec_selection_ends(*self) {
                None => r is None,
                Some((top, bottom)) => exists|t: String|
                    #![trigger call_ensures(P::text_in_range, (provider, top, bottom, area), t)]
                    call_ensures(P::text_in_range, (provider, top, bottom, area), t) && match r {
                        Some(s) => t@.len() > 0 && s@ == t@,
                        None => t@.len() == 0,
                    },
            },
    {
        match self.selection_ends() {
            Some((top, bottom)) => {
                // Called through the method's value, so that the contract can
                // speak of what the provider may give back.
                let read = P::text_in_range;
                let text = read(provider, top, bottom, area);
                self.copy_text(text.as_str())
            },
            None => None,
        }
    }

    pub fn has_selection(&self) -> (b: bool)
        ensures
            b == (spec_normalized_range(*self) is Some),
    {
        self.normalized_range().is_some()
    }

    /// The two ends ordered by row, as copying asks the text provider for them.
    pub fn selection_ends(&self) -> (r: Option<(CellPos, CellPos)>)
        ensures
            r == spec_selection_ends(*self),
    {
        match (self.anchor, self.focus) {
            (Some(a), Some(f)) => if a.0 <= f.0 {
                Some((a, f))
            } else {
                Some((f, a))
            },
            _ => None,
        }
    }

    /// The columns to highlight on `row` of an area `width` cells wide.
    pub fn row_span(&self, row: u16, width: u16) -> (r: Option<(u16, u16)>)
        ensures
            r == spec_row_span(*self, row, width),
    {
        match self.selection_ends() {
            Some((top, bottom)) => {
                let right = width.saturating_sub(1);
                if row < top.0 || row > bottom.0 {
                    None
                } else if top.0 == bottom.0 {
                    Some((if top.1 <= bottom.1 { top.1 } else { bottom.1 }, if top.1 >= bottom.1 { top.1 } else { bottom.1 }))
                } else if row == top.0 {
                    Some((top.1, right))
                } else if row == bottom.0 {
                    Some((0, bottom.1))
                } else {
                    Some((0, right))
                }
            },
            None => None,
        }
    }
}

/// Box-drawing, block and shade characters, which a selection never
/// highlights.
pub open spec fn spec_is_border_glyph(c: char) -> bool {
    let v = c as u32;
    v == 0x2500 || v == 0x2501 || v == 0x2502 || v == 0x2503 || v == 0x250c || v == 0x2510 || v
        == 0x2514 || v == 0x2518 || v == 0x251c || v == 0x2524 || v == 0x252c || v == 0x2534 || v
        == 0x253c || v == 0x256d || v == 0x256e || v == 0x2570 || v == 0x256f || v == 0x250f || v
        == 0x2513 || v == 0x2517 || v == 0x251b || v == 0x2523 || v == 0x252b || v == 0x2533 || v
        == 0x253b || v == 0x254b || v == 0x2581 || v == 0x2594 || v == 0x258f || v == 0x2595 || v
        == 0x2591 || v == 0x2592 || v == 0x2593 || v == 0x2580 || v == 0x2584 || v == 0x2588 || v
        == 0x258c || v == 0x2590
}

/// Whether a cell symbol is a single border, block or shade glyph.
pub open spec fn spec_is_border_char(s: Seq<char>) -> bool {
    s.len() == 1 && spec_is_border_glyph(s[0])
}

/// Whether a cell symbol is a single border, block or shade glyph.
pub fn is_border_char(s: &str) -> (b: bool)
    ensures
        b == spec_is_border_char(s@),
{
    let chars = chars_of(s);
    if chars.len() != 1 {
        return false;
    }
    let v = chars[0] as u32;
    v == 0x2500 || v == 0x2501 || v == 0x2502 || v == 0x2503 || v == 0x250c || v == 0x2510 || v
        == 0x2514 || v == 0x2518 || v == 0x251c || v == 0x2524 || v == 0x252c || v == 0x2534 || v
        == 0x253c || v == 0x256d || v == 0x256e || v == 0x2570 || v == 0x256f || v == 0x250f || v
        == 0x2513 || v == 0x2517 || v == 0x251b || v == 0x2523 || v == 0x252b || v == 0x2533 || v
        == 0x253b || v == 0x254b || v == 0x2581 || v == 0x2594 || v == 0x258f || v == 0x2595 || v
        == 0x2591 || v == 0x2592 || v == 0x2593 || v == 0x2580 || v == 0x2584 || v == 0x2588 || v
        == 0x258c || v == 0x2590
}

} // verus!
