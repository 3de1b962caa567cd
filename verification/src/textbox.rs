use vstd::prelude::*;

use crate::events::{EventStatus, KeyCode, KeyEvent, KeyEventKind, SmashEvent};
use crate::geometry::{bordered_inner, spec_bordered_inner, Rect};
use crate::reactive::{use_focus, FocusState, NavigatorFocusable};
use crate::content_detection::{content_sums_fit, matches_view};
use crate::syntax::{opt_string_view, SyntaxRequest, SyntaxThemeKind};
use crate::syntax_select::{detect_language_label, spec_select_syntax_for, SyntaxAssets};
use crate::text::{
    char_width, chars_of, display_width, is_whitespace, lemma_deep_view_push,
    lemma_display_width_prefix, spec_char_width, spec_is_whitespace, split_lines, str_lines,
    string_from_chars,
};

verus! {

// ---------------------------------------------------------------------------
// The abstract text model
// ---------------------------------------------------------------------------

/// A cursor or anchor position: a line index and a character offset in it.
pub type TextPos = (int, int);

/// What the editing operations act on: the lines of text, the cursor, and the
/// anchor of the selection (the selection runs from the anchor to the cursor).
pub struct TextModel {
    pub lines: Seq<Seq<char>>,
    pub cursor: TextPos,
    pub anchor: Option<TextPos>,
}

/// Whether `p` is a position inside `lines` (at most one past a line's end).
pub open spec fn valid_pos(lines: Seq<Seq<char>>, p: TextPos) -> bool {
    0 <= p.0 < lines.len() && 0 <= p.1 <= lines[p.0].len()
}

impl TextModel {
    /// At least one line, and the cursor and anchor inside the text.
    pub open spec fn wf(self) -> bool {
        &&& self.lines.len() >= 1
        &&& valid_pos(self.lines, self.cursor)
        &&& (self.anchor is Some ==> valid_pos(self.lines, self.anchor->0))
    }

    pub open spec fn line(self) -> Seq<char> {
        self.lines[self.cursor.0]
    }

    pub open spec fn with_cursor(self, p: TextPos) -> TextModel {
        TextModel { lines: self.lines, cursor: p, anchor: self.anchor }
    }
}

/// `a` comes strictly before `b` in reading order.
pub open spec fn pos_lt(a: TextPos, b: TextPos) -> bool {
    a.0 < b.0 || (a.0 == b.0 && a.1 < b.1)
}

pub open spec fn pos_le(a: TextPos, b: TextPos) -> bool {
    pos_lt(a, b) || a == b
}

/// The selected span in reading order, or `None` when nothing is selected.
pub open spec fn selection_range(m: TextModel) -> Option<(TextPos, TextPos)> {
    match m.anchor {
        None => None,
        Some(s) => if s == m.cursor {
            None
        } else if pos_lt(s, m.cursor) {
            Some((s, m.cursor))
        } else {
            Some((m.cursor, s))
        },
    }
}

/// The lines with the text from `s` up to `e` removed, the two ends joined.
pub open spec fn delete_range(lines: Seq<Seq<char>>, s: TextPos, e: TextPos) -> Seq<Seq<char>> {
    lines.take(s.0) + seq![lines[s.0].take(s.1) + lines[e.0].skip(e.1)] + lines.skip(e.0 + 1)
}

/// The lines, each followed by a newline, from index `a` up to `b`.
pub open spec fn lines_with_newlines(lines: Seq<Seq<char>>, a: int, b: int) -> Seq<char>
    decreases b - a,
{
    if a >= b {
        Seq::empty()
    } else {
        lines_with_newlines(lines, a, b - 1) + lines[b - 1] + seq!['\n']
    }
}

/// The text from `s` up to `e`, with newlines between lines.
pub open spec fn text_between(lines: Seq<Seq<char>>, s: TextPos, e: TextPos) -> Seq<char> {
    if s.0 == e.0 {
        lines[s.0].subrange(s.1, e.1)
    } else {
        lines[s.0].skip(s.1) + seq!['\n'] + lines_with_newlines(lines, s.0 + 1, e.0) + lines[e.0].take(e.1)
    }
}

/// The selected text, if any.
pub open spec fn selected_text(m: TextModel) -> Option<Seq<char>> {
    match selection_range(m) {
        Some((s, e)) => Some(text_between(m.lines, s, e)),
        None => None,
    }
}

/// One character to the left, wrapping to the end of the previous line.
pub open spec fn left_pos(m: TextModel) -> TextPos {
    if m.cursor.1 > 0 {
        (m.cursor.0, m.cursor.1 - 1)
    } else if m.cursor.0 > 0 {
        (m.cursor.0 - 1, m.lines[m.cursor.0 - 1].len() as int)
    } else {
        m.cursor
    }
}

/// One character to the right, wrapping to the start of the next line.
pub open spec fn right_pos(m: TextModel) -> TextPos {
    if m.cursor.1 < m.line().len() {
        (m.cursor.0, m.cursor.1 + 1)
    } else if m.cursor.0 < m.lines.len() - 1 {
        (m.cursor.0 + 1, 0)
    } else {
        m.cursor
    }
}

/// Left and Right undo each other: a step left that moves is undone by a step
/// right, and a step right that moves by a step left; they stay put only at
/// the start and the end of the text.
pub proof fn law_left_right_undo_each_other(m: TextModel)
    requires
        m.wf(),
    ensures
        left_pos(m) != m.cursor ==> right_pos(m.with_cursor(left_pos(m))) == m.cursor,
        right_pos(m) != m.cursor ==> left_pos(m.with_cursor(right_pos(m))) == m.cursor,
        left_pos(m) == m.cursor <==> m.cursor == (0int, 0int),
        right_pos(m) == m.cursor <==> m.cursor == (m.lines.len() - 1, m.lines[m.lines.len() - 1].len() as int),
        pos_lt(left_pos(m), m.cursor) || left_pos(m) == m.cursor,
        pos_lt(m.cursor, right_pos(m)) || right_pos(m) == m.cursor,
{
}

/// Up and Down move one line, keeping the column where the line allows:
/// from a column that fits both lines, Down then Up (or Up then Down)
/// returns to the same place.
pub proof fn law_up_down_move_one_line(m: TextModel)
    requires
        m.wf(),
    ensures
        m.cursor.0 > 0 ==> up_pos(m).0 == m.cursor.0 - 1 && up_pos(m).1 <= m.cursor.1,
        m.cursor.0 < m.lines.len() - 1 ==> down_pos(m).0 == m.cursor.0 + 1 && down_pos(m).1 <= m.cursor.1,
        m.cursor.0 < m.lines.len() - 1 && m.cursor.1 <= m.lines[m.cursor.0 + 1].len() ==> up_pos(
            m.with_cursor(down_pos(m)),
        ) == m.cursor,
        m.cursor.0 > 0 && m.cursor.1 <= m.lines[m.cursor.0 - 1].len() ==> down_pos(m.with_cursor(up_pos(m))) == m.cursor,
{
}

pub open spec fn min_int(a: int, b: int) -> int {
    if a <= b {
        a
    } else {
        b
    }
}

/// One line up, keeping the column where the shorter line allows.
pub open spec fn up_pos(m: TextModel) -> TextPos {
    if m.cursor.0 > 0 {
        (m.cursor.0 - 1, min_int(m.cursor.1, m.lines[m.cursor.0 - 1].len() as int))
    } else {
        m.cursor
    }
}

/// One line down, keeping the column where the shorter line allows.
pub open spec fn down_pos(m: TextModel) -> TextPos {
    if m.cursor.0 < m.lines.len() - 1 {
        (m.cursor.0 + 1, min_int(m.cursor.1, m.lines[m.cursor.0 + 1].len() as int))
    } else {
        m.cursor
    }
}

/// Back over whitespace before offset `i`.
pub open spec fn skip_space_back(line: Seq<char>, i: int) -> int
    decreases i,
{
    if i > 0 && i <= line.len() && spec_is_whitespace(line[i - 1]) {
        skip_space_back(line, i - 1)
    } else {
        i
    }
}

/// Back over non-whitespace before offset `i`.
pub open spec fn skip_word_back(line: Seq<char>, i: int) -> int
    decreases i,
{
    if i > 0 && i <= line.len() && !spec_is_whitespace(line[i - 1]) {
        skip_word_back(line, i - 1)
    } else {
        i
    }
}

/// Forward over non-whitespace from offset `i`.
pub open spec fn skip_word_forward(line: Seq<char>, i: int) -> int
    decreases line.len() - i,
{
    if 0 <= i < line.len() && !spec_is_whitespace(line[i]) {
        skip_word_forward(line, i + 1)
    } else {
        i
    }
}

/// Forward over whitespace from offset `i`.
pub open spec fn skip_space_forward(line: Seq<char>, i: int) -> int
    decreases line.len() - i,
{
    if 0 <= i < line.len() && spec_is_whitespace(line[i]) {
        skip_space_forward(line, i + 1)
    } else {
        i
    }
}

/// The start of the word before offset `x`: back over spaces, then over the word.
pub open spec fn word_left_in_line(line: Seq<char>, x: int) -> int {
    skip_word_back(line, skip_space_back(line, x))
}

proof fn lemma_skip_space_back(line: Seq<char>, i: int)
    requires
        0 <= i <= line.len(),
    ensures
        0 <= skip_space_back(line, i) <= i,
        forall|j: int| skip_space_back(line, i) <= j < i ==> spec_is_whitespace(#[trigger] line[j]),
        skip_space_back(line, i) == 0 || !spec_is_whitespace(line[skip_space_back(line, i) - 1]),
    decreases i,
{
    if i > 0 && spec_is_whitespace(line[i - 1]) {
        lemma_skip_space_back(line, i - 1);
    }
}

proof fn lemma_skip_word_back(line: Seq<char>, i: int)
    requires
        0 <= i <= line.len(),
    ensures
        0 <= skip_word_back(line, i) <= i,
        forall|j: int| skip_word_back(line, i) <= j < i ==> !spec_is_whitespace(#[trigger] line[j]),
        skip_word_back(line, i) == 0 || spec_is_whitespace(line[skip_word_back(line, i) - 1]),
    decreases i,
{
    if i > 0 && !spec_is_whitespace(line[i - 1]) {
        lemma_skip_word_back(line, i - 1);
    }
}

/// `line[r..x]` is one word, `line[r..k]`, followed by whitespace only.
pub open spec fn word_then_spaces(line: Seq<char>, r: int, k: int, x: int) -> bool {
    &&& r < k <= x
    &&& forall|j: int| r <= j < k ==> !spec_is_whitespace(#[trigger] line[j])
    &&& forall|j: int| k <= j < x ==> spec_is_whitespace(#[trigger] line[j])
}

/// Ctrl+Left within a line lands on the start of the nearest word before
/// the cursor: strictly left of the cursor whenever a word lies before it,
/// at a word's first character (the line's start or just after whitespace),
/// with only that word and then whitespace up to the cursor; with only
/// whitespace before the cursor, at the line's start.
pub proof fn law_word_left_lands_on_word_start(line: Seq<char>, x: int)
    requires
        0 <= x <= line.len(),
    ensures
        ({
            let r = word_left_in_line(line, x);
            &&& 0 <= r <= x
            &&& (forall|j: int| 0 <= j < x ==> spec_is_whitespace(#[trigger] line[j])) ==> r == 0
            &&& (exists|j: int| 0 <= j < x && !spec_is_whitespace(#[trigger] line[j])) ==> {
                &&& r < x
                &&& !spec_is_whitespace(line[r])
                &&& r == 0 || spec_is_whitespace(line[r - 1])
                &&& exists|k: int| #[trigger] word_then_spaces(line, r, k, x)
            }
        }),
{
    let s = skip_space_back(line, x);
    lemma_skip_space_back(line, x);
    lemma_skip_word_back(line, s);
    let r = skip_word_back(line, s);
    if forall|j: int| 0 <= j < x ==> spec_is_whitespace(#[trigger] line[j]) {
        if s > 0 {
            assert(spec_is_whitespace(line[s - 1]));
        }
    }
    if exists|j: int| 0 <= j < x && !spec_is_whitespace(#[trigger] line[j]) {
        let j = choose|j: int| 0 <= j < x && !spec_is_whitespace(#[trigger] line[j]);
        assert(j < s);
        assert(!spec_is_whitespace(line[s - 1]));
        assert(r < s);
        assert(!spec_is_whitespace(line[r]));
        assert(word_then_spaces(line, r, s, x));
    }
}

proof fn lemma_skip_word_forward(line: Seq<char>, i: int)
    requires
        0 <= i <= line.len(),
    ensures
        i <= skip_word_forward(line, i) <= line.len(),
        forall|j: int| i <= j < skip_word_forward(line, i) ==> !spec_is_whitespace(#[trigger] line[j]),
        skip_word_forward(line, i) == line.len() || spec_is_whitespace(line[skip_word_forward(line, i)]),
    decreases line.len() - i,
{
    if i < line.len() && !spec_is_whitespace(line[i]) {
        lemma_skip_word_forward(line, i + 1);
    }
}

proof fn lemma_skip_space_forward(line: Seq<char>, i: int)
    requires
        0 <= i <= line.len(),
    ensures
        i <= skip_space_forward(line, i) <= line.len(),
        forall|j: int| i <= j < skip_space_forward(line, i) ==> spec_is_whitespace(#[trigger] line[j]),
        skip_space_forward(line, i) == line.len() || !spec_is_whitespace(line[skip_space_forward(line, i)]),
    decreases line.len() - i,
{
    if i < line.len() && spec_is_whitespace(line[i]) {
        lemma_skip_space_forward(line, i + 1);
    }
}

/// Ctrl+Right within a line moves strictly right unless at the line's end,
/// over the rest of the current word and then whitespace only, and stops at
/// the start of the next word (a non-whitespace character just after
/// whitespace) or at the line's end.
pub proof fn law_word_right_lands_on_next_word(line: Seq<char>, x: int)
    requires
        0 <= x <= line.len(),
    ensures
        ({
            let r = word_right_in_line(line, x);
            &&& x <= r <= line.len()
            &&& x < line.len() ==> x < r
            &&& r < line.len() ==> !spec_is_whitespace(line[r]) && spec_is_whitespace(line[r - 1])
            &&& exists|k: int| #[trigger] word_then_spaces_from(line, x, k, r)
        }),
{
    let w = skip_word_forward(line, x);
    lemma_skip_word_forward(line, x);
    lemma_skip_space_forward(line, w);
    let r = skip_space_forward(line, w);
    assert(word_then_spaces_from(line, x, w, r));
}

/// `line[x..r]` is the rest of a word, `line[x..k]`, followed by whitespace
/// only.
pub open spec fn word_then_spaces_from(line: Seq<char>, x: int, k: int, r: int) -> bool {
    &&& x <= k <= r
    &&& forall|j: int| x <= j < k ==> !spec_is_whitespace(#[trigger] line[j])
    &&& forall|j: int| k <= j < r ==> spec_is_whitespace(#[trigger] line[j])
}

/// Past the word at offset `x` and the spaces after it.
pub open spec fn word_right_in_line(line: Seq<char>, x: int) -> int {
    skip_space_forward(line, skip_word_forward(line, x))
}

/// Where Ctrl+Left moves: to the start of the previous word, or one step
/// left from the start of a line.
pub open spec fn word_left_pos(m: TextModel) -> TextPos {
    if m.cursor.1 == 0 {
        left_pos(m)
    } else {
        (m.cursor.0, word_left_in_line(m.line(), m.cursor.1))
    }
}

/// Where Ctrl+Right moves: past the current word, or one step right from the
/// end of a line.
pub open spec fn word_right_pos(m: TextModel) -> TextPos {
    if m.cursor.1 == m.line().len() {
        right_pos(m)
    } else {
        (m.cursor.0, word_right_in_line(m.line(), m.cursor.1))
    }
}

/// Where a word deletion to the left starts: the start of the previous word,
/// reaching into the previous line from the start of a line.
pub open spec fn word_delete_left_pos(m: TextModel) -> TextPos {
    if m.cursor.1 == 0 {
        if m.cursor.0 > 0 {
            let prev = m.lines[m.cursor.0 - 1];
            (m.cursor.0 - 1, word_left_in_line(prev, prev.len() as int))
        } else {
            m.cursor
        }
    } else {
        (m.cursor.0, word_left_in_line(m.line(), m.cursor.1))
    }
}

/// Where a word deletion to the right ends: past the next word, reaching into
/// the next line from the end of a line.
pub open spec fn word_delete_right_pos(m: TextModel) -> TextPos {
    if m.cursor.1 == m.line().len() {
        if m.cursor.0 < m.lines.len() - 1 {
            (m.cursor.0 + 1, word_right_in_line(m.lines[m.cursor.0 + 1], 0))
        } else {
            m.cursor
        }
    } else {
        (m.cursor.0, word_right_in_line(m.line(), m.cursor.1))
    }
}

/// Removes the text from `s` up to `e`, places the cursor at `s`, and drops
/// the selection.
pub open spec fn remove_between(m: TextModel, s: TextPos, e: TextPos) -> TextModel {
    TextModel { lines: delete_range(m.lines, s, e), cursor: s, anchor: None }
}

/// Removes the selected text, if any, leaving the cursor at its start; the
/// selection anchor is dropped either way. The flag tells whether text was
/// removed.
pub open spec fn spec_delete_selection(m: TextModel) -> (bool, TextModel) {
    match selection_range(m) {
        Some((s, e)) => (true, remove_between(m, s, e)),
        None => (false, TextModel { lines: m.lines, cursor: m.cursor, anchor: None }),
    }
}

pub open spec fn spec_backspace(m: TextModel) -> TextModel {
    let (removed, m1) = spec_delete_selection(m);
    if removed {
        m1
    } else {
        remove_between(m1, left_pos(m1), m1.cursor)
    }
}

pub open spec fn spec_delete(m: TextModel) -> TextModel {
    let (removed, m1) = spec_delete_selection(m);
    if removed {
        m1
    } else {
        remove_between(m1, m1.cursor, right_pos(m1))
    }
}

pub open spec fn spec_delete_word_left(m: TextModel) -> TextModel {
    let (removed, m1) = spec_delete_selection(m);
    if removed {
        m1
    } else {
        remove_between(m1, word_delete_left_pos(m1), m1.cursor)
    }
}

pub open spec fn spec_delete_word_right(m: TextModel) -> TextModel {
    let (removed, m1) = spec_delete_selection(m);
    if removed {
        m1
    } else {
        remove_between(m1, m1.cursor, word_delete_right_pos(m1))
    }
}

/// Replaces the selection (if any) and inserts `c` at the cursor.
pub open spec fn spec_insert_char(m: TextModel, c: char) -> TextModel {
    let m1 = spec_delete_selection(m).1;
    let line = m1.line();
    let x = m1.cursor.1;
    TextModel {
        lines: m1.lines.update(m1.cursor.0, line.take(x).push(c) + line.skip(x)),
        cursor: (m1.cursor.0, x + 1),
        anchor: None,
    }
}

/// Replaces the selection (if any) and splits the line at the cursor.
pub open spec fn spec_insert_newline(m: TextModel) -> TextModel {
    let m1 = spec_delete_selection(m).1;
    let line = m1.line();
    let y = m1.cursor.0;
    let x = m1.cursor.1;
    TextModel {
        lines: m1.lines.take(y) + seq![line.take(x), line.skip(x)] + m1.lines.skip(y + 1),
        cursor: (y + 1, 0),
        anchor: None,
    }
}

/// Types `text` at the cursor, one character at a time.
pub open spec fn spec_insert_text(m: TextModel, text: Seq<char>) -> TextModel
    decreases text.len(),
{
    if text.len() == 0 {
        m
    } else {
        let m1 = spec_insert_text(m, text.drop_last());
        if text.last() == '\n' {
            spec_insert_newline(m1)
        } else {
            spec_insert_char(m1, text.last())
        }
    }
}

/// Replaces the selection with `text`.
pub open spec fn spec_paste(m: TextModel, text: Seq<char>) -> TextModel {
    spec_insert_text(spec_delete_selection(m).1, text)
}

/// Selects from the start of the text to its end.
pub open spec fn spec_select_all(m: TextModel) -> TextModel {
    TextModel {
        lines: m.lines,
        cursor: ((m.lines.len() - 1) as int, m.lines[m.lines.len() - 1].len() as int),
        anchor: Some((0, 0)),
    }
}


// ---------------------------------------------------------------------------
// Exec helpers on lines
// ---------------------------------------------------------------------------

/// The lines as sequences of characters.
pub open spec fn lines_view(lines: &Vec<Vec<char>>) -> Seq<Seq<char>> {
    lines.deep_view()
}

proof fn lemma_deep_view_index(lines: &Vec<Vec<char>>, i: int)
    requires
        0 <= i < lines@.len(),
    ensures
        lines.deep_view()[i] == lines@[i]@,
        lines.deep_view().len() == lines@.len(),
{
}

/// Removes the text from `(y1, x1)` up to `(y2, x2)`, joining the two ends.
fn delete_range_exec(lines: &mut Vec<Vec<char>>, y1: usize, x1: usize, y2: usize, x2: usize)
    requires
        valid_pos(old(lines).deep_view(), (y1 as int, x1 as int)),
        valid_pos(old(lines).deep_view(), (y2 as int, x2 as int)),
        pos_le((y1 as int, x1 as int), (y2 as int, x2 as int)),
    ensures
        final(lines).deep_view() == delete_range(old(lines).deep_view(), (y1 as int, x1 as int), (y2 as int, x2 as int)),
{
    let ghost orig = lines.deep_view();
    let ghost orig_v = lines@;
    let n = lines.len();
    assert(orig.len() == n);
    let mut after = lines.split_off(y2 + 1);
    let mut last = match lines.pop() {
        Some(l) => l,
        None => Vec::new(),
    };
    assert(last@ == orig_v[y2 as int]@);
    let mut rest = last.split_off(x2);
    let mut head = if y1 == y2 {
        last
    } else {
        lines.truncate(y1 + 1);
        match lines.pop() {
            Some(l) => l,
            None => Vec::new(),
        }
    };
    assert(head@.take(x1 as int) == orig[y1 as int].take(x1 as int));
    head.truncate(x1);
    head.append(&mut rest);
    lines.push(head);
    lines.append(&mut after);
    proof {
        let expected = delete_range(orig, (y1 as int, x1 as int), (y2 as int, x2 as int));
        assert(lines.deep_view().len() == expected.len());
        assert forall|i: int| 0 <= i < expected.len() implies lines.deep_view()[i] == expected[i] by {
            if i < y1 {
                assert(lines@[i] == orig_v[i]);
            } else if i == y1 {
            } else {
                assert(lines@[i] == orig_v[i + (y2 - y1)]);
            }
        }
        assert(lines.deep_view() =~= expected);
    }
}


/// Inserts `c` at `(y, x)`.
fn insert_char_exec(lines: &mut Vec<Vec<char>>, y: usize, x: usize, c: char)
    requires
        valid_pos(old(lines).deep_view(), (y as int, x as int)),
    ensures
        final(lines).deep_view() == old(lines).deep_view().update(
            y as int,
            old(lines).deep_view()[y as int].take(x as int).push(c) + old(lines).deep_view()[y as int].skip(x as int),
        ),
{
    let ghost orig = lines.deep_view();
    let ghost orig_v = lines@;
    let n = lines.len();
    assert(orig.len() == n);
    let mut after = lines.split_off(y + 1);
    let mut line = match lines.pop() {
        Some(l) => l,
        None => Vec::new(),
    };
    assert(line@ == orig[y as int]);
    line.insert(x, c);
    lines.push(line);
    lines.append(&mut after);
    proof {
        let expected = orig.update(y as int, orig[y as int].take(x as int).push(c) + orig[y as int].skip(x as int));
        assert forall|i: int| 0 <= i < expected.len() implies lines.deep_view()[i] == expected[i] by {
            if i == y {
                assert(lines@[i]@ =~= expected[i]);
            } else {
                assert(lines@[i] == orig_v[i]);
            }
        }
        assert(lines.deep_view() =~= expected);
    }
}

/// Splits line `y` at offset `x`.
fn split_line_exec(lines: &mut Vec<Vec<char>>, y: usize, x: usize)
    requires
        valid_pos(old(lines).deep_view(), (y as int, x as int)),
    ensures
        final(lines).deep_view() == old(lines).deep_view().take(y as int) + seq![
            old(lines).deep_view()[y as int].take(x as int),
            old(lines).deep_view()[y as int].skip(x as int),
        ] + old(lines).deep_view().skip(y + 1),
{
    let ghost orig = lines.deep_view();
    let ghost orig_v = lines@;
    let n = lines.len();
    assert(orig.len() == n);
    let mut after = lines.split_off(y + 1);
    let mut line = match lines.pop() {
        Some(l) => l,
        None => Vec::new(),
    };
    assert(line@ == orig[y as int]);
    let rest = line.split_off(x);
    lines.push(line);
    lines.push(rest);
    lines.append(&mut after);
    proof {
        let expected = orig.take(y as int) + seq![orig[y as int].take(x as int), orig[y as int].skip(x as int)] + orig.skip(y + 1);
        assert forall|i: int| 0 <= i < expected.len() implies lines.deep_view()[i] == expected[i] by {
            if i < y {
                assert(lines@[i] == orig_v[i]);
            } else if i > y + 1 {
                assert(lines@[i] == orig_v[i - 1]);
            }
        }
        assert(lines.deep_view() =~= expected);
    }
}

fn word_left_index(line: &Vec<char>, x: usize) -> (r: usize)
    requires
        x <= line@.len(),
    ensures
        r == word_left_in_line(line@, x as int),
        r <= x,
{
    let mut i = x;
    while i > 0 && is_whitespace(line[i - 1])
        invariant
            i <= x <= line@.len(),
            skip_space_back(line@, i as int) == skip_space_back(line@, x as int),
        decreases i,
    {
        i -= 1;
    }
    let ghost s = i;
    while i > 0 && !is_whitespace(line[i - 1])
        invariant
            i <= s <= x <= line@.len(),
            s == skip_space_back(line@, x as int),
            skip_word_back(line@, i as int) == skip_word_back(line@, s as int),
        decreases i,
    {
        i -= 1;
    }
    i
}

fn word_right_index(line: &Vec<char>, x: usize) -> (r: usize)
    requires
        x <= line@.len(),
    ensures
        r == word_right_in_line(line@, x as int),
        x <= r <= line@.len(),
{
    let len = line.len();
    let mut i = x;
    while i < len && !is_whitespace(line[i])
        invariant
            x <= i <= len,
            len == line@.len(),
            skip_word_forward(line@, i as int) == skip_word_forward(line@, x as int),
        decreases len - i,
    {
        i += 1;
    }
    let ghost s = i;
    while i < len && is_whitespace(line[i])
        invariant
            x <= s <= i <= len,
            len == line@.len(),
            s == skip_word_forward(line@, x as int),
            skip_space_forward(line@, i as int) == skip_space_forward(line@, s as int),
        decreases len - i,
    {
        i += 1;
    }
    i
}

// ---------------------------------------------------------------------------
// The textbox component state
// ---------------------------------------------------------------------------

/// Languages a textbox can be pinned to; `Auto` detects it.
#[derive(Clone, Copy, Debug, PartialEq, Eq, Structural, Hash)]
pub enum TextBoxLanguage {
    Auto,
    PlainText,
    Rust,
    Markdown,
    Json,
    Toml,
    Yaml,
    Shell,
}

/// The observable state of a textbox that key handling changes.
pub struct TextBoxView {
    pub model: TextModel,
    pub read_only: bool,
    pub selected: bool,
    pub focused: bool,
    /// The clipboard contents as last provided, or `None` when no clipboard
    /// is available.
    pub clipboard: Option<Seq<char>>,
    /// Text copied and not yet written to the system clipboard.
    pub pending_copy: Option<Seq<char>>,
}

/// A multi-line text editor: lines of text, a cursor, an optional selection,
/// and the selected / focused flags of navigation.
pub struct TextBoxState {
    title: String,
    lines: Vec<Vec<char>>,
    cursor_y: usize,
    cursor_x: usize,
    scroll_y: usize,
    scroll_x: usize,
    selection_start: Option<(usize, usize)>,
    show_line_numbers: bool,
    read_only: bool,
    path_hint: Option<String>,
    language: TextBoxLanguage,
    clipboard: Option<String>,
    pending_copy: Option<String>,
    is_selected: FocusState,
    is_focused: FocusState,
}

pub open spec fn opt_pos(p: Option<(usize, usize)>) -> Option<TextPos> {
    match p {
        Some((y, x)) => Some((y as int, x as int)),
        None => None,
    }
}

pub open spec fn opt_text(s: Option<String>) -> Option<Seq<char>> {
    match s {
        Some(t) => Some(t@),
        None => None,
    }
}

impl View for TextBoxState {
    type V = TextBoxView;

    closed spec fn view(&self) -> TextBoxView {
        TextBoxView {
            model: TextModel {
                lines: self.lines.deep_view(),
                cursor: (self.cursor_y as int, self.cursor_x as int),
                anchor: opt_pos(self.selection_start),
            },
            read_only: self.read_only,
            selected: self.is_selected@,
            focused: self.is_focused@,
            clipboard: opt_text(self.clipboard),
            pending_copy: opt_text(self.pending_copy),
        }
    }
}

/// Settings that editing leaves alone: title, scroll offsets, gutter, path
/// hint and language.
pub struct TextBoxSettings {
    pub title: Seq<char>,
    pub scroll: (int, int),
    pub show_line_numbers: bool,
    pub path_hint: Option<Seq<char>>,
    pub language: TextBoxLanguage,
}

impl TextBoxState {
    /// The text, cursor and selection anchor.
    pub open spec fn model(&self) -> TextModel {
        self@.model
    }

    pub closed spec fn settings(&self) -> TextBoxSettings {
        TextBoxSettings {
            title: self.title@,
            scroll: (self.scroll_y as int, self.scroll_x as int),
            show_line_numbers: self.show_line_numbers,
            path_hint: opt_text(self.path_hint),
            language: self.language,
        }
    }

    /// The state is consistent: the model is well formed and a focused box is
    /// selected.
    pub open spec fn wf(&self) -> bool {
        &&& self.model().wf()
        &&& (self@.focused ==> self@.selected)
    }
}


/// Moves the cursor to `target`; with Shift the selection is anchored at the
/// old cursor first, and with `clear` the selection is dropped.
pub open spec fn spec_move_cursor(m: TextModel, shift: bool, clear: bool, target: TextPos) -> TextModel {
    let anchored = if shift && m.anchor is None { Some(m.cursor) } else { m.anchor };
    TextModel { lines: m.lines, cursor: target, anchor: if clear { None } else { anchored } }
}

pub open spec fn with_model(v: TextBoxView, m: TextModel) -> TextBoxView {
    TextBoxView {
        model: m,
        read_only: v.read_only,
        selected: v.selected,
        focused: v.focused,
        clipboard: v.clipboard,
        pending_copy: v.pending_copy,
    }
}

/// Copies the selection to the clipboard, when there is a selection and a
/// clipboard.
pub open spec fn spec_copy(v: TextBoxView) -> TextBoxView {
    match selected_text(v.model) {
        Some(t) => if v.clipboard is Some {
            TextBoxView {
                model: v.model,
                read_only: v.read_only,
                selected: v.selected,
                focused: v.focused,
                clipboard: Some(t),
                pending_copy: Some(t),
            }
        } else {
            v
        },
        None => v,
    }
}

/// Copies the selection, then removes it.
pub open spec fn spec_cut(v: TextBoxView) -> TextBoxView {
    let v1 = spec_copy(v);
    with_model(v1, spec_delete_selection(v1.model).1)
}

/// Replaces the selection with the clipboard text, when there is a clipboard.
pub open spec fn spec_paste_clipboard(v: TextBoxView) -> TextBoxView {
    match v.clipboard {
        Some(t) => with_model(v, spec_paste(v.model, t)),
        None => v,
    }
}

pub open spec fn is_movement(code: KeyCode) -> bool {
    code == KeyCode::Left || code == KeyCode::Right || code == KeyCode::Up || code == KeyCode::Down
        || code == KeyCode::Home || code == KeyCode::End
}

/// Where a movement key sends the cursor (`word`: Ctrl or Alt held).
pub open spec fn movement_target(m: TextModel, code: KeyCode, word: bool) -> TextPos {
    if code == KeyCode::Left {
        if word { word_left_pos(m) } else { left_pos(m) }
    } else if code == KeyCode::Right {
        if word { word_right_pos(m) } else { right_pos(m) }
    } else if code == KeyCode::Up {
        up_pos(m)
    } else if code == KeyCode::Down {
        down_pos(m)
    } else if code == KeyCode::Home {
        (m.cursor.0, 0)
    } else {
        (m.cursor.0, m.line().len() as int)
    }
}

/// What a key does to a focused textbox (Escape aside): clipboard commands,
/// movement (extending the selection with Shift), and edits unless read-only.
pub open spec fn spec_edit_key(v: TextBoxView, key: KeyEvent) -> (bool, TextBoxView) {
    let ctrl = key.modifiers.control;
    let shift = key.modifiers.shift;
    let word = ctrl || key.modifiers.alt;
    let ro = v.read_only;
    let m = v.model;
    if key.code == KeyCode::Char('c') && ctrl {
        (true, spec_copy(v))
    } else if key.code == KeyCode::Char('a') && ctrl {
        (true, with_model(v, spec_select_all(m)))
    } else if key.code == KeyCode::Char('x') && ctrl && !ro {
        (true, spec_cut(v))
    } else if key.code == KeyCode::Char('v') && ctrl && !ro {
        (true, spec_paste_clipboard(v))
    } else if is_movement(key.code) {
        (true, with_model(v, spec_move_cursor(m, shift, !shift && !ctrl, movement_target(m, key.code, word))))
    } else if key.code == KeyCode::Enter && !ro {
        (true, with_model(v, spec_insert_newline(m)))
    } else if (key.code == KeyCode::Backspace || key.code == KeyCode::Char('h')) && ctrl && !ro {
        (true, with_model(v, spec_delete_word_left(m)))
    } else if key.code == KeyCode::Backspace && !ro {
        (true, with_model(v, spec_backspace(m)))
    } else if key.code == KeyCode::Delete && !ro {
        (true, with_model(v, if ctrl { spec_delete_word_right(m) } else { spec_delete(m) }))
    } else if key.code is Char && !ctrl && !ro {
        (true, with_model(v, spec_insert_char(m, key.code->Char_0)))
    } else {
        (false, v)
    }
}

/// What a key event does to a textbox and whether it was consumed: releases
/// are ignored; an unfocused box only reacts to Enter, which focuses it;
/// Escape leaves editing; other keys edit.
pub open spec fn spec_handle_event(v: TextBoxView, key: KeyEvent) -> (bool, TextBoxView) {
    if key.kind == KeyEventKind::Release {
        (false, v)
    } else if !v.focused {
        if key.code == KeyCode::Enter {
            (true, TextBoxView {
                model: v.model,
                read_only: v.read_only,
                selected: true,
                focused: true,
                clipboard: v.clipboard,
                pending_copy: v.pending_copy,
            })
        } else {
            (false, v)
        }
    } else if key.code == KeyCode::Esc {
        (true, TextBoxView {
            model: v.model,
            read_only: v.read_only,
            selected: v.selected,
            focused: false,
            clipboard: v.clipboard,
            pending_copy: v.pending_copy,
        })
    } else {
        spec_edit_key(v, key)
    }
}


/// Removing a span between two valid positions leaves a well-formed model.
pub proof fn lemma_remove_between_wf(m: TextModel, s: TextPos, e: TextPos)
    requires
        m.wf(),
        valid_pos(m.lines, s),
        valid_pos(m.lines, e),
        pos_le(s, e),
    ensures
        remove_between(m, s, e).wf(),
        remove_between(m, s, e).lines.len() == m.lines.len() - (e.0 - s.0),
        remove_between(m, s, e).lines[s.0] == m.lines[s.0].take(s.1) + m.lines[e.0].skip(e.1),
{
    let r = remove_between(m, s, e);
    assert(r.lines[s.0] == m.lines[s.0].take(s.1) + m.lines[e.0].skip(e.1));
}

/// The movement targets stay inside the text.
pub proof fn lemma_targets_valid(m: TextModel)
    requires
        m.wf(),
    ensures
        valid_pos(m.lines, left_pos(m)),
        valid_pos(m.lines, right_pos(m)),
        valid_pos(m.lines, up_pos(m)),
        valid_pos(m.lines, down_pos(m)),
        pos_le(left_pos(m), m.cursor),
        pos_le(m.cursor, right_pos(m)),
{
}

impl TextBoxState {
    /// Everything besides the text model that editing leaves alone.
    pub open spec fn frame(&self) -> (TextBoxSettings, bool, bool, bool) {
        (self.settings(), self@.read_only, self@.selected, self@.focused)
    }

    fn line_len(&self, y: usize) -> (n: usize)
        requires
            y < self.model().lines.len(),
        ensures
            n == self.model().lines[y as int].len(),
    {
        proof {
            lemma_deep_view_index(&self.lines, y as int);
        }
        self.lines[y].len()
    }

    fn num_lines(&self) -> (n: usize)
        ensures
            n == self.model().lines.len(),
    {
        self.lines.len()
    }

    fn left_target(&self) -> (p: (usize, usize))
        requires
            self.model().wf(),
        ensures
            (p.0 as int, p.1 as int) == left_pos(self.model()),
    {
        let y = self.cursor_y;
        let x = self.cursor_x;
        if x > 0 {
            (y, x - 1)
        } else if y > 0 {
            (y - 1, self.line_len(y - 1))
        } else {
            (y, x)
        }
    }

    fn right_target(&self) -> (p: (usize, usize))
        requires
            self.model().wf(),
        ensures
            (p.0 as int, p.1 as int) == right_pos(self.model()),
    {
        let y = self.cursor_y;
        let x = self.cursor_x;
        if x < self.line_len(y) {
            (y, x + 1)
        } else if y < self.num_lines() - 1 {
            (y + 1, 0)
        } else {
            (y, x)
        }
    }

    fn up_target(&self) -> (p: (usize, usize))
        requires
            self.model().wf(),
        ensures
            (p.0 as int, p.1 as int) == up_pos(self.model()),
    {
        let y = self.cursor_y;
        let x = self.cursor_x;
        if y > 0 {
            let n = self.line_len(y - 1);
            (y - 1, if x <= n { x } else { n })
        } else {
            (y, x)
        }
    }

    fn down_target(&self) -> (p: (usize, usize))
        requires
            self.model().wf(),
        ensures
            (p.0 as int, p.1 as int) == down_pos(self.model()),
    {
        let y = self.cursor_y;
        let x = self.cursor_x;
        if y < self.num_lines() - 1 {
            let n = self.line_len(y + 1);
            (y + 1, if x <= n { x } else { n })
        } else {
            (y, x)
        }
    }

    fn word_left_target(&self) -> (p: (usize, usize))
        requires
            self.model().wf(),
        ensures
            (p.0 as int, p.1 as int) == word_left_pos(self.model()),
            valid_pos(self.model().lines, (p.0 as int, p.1 as int)),
    {
        proof {
            lemma_deep_view_index(&self.lines, self.cursor_y as int);
            lemma_targets_valid(self.model());
        }
        if self.cursor_x == 0 {
            self.left_target()
        } else {
            (self.cursor_y, word_left_index(&self.lines[self.cursor_y], self.cursor_x))
        }
    }

    fn word_right_target(&self) -> (p: (usize, usize))
        requires
            self.model().wf(),
        ensures
            (p.0 as int, p.1 as int) == word_right_pos(self.model()),
            valid_pos(self.model().lines, (p.0 as int, p.1 as int)),
    {
        proof {
            lemma_deep_view_index(&self.lines, self.cursor_y as int);
            lemma_targets_valid(self.model());
        }
        if self.cursor_x == self.line_len(self.cursor_y) {
            self.right_target()
        } else {
            (self.cursor_y, word_right_index(&self.lines[self.cursor_y], self.cursor_x))
        }
    }

    fn word_delete_left_target(&self) -> (p: (usize, usize))
        requires
            self.model().wf(),
        ensures
            (p.0 as int, p.1 as int) == word_delete_left_pos(self.model()),
            valid_pos(self.model().lines, (p.0 as int, p.1 as int)),
            pos_le((p.0 as int, p.1 as int), self.model().cursor),
    {
        let y = self.cursor_y;
        proof {
            lemma_deep_view_index(&self.lines, y as int);
        }
        if self.cursor_x == 0 {
            if y > 0 {
                proof {
                    lemma_deep_view_index(&self.lines, y - 1);
                }
                let n = self.line_len(y - 1);
                (y - 1, word_left_index(&self.lines[y - 1], n))
            } else {
                (y, 0)
            }
        } else {
            (y, word_left_index(&self.lines[y], self.cursor_x))
        }
    }

    fn word_delete_right_target(&self) -> (p: (usize, usize))
        requires
            self.model().wf(),
        ensures
            (p.0 as int, p.1 as int) == word_delete_right_pos(self.model()),
            valid_pos(self.model().lines, (p.0 as int, p.1 as int)),
            pos_le(self.model().cursor, (p.0 as int, p.1 as int)),
    {
        let y = self.cursor_y;
        proof {
            lemma_deep_view_index(&self.lines, y as int);
        }
        if self.cursor_x == self.line_len(y) {
            if y < self.num_lines() - 1 {
                proof {
                    lemma_deep_view_index(&self.lines, y + 1);
                }
                (y + 1, word_right_index(&self.lines[y + 1], 0))
            } else {
                (y, self.cursor_x)
            }
        } else {
            (y, word_right_index(&self.lines[y], self.cursor_x))
        }
    }

    /// Removes the text from `s` up to `e` and places the cursor at `s`.
    fn remove_range(&mut self, s: (usize, usize), e: (usize, usize))
        requires
            old(self).model().wf(),
            valid_pos(old(self).model().lines, (s.0 as int, s.1 as int)),
            valid_pos(old(self).model().lines, (e.0 as int, e.1 as int)),
            pos_le((s.0 as int, s.1 as int), (e.0 as int, e.1 as int)),
        ensures
            final(self).model() == remove_between(old(self).model(), (s.0 as int, s.1 as int), (e.0 as int, e.1 as int)),
            final(self).model().wf(),
            final(self).frame() == old(self).frame(),
            final(self).clipboard == old(self).clipboard,
            final(self).pending_copy == old(self).pending_copy,
    {
        proof {
            lemma_remove_between_wf(self.model(), (s.0 as int, s.1 as int), (e.0 as int, e.1 as int));
        }
        delete_range_exec(&mut self.lines, s.0, s.1, e.0, e.1);
        self.cursor_y = s.0;
        self.cursor_x = s.1;
        self.selection_start = None;
    }

    /// The selected span in reading order, or `None` when nothing is selected.
    pub fn get_normalized_selection(&self) -> (r: Option<((usize, usize), (usize, usize))>)
        ensures
            match r {
                Some((s, e)) => selection_range(self.model()) == Some(((s.0 as int, s.1 as int), (e.0 as int, e.1 as int))),
                None => selection_range(self.model()) is None,
            },
    {
        let start = match self.selection_start {
            Some(p) => p,
            None => {
                return None;
            },
        };
        let end = (self.cursor_y, self.cursor_x);
        if start.0 == end.0 && start.1 == end.1 {
            return None;
        }
        if start.0 < end.0 || (start.0 == end.0 && start.1 < end.1) {
            Some((start, end))
        } else {
            Some((end, start))
        }
    }

    fn delete_selection(&mut self) -> (removed: bool)
        requires
            old(self).model().wf(),
        ensures
            (removed, final(self).model()) == spec_delete_selection(old(self).model()),
            final(self).model().wf(),
            final(self).frame() == old(self).frame(),
            final(self).clipboard == old(self).clipboard,
            final(self).pending_copy == old(self).pending_copy,
    {
        match self.get_normalized_selection() {
            Some((s, e)) => {
                self.remove_range(s, e);
                true
            },
            None => {
                self.selection_start = None;
                false
            },
        }
    }

    fn insert_char(&mut self, c: char)
        requires
            old(self).model().wf(),
        ensures
            final(self).model() == spec_insert_char(old(self).model(), c),
            final(self).model().wf(),
            final(self).frame() == old(self).frame(),
            final(self).clipboard == old(self).clipboard,
            final(self).pending_copy == old(self).pending_copy,
    {
        self.delete_selection();
        let y = self.cursor_y;
        let x = self.cursor_x;
        proof {
            lemma_deep_view_index(&self.lines, y as int);
        }
        insert_char_exec(&mut self.lines, y, x, c);
        let n = self.line_len(y);
        assert(x < n);
        self.cursor_x = x + 1;
    }

    fn insert_newline(&mut self)
        requires
            old(self).model().wf(),
        ensures
            final(self).model() == spec_insert_newline(old(self).model()),
            final(self).model().wf(),
            final(self).frame() == old(self).frame(),
            final(self).clipboard == old(self).clipboard,
            final(self).pending_copy == old(self).pending_copy,
    {
        self.delete_selection();
        let y = self.cursor_y;
        let x = self.cursor_x;
        split_line_exec(&mut self.lines, y, x);
        let n = self.num_lines();
        assert(y + 1 < n);
        self.cursor_y = y + 1;
        self.cursor_x = 0;
    }

    fn backspace(&mut self)
        requires
            old(self).model().wf(),
        ensures
            final(self).model() == spec_backspace(old(self).model()),
            final(self).model().wf(),
            final(self).frame() == old(self).frame(),
            final(self).clipboard == old(self).clipboard,
            final(self).pending_copy == old(self).pending_copy,
    {
        if self.delete_selection() {
            return;
        }
        proof {
            lemma_targets_valid(self.model());
        }
        let s = self.left_target();
        let e = (self.cursor_y, self.cursor_x);
        self.remove_range(s, e);
    }

    fn delete(&mut self)
        requires
            old(self).model().wf(),
        ensures
            final(self).model() == spec_delete(old(self).model()),
            final(self).model().wf(),
            final(self).frame() == old(self).frame(),
            final(self).clipboard == old(self).clipboard,
            final(self).pending_copy == old(self).pending_copy,
    {
        if self.delete_selection() {
            return;
        }
        proof {
            lemma_targets_valid(self.model());
        }
        let s = (self.cursor_y, self.cursor_x);
        let e = self.right_target();
        self.remove_range(s, e);
    }

    fn delete_word_left(&mut self)
        requires
            old(self).model().wf(),
        ensures
            final(self).model() == spec_delete_word_left(old(self).model()),
            final(self).model().wf(),
            final(self).frame() == old(self).frame(),
            final(self).clipboard == old(self).clipboard,
            final(self).pending_copy == old(self).pending_copy,
    {
        if self.delete_selection() {
            return;
        }
        let s = self.word_delete_left_target();
        let e = (self.cursor_y, self.cursor_x);
        self.remove_range(s, e);
    }

    fn delete_word_right(&mut self)
        requires
            old(self).model().wf(),
        ensures
            final(self).model() == spec_delete_word_right(old(self).model()),
            final(self).model().wf(),
            final(self).frame() == old(self).frame(),
            final(self).clipboard == old(self).clipboard,
            final(self).pending_copy == old(self).pending_copy,
    {
        if self.delete_selection() {
            return;
        }
        let s = (self.cursor_y, self.cursor_x);
        let e = self.word_delete_right_target();
        self.remove_range(s, e);
    }
}


/// The text of `lines` from `s` up to `e`.
fn text_between_exec(lines: &Vec<Vec<char>>, s: (usize, usize), e: (usize, usize)) -> (t: Vec<char>)
    requires
        valid_pos(lines.deep_view(), (s.0 as int, s.1 as int)),
        valid_pos(lines.deep_view(), (e.0 as int, e.1 as int)),
        pos_le((s.0 as int, s.1 as int), (e.0 as int, e.1 as int)),
    ensures
        t@ == text_between(lines.deep_view(), (s.0 as int, s.1 as int), (e.0 as int, e.1 as int)),
{
    let ghost lv = lines.deep_view();
    proof {
        lemma_deep_view_index(lines, s.0 as int);
        lemma_deep_view_index(lines, e.0 as int);
    }
    let mut out: Vec<char> = Vec::new();
    if s.0 == e.0 {
        let line = &lines[s.0];
        let mut x: usize = s.1;
        while x < e.1
            invariant
                s.1 <= x <= e.1 <= line@.len(),
                out@ == line@.subrange(s.1 as int, x as int),
            decreases e.1 - x,
        {
            out.push(line[x]);
            x += 1;
            proof {
                assert(out@ =~= line@.subrange(s.1 as int, x as int));
            }
        }
        return out;
    }
    let first = &lines[s.0];
    let mut x: usize = s.1;
    while x < first.len()
        invariant
            s.1 <= x <= first@.len(),
            out@ == first@.subrange(s.1 as int, x as int),
        decreases first@.len() - x,
    {
        out.push(first[x]);
        x += 1;
        proof {
            assert(out@ =~= first@.subrange(s.1 as int, x as int));
        }
    }
    out.push('\n');
    let ghost head = out@;
    assert(head == lv[s.0 as int].skip(s.1 as int) + seq!['\n']);
    let mut i: usize = s.0 + 1;
    while i < e.0
        invariant
            s.0 + 1 <= i <= e.0 < lines@.len(),
            lv == lines.deep_view(),
            out@ == head + lines_with_newlines(lv, s.0 + 1, i as int),
        decreases e.0 - i,
    {
        proof {
            lemma_deep_view_index(lines, i as int);
        }
        let line = &lines[i];
        let ghost before = out@;
        let mut x: usize = 0;
        while x < line.len()
            invariant
                0 <= x <= line@.len(),
                out@ == before + line@.take(x as int),
            decreases line@.len() - x,
        {
            out.push(line[x]);
            x += 1;
            proof {
                assert(out@ =~= before + line@.take(x as int));
            }
        }
        out.push('\n');
        i += 1;
        proof {
            assert(line@.take(line@.len() as int) =~= line@);
            assert(out@ =~= head + lines_with_newlines(lv, s.0 + 1, i as int));
        }
    }
    let last = &lines[e.0];
    let ghost before = out@;
    let mut x: usize = 0;
    while x < e.1
        invariant
            0 <= x <= e.1 <= last@.len(),
            out@ == before + last@.take(x as int),
        decreases e.1 - x,
    {
        out.push(last[x]);
        x += 1;
        proof {
            assert(out@ =~= before + last@.take(x as int));
        }
    }
    proof {
        assert(out@ =~= text_between(lv, (s.0 as int, s.1 as int), (e.0 as int, e.1 as int)));
    }
    out
}

/// The lines to start from: those of the text, or one empty line.
pub open spec fn initial_lines(text: Seq<char>) -> Seq<Seq<char>> {
    if str_lines(text).len() == 0 {
        seq![Seq::<char>::empty()]
    } else {
        str_lines(text)
    }
}

/// Creates a textbox holding `initial_text`, split into lines as `str::lines`
/// does (one empty line for empty text), with the cursor at the start,
/// nothing selected, line numbers shown and editing allowed.
pub fn use_textbox(initial_text: &str) -> (t: TextBoxState)
    ensures
        t.wf(),
        t.model().lines == initial_lines(initial_text@),
        t.model().cursor == (0int, 0int),
        t.model().anchor is None,
        t.settings().title == "textbox"@,
        t.settings().scroll == (0int, 0int),
        t.settings().show_line_numbers,
        t.settings().path_hint is None,
        t.settings().language == TextBoxLanguage::Auto,
        !t@.read_only,
        !t@.selected,
        !t@.focused,
        t@.clipboard is None,
        t@.pending_copy is None,
{
    let mut lines = split_lines(initial_text);
    if lines.len() == 0 {
        let ghost before = lines;
        let empty: Vec<char> = Vec::new();
        let ghost empty_view = empty;
        lines.push(empty);
        proof {
            lemma_deep_view_push(before, lines, empty_view);
            assert(lines.deep_view() =~= seq![Seq::<char>::empty()]);
        }
    }
    proof {
        lemma_deep_view_index(&lines, 0);
    }
    TextBoxState {
        title: String::from_str("textbox"),
        lines,
        cursor_y: 0,
        cursor_x: 0,
        scroll_y: 0,
        scroll_x: 0,
        selection_start: None,
        show_line_numbers: true,
        read_only: false,
        path_hint: None,
        language: TextBoxLanguage::Auto,
        clipboard: None,
        pending_copy: None,
        is_selected: use_focus(false),
        is_focused: use_focus(false),
    }
}

/// The scroll offset that keeps `cursor` inside a window of `extent` cells
/// starting at `scroll`.
pub open spec fn follow_cursor(cursor: int, scroll: int, extent: int) -> int {
    if cursor < scroll {
        cursor
    } else if extent > 0 && cursor >= scroll + extent {
        cursor - extent + 1
    } else {
        scroll
    }
}

fn follow_cursor_exec(cursor: usize, scroll: usize, extent: usize) -> (r: usize)
    ensures
        r == follow_cursor(cursor as int, scroll as int, extent as int),
{
    if cursor < scroll {
        cursor
    } else if extent > 0 && cursor - scroll >= extent {
        cursor - extent + 1
    } else {
        scroll
    }
}

/// Width of the line-number gutter.
pub open spec fn gutter_width(show_line_numbers: bool) -> int {
    if show_line_numbers {
        4
    } else {
        0
    }
}

impl TextBoxState {
    /// The lines of text.
    pub fn lines(&self) -> (r: Vec<String>)
        ensures
            r@.len() == self.model().lines.len(),
            forall|i: int| 0 <= i < r@.len() ==> #[trigger] r@[i]@ == self.model().lines[i],
    {
        let mut r: Vec<String> = Vec::new();
        let mut i: usize = 0;
        while i < self.lines.len()
            invariant
                0 <= i <= self.lines@.len(),
                r@.len() == i,
                forall|j: int| 0 <= j < i ==> #[trigger] r@[j]@ == self.model().lines[j],
            decreases self.lines@.len() - i,
        {
            proof {
                lemma_deep_view_index(&self.lines, i as int);
            }
            r.push(string_from_chars(&self.lines[i]));
            i += 1;
        }
        r
    }

    /// Replaces the text (an empty list gives one empty line), keeps the
    /// cursor where the new text allows, and drops the selection.
    pub fn set_lines(&mut self, lines: Vec<String>)
        requires
            old(self).wf(),
        ensures
            final(self).wf(),
            final(self).model().lines == (if lines@.len() == 0 { seq![Seq::<char>::empty()] } else { lines@.map_values(|l: String| l@) }),
            final(self).model().cursor.0 == min_int(old(self).model().cursor.0, final(self).model().lines.len() - 1),
            final(self).model().cursor.1 == min_int(old(self).model().cursor.1, final(self).model().lines[final(self).model().cursor.0].len() as int),
            final(self).model().anchor is None,
            final(self).frame() == old(self).frame(),
            final(self)@.clipboard == old(self)@.clipboard,
            final(self)@.pending_copy == old(self)@.pending_copy,
    {
        let mut new_lines: Vec<Vec<char>> = Vec::new();
        let mut i: usize = 0;
        while i < lines.len()
            invariant
                0 <= i <= lines@.len(),
                new_lines.deep_view() == lines@.take(i as int).map_values(|l: String| l@),
            decreases lines@.len() - i,
        {
            let ghost before = new_lines;
            let line = chars_of(lines[i].as_str());
            new_lines.push(line);
            proof {
                lemma_deep_view_push(before, new_lines, line);
                assert(lines@.take(i + 1).map_values(|l: String| l@) =~= lines@.take(i as int).map_values(|l: String| l@).push(lines@[i as int]@));
            }
            i += 1;
        }
        proof {
            assert(lines@.take(lines@.len() as int) =~= lines@);
        }
        if new_lines.len() == 0 {
            let ghost before = new_lines;
            let empty: Vec<char> = Vec::new();
            let ghost empty_view = empty;
            new_lines.push(empty);
            proof {
                lemma_deep_view_push(before, new_lines, empty_view);
                assert(new_lines.deep_view() =~= seq![Seq::<char>::empty()]);
            }
        }
        self.lines = new_lines;
        let last = self.num_lines() - 1;
        let y = if self.cursor_y <= last { self.cursor_y } else { last };
        let n = self.line_len(y);
        let x = if self.cursor_x <= n { self.cursor_x } else { n };
        self.cursor_y = y;
        self.cursor_x = x;
        self.selection_start = None;
    }

    /// Moves the cursor to `(y, x)`, clamped into the text.
    pub fn set_cursor(&mut self, y: usize, x: usize)
        requires
            old(self).wf(),
        ensures
            final(self).wf(),
            final(self).model().lines == old(self).model().lines,
            final(self).model().anchor == old(self).model().anchor,
            final(self).model().cursor.0 == min_int(y as int, old(self).model().lines.len() - 1),
            final(self).model().cursor.1 == min_int(x as int, old(self).model().lines[final(self).model().cursor.0].len() as int),
            final(self).frame() == old(self).frame(),
            final(self)@.clipboard == old(self)@.clipboard,
            final(self)@.pending_copy == old(self)@.pending_copy,
    {
        let last = self.num_lines() - 1;
        let y = if y <= last { y } else { last };
        let n = self.line_len(y);
        let x = if x <= n { x } else { n };
        self.cursor_y = y;
        self.cursor_x = x;
    }

    /// The cursor as (line, column).
    pub fn cursor(&self) -> (p: (usize, usize))
        ensures
            (p.0 as int, p.1 as int) == self.model().cursor,
    {
        (self.cursor_y, self.cursor_x)
    }

    /// The scroll offsets as (first visible line, first visible column).
    pub fn scroll(&self) -> (p: (usize, usize))
        ensures
            (p.0 as int, p.1 as int) == self.settings().scroll,
    {
        (self.scroll_y, self.scroll_x)
    }

    pub fn title(&self) -> (t: String)
        ensures
            t@ == self.settings().title,
    {
        self.title.clone()
    }

    pub fn set_title(&mut self, title: &str)
        ensures
            final(self).settings().title == title@,
            final(self).settings().scroll == old(self).settings().scroll,
            final(self).settings().show_line_numbers == old(self).settings().show_line_numbers,
            final(self).settings().path_hint == old(self).settings().path_hint,
            final(self).settings().language == old(self).settings().language,
            final(self)@ == old(self)@,
            final(self).model() == old(self).model(),
    {
        self.title = String::from_str(title);
    }

    pub fn show_line_numbers(&self) -> (b: bool)
        ensures
            b == self.settings().show_line_numbers,
    {
        self.show_line_numbers
    }

    pub fn set_show_line_numbers(&mut self, show: bool)
        ensures
            final(self).settings().show_line_numbers == show,
            final(self).settings().title == old(self).settings().title,
            final(self).settings().scroll == old(self).settings().scroll,
            final(self).settings().path_hint == old(self).settings().path_hint,
            final(self).settings().language == old(self).settings().language,
            final(self)@ == old(self)@,
            final(self).model() == old(self).model(),
    {
        self.show_line_numbers = show;
    }

    pub fn is_read_only(&self) -> (b: bool)
        ensures
            b == self@.read_only,
    {
        self.read_only
    }

    /// Allows or forbids edits; forbidding them drops the selection.
    pub fn set_read_only(&mut self, read_only: bool)
        requires
            old(self).wf(),
        ensures
            final(self).wf(),
            final(self)@.read_only == read_only,
            final(self).model().lines == old(self).model().lines,
            final(self).model().cursor == old(self).model().cursor,
            final(self).model().anchor == (if read_only { None } else { old(self).model().anchor }),
            final(self)@.selected == old(self)@.selected,
            final(self)@.focused == old(self)@.focused,
            final(self)@.clipboard == old(self)@.clipboard,
            final(self)@.pending_copy == old(self)@.pending_copy,
            final(self).settings() == old(self).settings(),
    {
        self.read_only = read_only;
        if read_only {
            self.selection_start = None;
        }
    }

    pub fn path_hint(&self) -> (h: Option<String>)
        ensures
            opt_text(h) == self.settings().path_hint,
    {
        match &self.path_hint {
            Some(h) => Some(h.clone()),
            None => None,
        }
    }

    /// Records the file name (or path) the text comes from, a hint for
    /// language detection.
    pub fn set_path_hint(&mut self, hint: &str)
        ensures
            final(self).settings().path_hint == Some(hint@),
            final(self).settings().title == old(self).settings().title,
            final(self).settings().scroll == old(self).settings().scroll,
            final(self).settings().show_line_numbers == old(self).settings().show_line_numbers,
            final(self).settings().language == old(self).settings().language,
            final(self)@ == old(self)@,
            final(self).model() == old(self).model(),
    {
        self.path_hint = Some(String::from_str(hint));
    }

    pub fn language(&self) -> (l: TextBoxLanguage)
        ensures
            l == self.settings().language,
    {
        self.language
    }

    /// Pins the language, or returns to detection with `Auto`.
    pub fn set_language(&mut self, language: TextBoxLanguage)
        ensures
            final(self).settings().language == language,
            final(self).settings().title == old(self).settings().title,
            final(self).settings().scroll == old(self).settings().scroll,
            final(self).settings().show_line_numbers == old(self).settings().show_line_numbers,
            final(self).settings().path_hint == old(self).settings().path_hint,
            final(self)@ == old(self)@,
            final(self).model() == old(self).model(),
    {
        self.language = language;
    }

    /// Provides what the system clipboard holds (`None`: no clipboard), for
    /// pasting.
    pub fn set_clipboard_text(&mut self, text: Option<String>)
        ensures
            final(self)@.clipboard == opt_text(text),
            final(self)@.pending_copy == old(self)@.pending_copy,
            final(self).model() == old(self).model(),
            final(self).frame() == old(self).frame(),
    {
        self.clipboard = text;
    }

    /// Hands out the text copied since the last call, to be written to the
    /// system clipboard.
    pub fn take_pending_copy(&mut self) -> (t: Option<String>)
        ensures
            opt_text(t) == old(self)@.pending_copy,
            final(self)@.pending_copy is None,
            final(self)@.clipboard == old(self)@.clipboard,
            final(self).model() == old(self).model(),
            final(self).frame() == old(self).frame(),
    {
        let mut t: Option<String> = None;
        std::mem::swap(&mut t, &mut self.pending_copy);
        t
    }

    pub fn is_selected(&self) -> (b: bool)
        ensures
            b == self@.selected,
    {
        self.is_selected.get()
    }

    pub fn is_focused(&self) -> (b: bool)
        ensures
            b == self@.focused,
    {
        self.is_focused.get()
    }

    pub fn select(&mut self)
        requires
            old(self).wf(),
        ensures
            final(self).wf(),
            final(self)@.model == old(self)@.model,
            final(self)@.selected,
            final(self)@.focused == old(self)@.focused,
            final(self).model() == old(self).model(),
            final(self).settings() == old(self).settings(),
            final(self)@.read_only == old(self)@.read_only,
            final(self)@.clipboard == old(self)@.clipboard,
            final(self)@.pending_copy == old(self)@.pending_copy,
    {
        self.is_selected.focus();
    }

    pub fn deselect(&mut self)
        requires
            old(self).wf(),
        ensures
            final(self).wf(),
            final(self)@.model == old(self)@.model,
            !final(self)@.selected,
            !final(self)@.focused,
            final(self).model() == old(self).model(),
            final(self).settings() == old(self).settings(),
            final(self)@.read_only == old(self)@.read_only,
            final(self)@.clipboard == old(self)@.clipboard,
            final(self)@.pending_copy == old(self)@.pending_copy,
    {
        self.is_selected.blur();
        self.is_focused.blur();
    }

    /// Starts editing (and selects the box).
    pub fn focus(&mut self)
        requires
            old(self).wf(),
        ensures
            final(self).wf(),
            final(self)@.model == old(self)@.model,
            final(self)@.selected,
            final(self)@.focused,
            final(self).model() == old(self).model(),
            final(self).settings() == old(self).settings(),
            final(self)@.read_only == old(self)@.read_only,
            final(self)@.clipboard == old(self)@.clipboard,
            final(self)@.pending_copy == old(self)@.pending_copy,
    {
        self.is_selected.focus();
        self.is_focused.focus();
    }

    /// Stops editing; the box stays selected.
    pub fn blur(&mut self)
        requires
            old(self).wf(),
        ensures
            final(self).wf(),
            final(self)@.model == old(self)@.model,
            final(self)@.selected == old(self)@.selected,
            !final(self)@.focused,
            final(self).model() == old(self).model(),
            final(self).settings() == old(self).settings(),
            final(self)@.read_only == old(self)@.read_only,
            final(self)@.clipboard == old(self)@.clipboard,
            final(self)@.pending_copy == old(self)@.pending_copy,
    {
        self.is_focused.blur();
    }

    /// Keeps the cursor visible in the area the box is drawn in: adjusts the
    /// scroll offsets so the cursor line and column fall inside the area
    /// within the border (and the line-number gutter).
    pub fn sync_viewport(&mut self, area: Rect)
        ensures
            final(self)@ == old(self)@,
            final(self).model() == old(self).model(),
            final(self).settings().title == old(self).settings().title,
            final(self).settings().show_line_numbers == old(self).settings().show_line_numbers,
            final(self).settings().path_hint == old(self).settings().path_hint,
            final(self).settings().language == old(self).settings().language,
            ({
                let inner = spec_bordered_inner(area);
                let text_width = if inner.width as int > gutter_width(old(self).settings().show_line_numbers) {
                    inner.width as int - gutter_width(old(self).settings().show_line_numbers)
                } else {
                    0
                };
                if inner.height == 0 {
                    final(self).settings().scroll == old(self).settings().scroll
                } else {
                    final(self).settings().scroll == (
                        follow_cursor(old(self).model().cursor.0, old(self).settings().scroll.0, inner.height as int),
                        follow_cursor(old(self).model().cursor.1, old(self).settings().scroll.1, text_width),
                    )
                }
            }),
    {
        let inner = bordered_inner(area);
        if inner.height == 0 {
            return;
        }
        let gutter: u16 = if self.show_line_numbers { 4 } else { 0 };
        let text_width = inner.width.saturating_sub(gutter);
        self.scroll_y = follow_cursor_exec(self.cursor_y, self.scroll_y, inner.height as usize);
        self.scroll_x = follow_cursor_exec(self.cursor_x, self.scroll_x, text_width as usize);
    }
}


impl TextBoxState {
    /// The selected text, if any.
    pub fn selected_text(&self) -> (t: Option<String>)
        requires
            self.model().wf(),
        ensures
            opt_text(t) == selected_text(self.model()),
    {
        match self.get_normalized_selection() {
            Some((s, e)) => {
                let chars = text_between_exec(&self.lines, s, e);
                Some(string_from_chars(&chars))
            },
            None => None,
        }
    }

    fn copy(&mut self)
        requires
            old(self).wf(),
        ensures
            final(self)@ == spec_copy(old(self)@),
            final(self).wf(),
            final(self).settings() == old(self).settings(),
    {
        match self.get_normalized_selection() {
            Some((s, e)) => {
                if self.clipboard.is_some() {
                    let chars = text_between_exec(&self.lines, s, e);
                    self.clipboard = Some(string_from_chars(&chars));
                    self.pending_copy = Some(string_from_chars(&chars));
                }
            },
            None => {},
        }
    }

    fn cut(&mut self)
        requires
            old(self).wf(),
        ensures
            final(self)@ == spec_cut(old(self)@),
            final(self).wf(),
            final(self).settings() == old(self).settings(),
    {
        self.copy();
        self.delete_selection();
    }

    fn paste(&mut self)
        requires
            old(self).wf(),
        ensures
            final(self)@ == spec_paste_clipboard(old(self)@),
            final(self).wf(),
            final(self).settings() == old(self).settings(),
    {
        let text = match &self.clipboard {
            Some(t) => chars_of(t.as_str()),
            None => {
                return;
            },
        };
        self.delete_selection();
        let ghost m1 = self.model();
        let mut i: usize = 0;
        proof {
            assert(text@.take(0) =~= Seq::<char>::empty());
        }
        while i < text.len()
            invariant
                0 <= i <= text@.len(),
                self.model() == spec_insert_text(m1, text@.take(i as int)),
                self.model().wf(),
                self.frame() == old(self).frame(),
                self.clipboard == old(self).clipboard,
                self.pending_copy == old(self).pending_copy,
            decreases text@.len() - i,
        {
            let c = text[i];
            proof {
                assert(text@.take(i + 1).drop_last() =~= text@.take(i as int));
                assert(text@.take(i + 1).last() == c);
            }
            if c == '\n' {
                self.insert_newline();
            } else {
                self.insert_char(c);
            }
            i += 1;
        }
        proof {
            assert(text@.take(text@.len() as int) =~= text@);
        }
    }

    fn select_all(&mut self)
        requires
            old(self).wf(),
        ensures
            final(self).model() == spec_select_all(old(self).model()),
            final(self).wf(),
            final(self).frame() == old(self).frame(),
            final(self).clipboard == old(self).clipboard,
            final(self).pending_copy == old(self).pending_copy,
    {
        let last = self.num_lines() - 1;
        let n = self.line_len(last);
        self.selection_start = Some((0, 0));
        self.cursor_y = last;
        self.cursor_x = n;
    }

    fn apply_movement(&mut self, code: KeyCode, shift: bool, ctrl: bool, word: bool)
        requires
            old(self).model().wf(),
            is_movement(code),
        ensures
            final(self).model() == spec_move_cursor(old(self).model(), shift, !shift && !ctrl, movement_target(old(self).model(), code, word)),
            final(self).model().wf(),
            final(self).frame() == old(self).frame(),
            final(self).clipboard == old(self).clipboard,
            final(self).pending_copy == old(self).pending_copy,
    {
        proof {
            lemma_targets_valid(self.model());
        }
        let target = match code {
            KeyCode::Left => if word { self.word_left_target() } else { self.left_target() },
            KeyCode::Right => if word { self.word_right_target() } else { self.right_target() },
            KeyCode::Up => self.up_target(),
            KeyCode::Down => self.down_target(),
            KeyCode::Home => (self.cursor_y, 0),
            _ => (self.cursor_y, self.line_len(self.cursor_y)),
        };
        if shift && self.selection_start.is_none() {
            self.selection_start = Some((self.cursor_y, self.cursor_x));
        }
        self.cursor_y = target.0;
        self.cursor_x = target.1;
        if !shift && !ctrl {
            self.selection_start = None;
        }
    }

    fn edit_key(&mut self, key: &KeyEvent) -> (handled: bool)
        requires
            old(self).wf(),
        ensures
            (handled, final(self)@) == spec_edit_key(old(self)@, *key),
            final(self).wf(),
            final(self).settings() == old(self).settings(),
    {
        let ctrl = key.modifiers.control;
        let shift = key.modifiers.shift;
        let word = ctrl || key.modifiers.alt;
        let ro = self.read_only;
        let code = key.code;
        if code == KeyCode::Char('c') && ctrl {
            self.copy();
            true
        } else if code == KeyCode::Char('a') && ctrl {
            self.select_all();
            true
        } else if code == KeyCode::Char('x') && ctrl && !ro {
            self.cut();
            true
        } else if code == KeyCode::Char('v') && ctrl && !ro {
            self.paste();
            true
        } else if code == KeyCode::Left || code == KeyCode::Right || code == KeyCode::Up
            || code == KeyCode::Down || code == KeyCode::Home || code == KeyCode::End {
            self.apply_movement(code, shift, ctrl, word);
            true
        } else if code == KeyCode::Enter && !ro {
            self.insert_newline();
            true
        } else if (code == KeyCode::Backspace || code == KeyCode::Char('h')) && ctrl && !ro {
            self.delete_word_left();
            true
        } else if code == KeyCode::Backspace && !ro {
            self.backspace();
            true
        } else if code == KeyCode::Delete && !ro {
            if ctrl {
                self.delete_word_right();
            } else {
                self.delete();
            }
            true
        } else {
            match code {
                KeyCode::Char(c) => {
                    if !ctrl && !ro {
                        self.insert_char(c);
                        true
                    } else {
                        false
                    }
                },
                _ => false,
            }
        }
    }

    /// Handles a key: releases are ignored; an unfocused box only takes Enter,
    /// which starts editing; Escape stops editing; other keys edit, move the
    /// cursor and selection, or use the clipboard. Returns whether the key
    /// was consumed.
    pub fn handle_event(&mut self, key: &KeyEvent) -> (handled: bool)
        requires
            old(self).wf(),
        ensures
            (handled, final(self)@) == spec_handle_event(old(self)@, *key),
            final(self).wf(),
            final(self).settings() == old(self).settings(),
    {
        if key.kind == KeyEventKind::Release {
            return false;
        }
        if !self.is_focused.get() {
            if key.code == KeyCode::Enter {
                self.focus();
                return true;
            }
            return false;
        }
        if key.code == KeyCode::Esc {
            self.blur();
            return true;
        }
        self.edit_key(key)
    }

    /// Handles an input event: key events go to `handle_event`, others are
    /// ignored.
    pub fn handle_smash_event(&mut self, event: &SmashEvent) -> (status: EventStatus)
        requires
            old(self).wf(),
        ensures
            final(self).wf(),
            final(self).settings() == old(self).settings(),
            match event {
                SmashEvent::Key(key) => {
                    &&& final(self)@ == spec_handle_event(old(self)@, *key).1
                    &&& status == (if spec_handle_event(old(self)@, *key).0 { EventStatus::Handled } else { EventStatus::Ignored })
                },
                _ => final(self)@ == old(self)@ && status == EventStatus::Ignored,
            },
    {
        match event {
            SmashEvent::Key(key) => {
                if self.handle_event(key) {
                    EventStatus::Handled
                } else {
                    EventStatus::Ignored
                }
            },
            _ => EventStatus::Ignored,
        }
    }
}

/// A textbox follows the navigator like an interaction state: deselected, it
/// loses selection and focus; selected, it keeps whatever focus it had.
pub open spec fn spec_textbox_navigator_sync(v: TextBoxView, selected: bool) -> TextBoxView {
    TextBoxView { selected, focused: selected && v.focused, ..v }
}

impl NavigatorFocusable for TextBoxState {
    open spec fn navigator_inv(&self) -> bool {
        self.wf()
    }

    open spec fn navigator_sync(v: TextBoxView, selected: bool) -> TextBoxView {
        spec_textbox_navigator_sync(v, selected)
    }

    /// A textbox is active while it is being edited.
    open spec fn navigator_active(v: TextBoxView) -> bool {
        v.focused
    }

    open spec fn navigator_handle(v: TextBoxView, event: SmashEvent, now: u64) -> (EventStatus, TextBoxView) {
        match event {
            SmashEvent::Key(key) => (
                if spec_handle_event(v, key).0 { EventStatus::Handled } else { EventStatus::Ignored },
                spec_handle_event(v, key).1,
            ),
            _ => (EventStatus::Ignored, v),
        }
    }

    fn sync_navigator_focus(&mut self, selected: bool) {
        if selected {
            self.select();
        } else {
            self.deselect();
        }
    }

    fn is_navigator_active(&self) -> (b: bool) {
        self.is_focused()
    }

    fn handle_navigator_event(&mut self, event: &SmashEvent, now_ms: u64) -> (status: EventStatus) {
        self.handle_smash_event(event)
    }
}

// ---------------------------------------------------------------------------
// Laws of editing
// ---------------------------------------------------------------------------

/// Typing a character and then pressing Backspace gives back the text and
/// the cursor one started from, when nothing was selected.
pub proof fn law_insert_char_then_backspace(m: TextModel, c: char)
    requires
        m.wf(),
        selection_range(m) is None,
    ensures
        spec_backspace(spec_insert_char(m, c)).lines == m.lines,
        spec_backspace(spec_insert_char(m, c)).cursor == m.cursor,
        spec_backspace(spec_insert_char(m, c)).anchor is None,
{
    let (y, x) = m.cursor;
    let line = m.lines[y];
    let typed = spec_insert_char(m, c);
    assert(typed.lines[y] =~= line.take(x).push(c) + line.skip(x));
    assert(typed.lines[y].take(x) =~= line.take(x));
    assert(typed.lines[y].skip(x + 1) =~= line.skip(x));
    assert(line.take(x) + line.skip(x) =~= line);
    let back = spec_backspace(typed);
    assert(back.lines =~= m.lines);
}

/// Pressing Enter and then Backspace gives back the text and the cursor one
/// started from, when nothing was selected.
pub proof fn law_insert_newline_then_backspace(m: TextModel)
    requires
        m.wf(),
        selection_range(m) is None,
    ensures
        spec_backspace(spec_insert_newline(m)).lines == m.lines,
        spec_backspace(spec_insert_newline(m)).cursor == m.cursor,
        spec_backspace(spec_insert_newline(m)).anchor is None,
{
    let (y, x) = m.cursor;
    let line = m.lines[y];
    let split = spec_insert_newline(m);
    assert(split.lines[y] =~= line.take(x));
    assert(split.lines[y + 1] =~= line.skip(x));
    assert(split.lines.take(y) =~= m.lines.take(y));
    assert(split.lines.skip(y + 2) =~= m.lines.skip(y + 1));
    assert(line.take(x) + line.skip(x) =~= line);
    assert(line.skip(x).skip(0) =~= line.skip(x));
    assert(split.lines[y].take(x) =~= line.take(x));
    assert(split.lines[y].len() == x);
    let m1 = spec_delete_selection(split).1;
    assert(left_pos(m1) == (y, x));
    assert(delete_range(split.lines, (y, x), (y + 1, 0)) =~= m.lines.take(y) + seq![line] + m.lines.skip(y + 1));
    assert(m.lines.take(y) + seq![line] + m.lines.skip(y + 1) =~= m.lines);
    let back = spec_backspace(split);
    assert(back.lines =~= m.lines);
}

/// Typing a character and then pressing Delete from where the cursor was
/// gives back the text one started from.
pub proof fn law_insert_char_then_left_delete(m: TextModel, c: char)
    requires
        m.wf(),
        selection_range(m) is None,
    ensures
        spec_delete(spec_insert_char(m, c).with_cursor(m.cursor)).lines == m.lines,
{
    let (y, x) = m.cursor;
    let line = m.lines[y];
    let typed = spec_insert_char(m, c);
    assert(typed.lines[y] =~= line.take(x).push(c) + line.skip(x));
    assert(typed.lines[y].take(x) =~= line.take(x));
    assert(typed.lines[y].skip(x + 1) =~= line.skip(x));
    assert(line.take(x) + line.skip(x) =~= line);
    let back = spec_delete(typed.with_cursor(m.cursor));
    assert(back.lines =~= m.lines);
}


// ---------------------------------------------------------------------------
// What drawing a textbox shows
// ---------------------------------------------------------------------------

/// `a - b`, or zero.
pub open spec fn sub0(a: int, b: int) -> int {
    if a >= b { a - b } else { 0 }
}

/// The columns of a drawn line that the selection covers, relative to the
/// first visible column, when it covers any.
pub open spec fn spec_row_selection(sel: Option<(TextPos, TextPos)>, line_index: int, line_len: int, scroll_x: int, text_width: int) -> Option<(int, int)> {
    match sel {
        Some((s, e)) => if s.0 <= line_index <= e.0 {
            let from = if line_index == s.0 { sub0(s.1, scroll_x) } else { 0 };
            let to = if line_index == e.0 { sub0(e.1, scroll_x) } else { sub0(line_len, scroll_x) };
            let to = if to <= text_width { to } else { text_width };
            if from < to { Some((from, to)) } else { None }
        } else {
            None
        },
        None => None,
    }
}

/// One row of a drawn textbox: which line it shows, the visible part of the
/// line, and the visible columns the selection covers.
#[derive(Clone, Debug)]
pub struct TextRow {
    pub line_index: usize,
    pub text: Vec<char>,
    pub selection: Option<(usize, usize)>,
}

/// The visible part of a line: from column `scroll_x`, at most `width`
/// characters.
pub open spec fn visible_part(line: Seq<char>, scroll_x: int, width: int) -> Seq<char> {
    let from = if scroll_x <= line.len() { scroll_x } else { line.len() as int };
    let to = if from + width <= line.len() { from + width } else { line.len() as int };
    line.subrange(from, to)
}

/// How many rows a box drawn in `area` fills, from line `scroll_y` on.
pub open spec fn drawn_rows(line_count: int, scroll_y: int, area: Rect) -> int {
    let inner = spec_bordered_inner(area);
    let left = sub0(line_count, scroll_y);
    if inner.height <= left { inner.height as int } else { left }
}

/// The width left for text once the line-number gutter is taken.
pub open spec fn text_width(show_line_numbers: bool, area: Rect) -> int {
    sub0(spec_bordered_inner(area).width as int, gutter_width(show_line_numbers))
}

impl TextBoxState {
    /// The rows a box drawn in `area` shows at its current scroll offsets.
    pub fn visible_rows(&self, area: Rect) -> (rows: Vec<TextRow>)
        requires
            self.wf(),
        ensures
            rows@.len() == drawn_rows(self.model().lines.len() as int, self.settings().scroll.0, area),
            forall|y: int| 0 <= y < rows@.len() ==> {
                let li = self.settings().scroll.0 + y;
                let tw = text_width(self.settings().show_line_numbers, area);
                &&& (#[trigger] rows@[y]).line_index == li
                &&& rows@[y].text@ == visible_part(self.model().lines[li], self.settings().scroll.1, tw)
                &&& match rows@[y].selection {
                    Some((a, b)) => spec_row_selection(selection_range(self.model()), li, self.model().lines[li].len() as int, self.settings().scroll.1, tw) == Some((a as int, b as int)),
                    None => spec_row_selection(selection_range(self.model()), li, self.model().lines[li].len() as int, self.settings().scroll.1, tw) is None,
                }
            },
    {
        let inner = bordered_inner(area);
        let gutter: usize = if self.show_line_numbers { 4 } else { 0 };
        let tw: usize = (inner.width as usize).saturating_sub(gutter);
        let sel = self.get_normalized_selection();
        let sx = self.scroll_x;
        let sy = self.scroll_y;
        let mut rows: Vec<TextRow> = Vec::new();
        let mut y: usize = 0;
        let n = self.lines.len();
        let ghost count = drawn_rows(n as int, sy as int, area);
        while y < inner.height as usize && sy < n && y < n - sy
            invariant
                self.wf(),
                n == self.lines@.len(),
                n == self.model().lines.len(),
                sy == self.settings().scroll.0,
                sx == self.settings().scroll.1,
                tw == text_width(self.settings().show_line_numbers, area),
                inner == spec_bordered_inner(area),
                count == drawn_rows(n as int, sy as int, area),
                y <= count,
                rows@.len() == y,
                match sel {
                    Some((s, e)) => selection_range(self.model()) == Some(((s.0 as int, s.1 as int), (e.0 as int, e.1 as int))),
                    None => selection_range(self.model()) is None,
                },
                forall|k: int| 0 <= k < y ==> {
                    let li = sy + k;
                    &&& (#[trigger] rows@[k]).line_index == li
                    &&& rows@[k].text@ == visible_part(self.model().lines[li], sx as int, tw as int)
                    &&& match rows@[k].selection {
                        Some((a, b)) => spec_row_selection(selection_range(self.model()), li, self.model().lines[li].len() as int, sx as int, tw as int) == Some((a as int, b as int)),
                        None => spec_row_selection(selection_range(self.model()), li, self.model().lines[li].len() as int, sx as int, tw as int) is None,
                    }
                },
            decreases inner.height as usize - y,
        {
            let li = sy + y;
            proof {
                lemma_deep_view_index(&self.lines, li as int);
            }
            let line = &self.lines[li];
            let len = line.len();
            let from = if sx <= len { sx } else { len };
            let to = if tw <= len - from { from + tw } else { len };
            let mut text: Vec<char> = Vec::new();
            let mut j: usize = from;
            while j < to
                invariant
                    from <= j <= to <= line@.len(),
                    text@ == line@.subrange(from as int, j as int),
                decreases to - j,
            {
                text.push(line[j]);
                j += 1;
                assert(text@ =~= line@.subrange(from as int, j as int));
            }
            let selection = match sel {
                Some((s, e)) => {
                    if s.0 <= li && li <= e.0 {
                        let a = if li == s.0 { s.1.saturating_sub(sx) } else { 0 };
                        let b0 = if li == e.0 { e.1.saturating_sub(sx) } else { len.saturating_sub(sx) };
                        let b = if b0 <= tw { b0 } else { tw };
                        if a < b { Some((a, b)) } else { None }
                    } else {
                        None
                    }
                },
                None => None,
            };
            rows.push(TextRow { line_index: li, text, selection });
            y += 1;
        }
        rows
    }

    /// Where the terminal cursor goes when the box is drawn in `area`: after
    /// the visible characters before the cursor, counted in display columns,
    /// when the box is focused and that cell lies inside the text area.
    pub fn cursor_screen_position(&self, area: Rect) -> (p: Option<(u16, u16)>)
        requires
            self.wf(),
        ensures
            ({
                let inner = spec_bordered_inner(area);
                let (cy, cx) = self.model().cursor;
                let (sy, sx) = self.settings().scroll;
                let g = gutter_width(self.settings().show_line_numbers);
                let line = self.model().lines[cy];
                let w = display_width(if sx <= cx { line.subrange(sx, cx) } else { Seq::<char>::empty() });
                if !self@.focused || inner.height == 0 || cy < sy || w >= text_width(self.settings().show_line_numbers, area)
                    || cy - sy >= inner.height {
                    p is None
                } else {
                    p == Some(((inner.x + g + w) as u16, (inner.y + cy - sy) as u16))
                }
            }),
    {
        let inner = bordered_inner(area);
        if !self.is_focused.get() || inner.height == 0 || self.cursor_y < self.scroll_y {
            return None;
        }
        let gutter: u64 = if self.show_line_numbers { 4 } else { 0 };
        let tw: u64 = (inner.width as u64).saturating_sub(gutter);
        proof {
            lemma_deep_view_index(&self.lines, self.cursor_y as int);
        }
        let line = &self.lines[self.cursor_y];
        let mut w: u64 = 0;
        if self.scroll_x <= self.cursor_x {
            let mut j: usize = self.scroll_x;
            while j < self.cursor_x && w < tw
                invariant
                    self.scroll_x <= j <= self.cursor_x <= line@.len(),
                    w == display_width(line@.subrange(self.scroll_x as int, j as int)),
                    tw <= u16::MAX,
                    w < tw + 256,
                decreases self.cursor_x - j,
            {
                let c = line[j];
                let cw = char_width(c);
                proof {
                    assert(line@.subrange(self.scroll_x as int, j + 1).drop_last() =~= line@.subrange(self.scroll_x as int, j as int));
                }
                match cw {
                    Some(n) => {
                        w = w + n as u64;
                    },
                    None => {},
                }
                j += 1;
            }
            proof {
                lemma_display_width_prefix(line@.subrange(self.scroll_x as int, self.cursor_x as int), j - self.scroll_x);
                assert(line@.subrange(self.scroll_x as int, self.cursor_x as int).take(j - self.scroll_x) =~= line@.subrange(self.scroll_x as int, j as int));
            }
        } else {
            assert(display_width(Seq::<char>::empty()) == 0);
        }
        if w >= tw || (self.cursor_y - self.scroll_y) as u64 >= inner.height as u64 {
            return None;
        }
        Some(((inner.x as u64 + gutter + w) as u16, (inner.y as u64 + (self.cursor_y - self.scroll_y) as u64) as u16))
    }
}

impl TextBoxState {
    /// What highlighting the box depends on, as a request.
    pub fn syntax_request(&self, revision: u64, theme_kind: SyntaxThemeKind) -> (r: SyntaxRequest)
        ensures
            r.revision == revision,
            r.theme_kind == theme_kind,
            r.title@ == self.settings().title,
            opt_string_view(r.path_hint) == self.settings().path_hint,
            r.language == self.settings().language,
            crate::syntax::lines_view(r.lines@) == self.model().lines,
    {
        let lines = self.lines();
        proof {
            assert(crate::syntax::lines_view(lines@) =~= self.model().lines);
        }
        SyntaxRequest {
            revision,
            theme_kind,
            title: self.title(),
            path_hint: self.path_hint(),
            language: self.language(),
            lines,
        }
    }

    /// The language name the box's text is shown under: the pinned language,
    /// or what detection finds from the path hint, the title and the text
    /// (`content_matches` being the bundled heuristics that match the text).
    pub fn resolved_language_label(&self, assets: &SyntaxAssets, content_matches: &Vec<(usize, Vec<String>)>) -> (label: String)
        requires
            content_sums_fit(matches_view(*content_matches)),
        ensures
            label@ == spec_select_syntax_for(
                self.settings().language,
                self.settings().path_hint,
                self.settings().title,
                self.model().lines,
                matches_view(*content_matches),
            ).1,
    {
        let request = self.syntax_request(0, SyntaxThemeKind::Dark);
        detect_language_label(assets, &request, content_matches)
    }
}

/// A read-only box keeps its text and stays read-only, whatever key it gets
/// (moving, selecting and copying still work).
pub proof fn law_read_only_text_is_unchanged(v: TextBoxView, key: KeyEvent)
    requires
        v.read_only,
    ensures
        spec_handle_event(v, key).1.model.lines == v.model.lines,
        spec_handle_event(v, key).1.read_only,
{
}

} // verus!

