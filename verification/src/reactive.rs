use vstd::prelude::*;
use vstd::laws_eq::obeys_concrete_eq;

use crate::events::{EventStatus, SmashEvent};
use crate::geometry::Rect;

verus! {

// ---------------------------------------------------------------------------
// Focus and interaction flags
// ---------------------------------------------------------------------------

/// A single focused / not focused flag.
#[derive(Clone, Copy, Debug)]
pub struct FocusState {
    value: bool,
}

impl View for FocusState {
    type V = bool;

    closed spec fn view(&self) -> bool {
        self.value
    }
}

/// Creates a focus flag with the given initial value.
pub fn use_focus(initial: bool) -> (f: FocusState)
    ensures
        f@ == initial,
{
    FocusState { value: initial }
}

impl FocusState {
    pub fn get(&self) -> (b: bool)
        ensures
            b == self@,
    {
        self.value
    }

    pub fn set(&mut self, focused: bool)
        ensures
            final(self)@ == focused,
    {
        self.value = focused;
    }

    pub fn focus(&mut self)
        ensures
            final(self)@,
    {
        self.set(true);
    }

    pub fn blur(&mut self)
        ensures
            !final(self)@,
    {
        self.set(false);
    }

    pub fn toggle(&mut self)
        ensures
            final(self)@ == !old(self)@,
    {
        let v = self.get();
        self.set(!v);
    }
}

/// A pair of flags for components that are first selected by navigation and
/// then focused (activated) for direct interaction. A focused component is
/// always selected.
#[derive(Clone, Copy, Debug)]
pub struct InteractionState {
    selected: FocusState,
    focused: FocusState,
}

impl InteractionState {
    #[verifier::type_invariant]
    closed spec fn focused_implies_selected(self) -> bool {
        self.focused@ ==> self.selected@
    }

    /// Whether the component is selected.
    pub closed spec fn spec_selected(self) -> bool {
        self.selected@
    }

    /// Whether the component is focused.
    pub closed spec fn spec_focused(self) -> bool {
        self.focused@
    }
}

/// Creates an interaction state; a component that starts focused also starts
/// selected.
pub fn use_interaction(initial_selected: bool, initial_focused: bool) -> (s: InteractionState)
    ensures
        s.spec_selected() == (initial_selected || initial_focused),
        s.spec_focused() == initial_focused,
{
    let selected = use_focus(initial_selected || initial_focused);
    let focused = use_focus(initial_focused);
    InteractionState { selected, focused }
}

impl InteractionState {
    /// A copy of the selection flag.
    pub fn selected(&self) -> (f: FocusState)
        ensures
            f@ == self.spec_selected(),
    {
        self.selected
    }

    /// A copy of the focus flag.
    pub fn focused(&self) -> (f: FocusState)
        ensures
            f@ == self.spec_focused(),
    {
        self.focused
    }

    pub fn is_selected(&self) -> (b: bool)
        ensures
            b == self.spec_selected(),
    {
        self.selected.get()
    }

    pub fn is_focused(&self) -> (b: bool)
        ensures
            b == self.spec_focused(),
            b ==> self.spec_selected(),
    {
        proof {
            use_type_invariant(self);
        }
        self.focused.get()
    }

    pub fn select(&mut self)
        ensures
            final(self).spec_selected(),
            final(self).spec_focused() == old(self).spec_focused(),
    {
        let focused = self.focused;
        *self = InteractionState { selected: use_focus(true), focused };
    }

    pub fn deselect(&mut self)
        ensures
            !final(self).spec_selected(),
            !final(self).spec_focused(),
    {
        *self = InteractionState { selected: use_focus(false), focused: use_focus(false) };
    }

    pub fn focus(&mut self)
        ensures
            final(self).spec_selected(),
            final(self).spec_focused(),
    {
        *self = InteractionState { selected: use_focus(true), focused: use_focus(true) };
    }

    pub fn blur(&mut self)
        ensures
            final(self).spec_selected() == old(self).spec_selected(),
            !final(self).spec_focused(),
    {
        let selected = self.selected;
        *self = InteractionState { selected, focused: use_focus(false) };
    }

    /// Follows the navigator: a deselected component loses both flags, a
    /// selected one keeps its focus.
    pub fn sync_navigator(&mut self, selected: bool)
        ensures
            final(self).spec_selected() == selected,
            final(self).spec_focused() == (selected && old(self).spec_focused()),
    {
        if selected {
            if self.is_focused() {
                self.focus();
            } else {
                self.select();
            }
        } else {
            self.deselect();
        }
    }
}

// ---------------------------------------------------------------------------
// Bounded cyclic selection
// ---------------------------------------------------------------------------

/// A selected index within `0..len`, with `len` at least one.
#[derive(Clone, Copy, Debug)]
pub struct SelectionState {
    index: usize,
    len: usize,
}

impl SelectionState {
    #[verifier::type_invariant]
    closed spec fn index_in_bounds(self) -> bool {
        1 <= self.len && self.index < self.len
    }

    /// The selected index.
    pub closed spec fn spec_index(self) -> nat {
        self.index as nat
    }

    /// The number of selectable entries.
    pub closed spec fn spec_len(self) -> nat {
        self.len as nat
    }
}

/// The index that `next` moves to.
pub open spec fn next_index(index: nat, len: nat) -> nat {
    if index + 1 >= len {
        0
    } else {
        index + 1
    }
}

/// The index that `prev` moves to.
pub open spec fn prev_index(index: nat, len: nat) -> nat {
    if index == 0 {
        (len - 1) as nat
    } else {
        (index - 1) as nat
    }
}

/// Creates a selection over `len` entries (at least one), starting at
/// `initial` clamped into range.
pub fn use_selection(initial: usize, len: usize) -> (s: SelectionState)
    ensures
        s.spec_len() == (if len == 0 { 1 } else { len as nat }),
        s.spec_index() == (if initial < s.spec_len() { initial as nat } else { (s.spec_len() - 1) as nat }),
{
    let len = if len == 0 { 1 } else { len };
    let index = if initial < len { initial } else { len - 1 };
    SelectionState { index, len }
}

impl SelectionState {
    pub fn get(&self) -> (i: usize)
        ensures
            i == self.spec_index(),
            i < self.spec_len(),
    {
        proof {
            use_type_invariant(self);
        }
        self.index
    }

    pub fn len(&self) -> (n: usize)
        ensures
            n == self.spec_len(),
            n >= 1,
    {
        proof {
            use_type_invariant(self);
        }
        self.len
    }

    /// Always false: a selection has at least one entry.
    pub fn is_empty(&self) -> (b: bool)
        ensures
            b == (self.spec_len() == 0),
            !b,
    {
        self.len() == 0
    }

    /// Selects `index`, clamped to the last entry.
    pub fn set(&mut self, index: usize)
        ensures
            final(self).spec_len() == old(self).spec_len(),
            final(self).spec_index() == (if index < old(self).spec_len() { index as nat } else { (old(self).spec_len() - 1) as nat }),
    {
        let len = self.len();
        let clamped = if index < len { index } else { len - 1 };
        *self = SelectionState { index: clamped, len };
    }

    /// Changes the number of entries (at least one) and clamps the selection.
    pub fn set_len(&mut self, len: usize)
        ensures
            final(self).spec_len() == (if len == 0 { 1 } else { len as nat }),
            final(self).spec_index() == (if old(self).spec_index() < final(self).spec_len() { old(self).spec_index() } else { (final(self).spec_len() - 1) as nat }),
    {
        let len = if len == 0 { 1 } else { len };
        let current = self.get();
        let index = if current < len { current } else { len - 1 };
        *self = SelectionState { index, len };
    }

    /// Moves to the following entry, wrapping to the first.
    pub fn next(&mut self)
        ensures
            final(self).spec_len() == old(self).spec_len(),
            final(self).spec_index() == next_index(old(self).spec_index(), old(self).spec_len()),
    {
        let len = self.len();
        let current = self.get();
        let index = if current + 1 >= len { 0 } else { current + 1 };
        *self = SelectionState { index, len };
    }

    /// Moves to the preceding entry, wrapping to the last.
    pub fn prev(&mut self)
        ensures
            final(self).spec_len() == old(self).spec_len(),
            final(self).spec_index() == prev_index(old(self).spec_index(), old(self).spec_len()),
    {
        let len = self.len();
        let current = self.get();
        let index = if current == 0 { len - 1 } else { current - 1 };
        *self = SelectionState { index, len };
    }
}

/// Moving to the following entry and then back to the preceding one (or the
/// other way round) returns to the entry one started from.
pub proof fn lemma_selection_next_prev_inverse(index: nat, len: nat)
    requires
        index < len,
    ensures
        prev_index(next_index(index, len), len) == index,
        next_index(prev_index(index, len), len) == index,
        next_index(index, len) < len,
        prev_index(index, len) < len,
{
}

// ---------------------------------------------------------------------------
// Spatial focus navigation
// ---------------------------------------------------------------------------

/// Directions in which focus can move.
#[derive(Clone, Copy, Debug, PartialEq, Eq, Structural)]
pub enum FocusDirection {
    Next,
    Previous,
    Up,
    Down,
    Left,
    Right,
}

/// A focusable control and the area it occupies on screen.
#[derive(Clone, Copy, Debug)]
pub struct FocusNode<T: Copy + Eq> {
    pub id: T,
    pub area: Rect,
}

impl<T: Copy + Eq> FocusNode<T> {
    pub fn new(id: T, area: Rect) -> (n: FocusNode<T>)
        ensures
            n.id == id,
            n.area == area,
    {
        FocusNode { id, area }
    }
}

/// The closed interval `[start, start + len)` on one axis.
pub open spec fn spec_axis_range(start: u16, len: u16) -> (int, int) {
    (start as int, start + len)
}

pub open spec fn spec_ranges_overlap(a: (int, int), b: (int, int)) -> bool {
    a.0 < b.1 && b.0 < a.1
}

/// Distance between two intervals, zero when they overlap.
pub open spec fn spec_range_gap(a: (int, int), b: (int, int)) -> int {
    if spec_ranges_overlap(a, b) {
        0
    } else if a.1 <= b.0 {
        b.0 - a.1
    } else {
        a.0 - b.1
    }
}

pub open spec fn spec_center(r: (int, int)) -> int {
    r.0 + (r.1 - r.0) / 2
}

pub open spec fn spec_abs(v: int) -> int {
    if v < 0 {
        -v
    } else {
        v
    }
}

pub open spec fn spec_center_delta(a: (int, int), b: (int, int)) -> int {
    spec_abs(spec_center(a) - spec_center(b))
}

pub open spec fn spec_max0(v: int) -> int {
    if v < 0 {
        0
    } else {
        v
    }
}

/// The rank of `to` as a target when moving from `from` in `direction`, or
/// `None` when `to` does not lie that way. Ranks are compared
/// lexicographically: targets inside the beam of `from` first, then by the
/// gap along the direction, the gap across it, and the offset of the centers.
pub open spec fn spec_directional_rank(from: Rect, to: Rect, direction: FocusDirection) -> Option<(int, int, int, int)> {
    let fx = spec_axis_range(from.x, from.width);
    let fy = spec_axis_range(from.y, from.height);
    let tx = spec_axis_range(to.x, to.width);
    let ty = spec_axis_range(to.y, to.height);
    match direction {
        FocusDirection::Left => if tx.0 < fx.0 {
            Some((if spec_ranges_overlap(fy, ty) { 0int } else { 1int }, spec_max0(fx.0 - tx.1), spec_range_gap(fy, ty), spec_center_delta(fy, ty)))
        } else {
            None
        },
        FocusDirection::Right => if tx.1 > fx.1 {
            Some((if spec_ranges_overlap(fy, ty) { 0int } else { 1int }, spec_max0(tx.0 - fx.1), spec_range_gap(fy, ty), spec_center_delta(fy, ty)))
        } else {
            None
        },
        FocusDirection::Up => if ty.0 < fy.0 {
            Some((if spec_ranges_overlap(fx, tx) { 0int } else { 1int }, spec_max0(fy.0 - ty.1), spec_range_gap(fx, tx), spec_center_delta(fx, tx)))
        } else {
            None
        },
        FocusDirection::Down => if ty.1 > fy.1 {
            Some((if spec_ranges_overlap(fx, tx) { 0int } else { 1int }, spec_max0(ty.0 - fy.1), spec_range_gap(fx, tx), spec_center_delta(fx, tx)))
        } else {
            None
        },
        _ => None,
    }
}

/// Lexicographic order on four-component ranks.
pub open spec fn lex4_lt(a: (int, int, int, int), b: (int, int, int, int)) -> bool {
    a.0 < b.0 || (a.0 == b.0 && (a.1 < b.1 || (a.1 == b.1 && (a.2 < b.2 || (a.2 == b.2 && a.3 < b.3)))))
}

/// Lexicographic order on three-component ranks.
pub open spec fn lex3_lt(a: (int, int, int), b: (int, int, int)) -> bool {
    a.0 < b.0 || (a.0 == b.0 && (a.1 < b.1 || (a.1 == b.1 && a.2 < b.2)))
}

/// How far `to` is from `from`: the summed gaps, the larger gap, and the
/// Manhattan distance between the centers.
pub open spec fn spec_nearest_rank(from: Rect, to: Rect) -> (int, int, int) {
    let fx = spec_axis_range(from.x, from.width);
    let fy = spec_axis_range(from.y, from.height);
    let tx = spec_axis_range(to.x, to.width);
    let ty = spec_axis_range(to.y, to.height);
    let dx = spec_range_gap(fx, tx);
    let dy = spec_range_gap(fy, ty);
    (dx + dy, if dx >= dy { dx } else { dy }, spec_abs(spec_center(fx) - spec_center(tx)) + spec_abs(spec_center(fy) - spec_center(ty)))
}

/// Index of the first node carrying `id`, or -1.
pub open spec fn index_of_id<T: Copy + Eq>(nodes: Seq<FocusNode<T>>, id: T) -> int
    decreases nodes.len(),
{
    if nodes.len() == 0 {
        -1
    } else {
        let k = index_of_id(nodes.drop_last(), id);
        if k >= 0 {
            k
        } else if nodes.last().id == id {
            nodes.len() - 1
        } else {
            -1
        }
    }
}

/// Index of the first node nearest to `anchor`.
pub open spec fn nearest_index<T: Copy + Eq>(anchor: Rect, nodes: Seq<FocusNode<T>>) -> int
    decreases nodes.len(),
{
    if nodes.len() <= 1 {
        0
    } else {
        let k = nearest_index(anchor, nodes.drop_last());
        if lex3_lt(spec_nearest_rank(anchor, nodes.last().area), spec_nearest_rank(anchor, nodes[k].area)) {
            nodes.len() - 1
        } else {
            k
        }
    }
}

/// Whether `node` can receive focus when moving from `from` (the node of
/// `current`) in `direction`.
pub open spec fn is_candidate<T: Copy + Eq>(from: Rect, current: T, node: FocusNode<T>, direction: FocusDirection) -> bool {
    node.id != current && spec_directional_rank(from, node.area, direction) is Some
}

/// Index of the first best-ranked candidate when moving from `from` in
/// `direction`, or -1 when no node lies that way.
pub open spec fn best_index<T: Copy + Eq>(from: Rect, current: T, nodes: Seq<FocusNode<T>>, direction: FocusDirection) -> int
    decreases nodes.len(),
{
    if nodes.len() == 0 {
        -1
    } else {
        let k = best_index(from, current, nodes.drop_last(), direction);
        let last = nodes.last();
        if is_candidate(from, current, last, direction) && (k < 0 || lex4_lt(
            spec_directional_rank(from, last.area, direction)->0,
            spec_directional_rank(from, nodes[k].area, direction)->0,
        )) {
            nodes.len() - 1
        } else {
            k
        }
    }
}

pub proof fn lemma_index_of_id<T: Copy + Eq>(nodes: Seq<FocusNode<T>>, id: T)
    ensures
        -1 <= index_of_id(nodes, id) < nodes.len(),
        index_of_id(nodes, id) >= 0 ==> nodes[index_of_id(nodes, id)].id == id,
        forall|j: int| 0 <= j < nodes.len() && j < index_of_id(nodes, id) ==> nodes[j].id != id,
        index_of_id(nodes, id) == -1 ==> forall|j: int| 0 <= j < nodes.len() ==> nodes[j].id != id,
    decreases nodes.len(),
{
    if nodes.len() > 0 {
        lemma_index_of_id(nodes.drop_last(), id);
        assert forall|j: int| 0 <= j < nodes.len() - 1 implies nodes.drop_last()[j] == nodes[j] by {}
    }
}

pub proof fn lemma_nearest_index<T: Copy + Eq>(anchor: Rect, nodes: Seq<FocusNode<T>>)
    requires
        nodes.len() > 0,
    ensures
        0 <= nearest_index(anchor, nodes) < nodes.len(),
    decreases nodes.len(),
{
    if nodes.len() > 1 {
        lemma_nearest_index(anchor, nodes.drop_last());
    }
}

pub proof fn lemma_best_index<T: Copy + Eq>(from: Rect, current: T, nodes: Seq<FocusNode<T>>, direction: FocusDirection)
    ensures
        -1 <= best_index(from, current, nodes, direction) < nodes.len(),
        best_index(from, current, nodes, direction) >= 0 ==> is_candidate(from, current, nodes[best_index(from, current, nodes, direction)], direction),
        best_index(from, current, nodes, direction) == -1 ==> forall|j: int| 0 <= j < nodes.len() ==> !is_candidate(from, current, #[trigger] nodes[j], direction),
    decreases nodes.len(),
{
    if nodes.len() > 0 {
        lemma_best_index(from, current, nodes.drop_last(), direction);
        assert forall|j: int| 0 <= j < nodes.len() - 1 implies nodes.drop_last()[j] == nodes[j] by {}
    }
}

proof fn lemma_best_index_minimal<T: Copy + Eq>(from: Rect, current: T, nodes: Seq<FocusNode<T>>, direction: FocusDirection)
    ensures
        best_index(from, current, nodes, direction) >= 0 ==> forall|j: int|
            0 <= j < nodes.len() && is_candidate(from, current, #[trigger] nodes[j], direction) ==> !lex4_lt(
                spec_directional_rank(from, nodes[j].area, direction)->0,
                spec_directional_rank(from, nodes[best_index(from, current, nodes, direction)].area, direction)->0,
            ),
    decreases nodes.len(),
{
    lemma_best_index(from, current, nodes, direction);
    if nodes.len() > 0 {
        let pre = nodes.drop_last();
        lemma_best_index_minimal(from, current, pre, direction);
        lemma_best_index(from, current, pre, direction);
        assert forall|j: int| 0 <= j < nodes.len() - 1 implies pre[j] == nodes[j] by {}
    }
}

/// Whether `to` lies in `direction` from `from`: it reaches past `from`'s
/// edge on that side.
pub open spec fn lies_toward(from: Rect, to: Rect, direction: FocusDirection) -> bool {
    match direction {
        FocusDirection::Left => to.x < from.x,
        FocusDirection::Right => to.x + to.width > from.x + from.width,
        FocusDirection::Up => to.y < from.y,
        FocusDirection::Down => to.y + to.height > from.y + from.height,
        _ => false,
    }
}

/// Whether `to` is in the beam of `from` for `direction`: their extents
/// across the direction overlap.
pub open spec fn in_beam(from: Rect, to: Rect, direction: FocusDirection) -> bool {
    match direction {
        FocusDirection::Left | FocusDirection::Right => from.y < to.y + to.height && to.y < from.y + from.height,
        _ => from.x < to.x + to.width && to.x < from.x + from.width,
    }
}

/// The empty space between `from`'s edge on the side of `direction` and the
/// facing edge of `to` (zero when they touch or overlap).
pub open spec fn gap_toward(from: Rect, to: Rect, direction: FocusDirection) -> int {
    spec_max0(
        match direction {
            FocusDirection::Left => from.x - (to.x + to.width),
            FocusDirection::Right => to.x - (from.x + from.width),
            FocusDirection::Up => from.y - (to.y + to.height),
            _ => to.y - (from.y + from.height),
        },
    )
}

/// Moving with an arrow key picks, among the other nodes lying that way,
/// one in the beam of the current node whenever there is one, and of those
/// comparable with it the one nearest across the gap: no other candidate in
/// the beam, or none at all when the pick is out of it, is closer. It finds
/// a node exactly when some other node lies that way.
pub proof fn law_arrow_move_picks_nearest<T: Copy + Eq>(
    from: Rect,
    current: T,
    nodes: Seq<FocusNode<T>>,
    direction: FocusDirection,
)
    requires
        direction == FocusDirection::Left || direction == FocusDirection::Right || direction == FocusDirection::Up
            || direction == FocusDirection::Down,
    ensures
        ({
            let b = best_index(from, current, nodes, direction);
            &&& (b >= 0) == (exists|j: int|
                0 <= j < nodes.len() && nodes[j].id != current && #[trigger] lies_toward(from, nodes[j].area, direction))
            &&& b >= 0 ==> nodes[b].id != current && lies_toward(from, nodes[b].area, direction)
            &&& b >= 0 ==> forall|j: int|
                0 <= j < nodes.len() && nodes[j].id != current && #[trigger] lies_toward(from, nodes[j].area, direction)
                    ==> (in_beam(from, nodes[j].area, direction) ==> in_beam(from, nodes[b].area, direction)) && (in_beam(
                    from,
                    nodes[j].area,
                    direction,
                ) == in_beam(from, nodes[b].area, direction) ==> gap_toward(from, nodes[b].area, direction) <= gap_toward(
                    from,
                    nodes[j].area,
                    direction,
                ))
        }),
{
    lemma_best_index(from, current, nodes, direction);
    lemma_best_index_minimal(from, current, nodes, direction);
    let b = best_index(from, current, nodes, direction);
    if exists|j: int| 0 <= j < nodes.len() && nodes[j].id != current && #[trigger] lies_toward(from, nodes[j].area, direction) {
        let j = choose|j: int| 0 <= j < nodes.len() && nodes[j].id != current && #[trigger] lies_toward(from, nodes[j].area, direction);
        assert(is_candidate(from, current, nodes[j], direction));
    }
    if b >= 0 {
        assert(is_candidate(from, current, nodes[b], direction));
        assert(lies_toward(from, nodes[b].area, direction));
        assert forall|j: int|
            0 <= j < nodes.len() && nodes[j].id != current && #[trigger] lies_toward(from, nodes[j].area, direction) implies (in_beam(
            from,
            nodes[j].area,
            direction,
        ) ==> in_beam(from, nodes[b].area, direction)) && (in_beam(from, nodes[j].area, direction) == in_beam(
            from,
            nodes[b].area,
            direction,
        ) ==> gap_toward(from, nodes[b].area, direction) <= gap_toward(from, nodes[j].area, direction)) by {
            assert(is_candidate(from, current, nodes[j], direction));
        }
    }
}

/// Whether the ids of `nodes` are pairwise distinct.
pub open spec fn distinct_ids<T: Copy + Eq>(nodes: Seq<FocusNode<T>>) -> bool {
    forall|i: int, j: int| 0 <= i < nodes.len() && 0 <= j < nodes.len() && i != j ==> nodes[i].id != nodes[j].id
}

/// The abstract state of a navigator: the selected id and the last node that
/// held the selection.
pub type NavigatorView<T> = (Option<T>, Option<FocusNode<T>>);

/// The state after selecting `node`.
pub open spec fn nav_selecting<T: Copy + Eq>(node: FocusNode<T>) -> NavigatorView<T> {
    (Some(node.id), Some(node))
}

/// What `sync` returns and leaves behind: the current selection when it is
/// still on screen; otherwise the node nearest to the last selected one, or
/// else the first node; nothing when there are no nodes.
pub open spec fn nav_sync<T: Copy + Eq>(v: NavigatorView<T>, nodes: Seq<FocusNode<T>>) -> (Option<T>, NavigatorView<T>) {
    if nodes.len() == 0 {
        (None, (None, None))
    } else if v.0 is Some && index_of_id(nodes, v.0->0) >= 0 {
        (v.0, (v.0, Some(nodes[index_of_id(nodes, v.0->0)])))
    } else {
        let i = match v.1 {
            Some(anchor) => nearest_index(anchor.area, nodes),
            None => 0,
        };
        (Some(nodes[i].id), nav_selecting(nodes[i]))
    }
}

/// Like `nav_sync`, but with no previous node to recover from it falls back
/// to the node carrying `preferred` before the first node.
pub open spec fn nav_sync_with_preferred<T: Copy + Eq>(v: NavigatorView<T>, nodes: Seq<FocusNode<T>>, preferred: T) -> (Option<T>, NavigatorView<T>) {
    if nodes.len() == 0 {
        (None, (None, None))
    } else if v.0 is Some && index_of_id(nodes, v.0->0) >= 0 {
        (v.0, (v.0, Some(nodes[index_of_id(nodes, v.0->0)])))
    } else {
        let i = match v.1 {
            Some(anchor) => nearest_index(anchor.area, nodes),
            None => if index_of_id(nodes, preferred) >= 0 { index_of_id(nodes, preferred) } else { 0 },
        };
        (Some(nodes[i].id), nav_selecting(nodes[i]))
    }
}

/// The index one step forward (`forward`) or backward from `index`, wrapping.
pub open spec fn step_index(index: int, forward: bool, len: int) -> int {
    if forward {
        if index + 1 >= len { 0 } else { index + 1 }
    } else {
        if index <= 0 { len - 1 } else { index - 1 }
    }
}

/// Tab-order navigation: after syncing, the node after (or before) the
/// selected one in `nodes`, wrapping around.
pub open spec fn nav_step<T: Copy + Eq>(v: NavigatorView<T>, nodes: Seq<FocusNode<T>>, forward: bool) -> (Option<T>, NavigatorView<T>) {
    if nodes.len() == 0 {
        (None, (None, None))
    } else {
        let current = nav_sync(v, nodes).0->0;
        let n = step_index(index_of_id(nodes, current), forward, nodes.len() as int);
        (Some(nodes[n].id), nav_selecting(nodes[n]))
    }
}

/// Spatial navigation: after syncing, the best-ranked node lying in
/// `direction` from the selected node; the selection stays when there is
/// none.
pub open spec fn nav_move_spatially<T: Copy + Eq>(v: NavigatorView<T>, nodes: Seq<FocusNode<T>>, direction: FocusDirection) -> (Option<T>, NavigatorView<T>) {
    let synced = nav_sync(v, nodes);
    if nodes.len() == 0 {
        synced
    } else {
        let current = synced.0->0;
        let from = nodes[index_of_id(nodes, current)].area;
        let b = best_index(from, current, nodes, direction);
        if b >= 0 {
            (Some(nodes[b].id), nav_selecting(nodes[b]))
        } else {
            synced
        }
    }
}

pub open spec fn nav_move_direction<T: Copy + Eq>(v: NavigatorView<T>, nodes: Seq<FocusNode<T>>, direction: FocusDirection) -> (Option<T>, NavigatorView<T>) {
    match direction {
        FocusDirection::Next => nav_step(v, nodes, true),
        FocusDirection::Previous => nav_step(v, nodes, false),
        _ => nav_move_spatially(v, nodes, direction),
    }
}

/// Moves a selection among focusable nodes, by tab order or spatially, and
/// recovers a sensible selection when the visible nodes change.
#[derive(Clone, Copy, Debug)]
pub struct FocusNavigator<T: Copy + Eq> {
    selected: Option<T>,
    last_node: Option<FocusNode<T>>,
}

impl<T: Copy + Eq> View for FocusNavigator<T> {
    type V = NavigatorView<T>;

    closed spec fn view(&self) -> NavigatorView<T> {
        (self.selected, self.last_node)
    }
}

/// Creates a navigator with `initial` selected.
pub fn use_focus_navigator<T: Copy + Eq>(initial: Option<T>) -> (n: FocusNavigator<T>)
    ensures
        n@ == (initial, None::<FocusNode<T>>),
{
    FocusNavigator { selected: initial, last_node: None }
}

#[derive(Clone, Copy, Debug)]
struct FocusCandidateRank {
    beam_rank: u8,
    primary_gap: i32,
    secondary_gap: i32,
    center_delta: i32,
}

impl FocusCandidateRank {
    spec fn spec_tuple(self) -> (int, int, int, int) {
        (self.beam_rank as int, self.primary_gap as int, self.secondary_gap as int, self.center_delta as int)
    }
}

#[derive(Clone, Copy, Debug)]
struct NearestRank {
    total_gap: i32,
    max_gap: i32,
    center_distance: i32,
}

impl NearestRank {
    spec fn spec_tuple(self) -> (int, int, int) {
        (self.total_gap as int, self.max_gap as int, self.center_distance as int)
    }
}

fn rank_lt(a: FocusCandidateRank, b: FocusCandidateRank) -> (r: bool)
    ensures
        r == lex4_lt(a.spec_tuple(), b.spec_tuple()),
{
    if a.beam_rank != b.beam_rank {
        a.beam_rank < b.beam_rank
    } else if a.primary_gap != b.primary_gap {
        a.primary_gap < b.primary_gap
    } else if a.secondary_gap != b.secondary_gap {
        a.secondary_gap < b.secondary_gap
    } else {
        a.center_delta < b.center_delta
    }
}

fn nearest_lt(a: NearestRank, b: NearestRank) -> (r: bool)
    ensures
        r == lex3_lt(a.spec_tuple(), b.spec_tuple()),
{
    if a.total_gap != b.total_gap {
        a.total_gap < b.total_gap
    } else if a.max_gap != b.max_gap {
        a.max_gap < b.max_gap
    } else {
        a.center_distance < b.center_distance
    }
}

fn axis_range(start: u16, len: u16) -> (r: (i32, i32))
    ensures
        r.0 == spec_axis_range(start, len).0,
        r.1 == spec_axis_range(start, len).1,
        0 <= r.0 <= 65535,
        0 <= r.1 <= 131070,
{
    let s = start as i32;
    (s, s + len as i32)
}

fn ranges_overlap(a: (i32, i32), b: (i32, i32)) -> (r: bool)
    ensures
        r == spec_ranges_overlap((a.0 as int, a.1 as int), (b.0 as int, b.1 as int)),
{
    a.0 < b.1 && b.0 < a.1
}

fn range_gap(a: (i32, i32), b: (i32, i32)) -> (r: i32)
    requires
        0 <= a.0 <= a.1 <= 131070,
        0 <= b.0 <= b.1 <= 131070,
    ensures
        r == spec_range_gap((a.0 as int, a.1 as int), (b.0 as int, b.1 as int)),
        0 <= r <= 131070,
{
    if ranges_overlap(a, b) {
        0
    } else if a.1 <= b.0 {
        b.0 - a.1
    } else {
        a.0 - b.1
    }
}

fn center(range: (i32, i32)) -> (r: i32)
    requires
        0 <= range.0 <= range.1 <= 131070,
    ensures
        r == spec_center((range.0 as int, range.1 as int)),
        range.0 <= r <= range.1,
{
    range.0 + (range.1 - range.0) / 2
}

fn center_delta(a: (i32, i32), b: (i32, i32)) -> (r: i32)
    requires
        0 <= a.0 <= a.1 <= 131070,
        0 <= b.0 <= b.1 <= 131070,
    ensures
        r == spec_center_delta((a.0 as int, a.1 as int), (b.0 as int, b.1 as int)),
        0 <= r <= 131070,
{
    let d = center(a) - center(b);
    if d < 0 {
        -d
    } else {
        d
    }
}

fn directional_rank(from: Rect, to: Rect, direction: FocusDirection) -> (r: Option<FocusCandidateRank>)
    ensures
        r is Some <==> spec_directional_rank(from, to, direction) is Some,
        r is Some ==> r->0.spec_tuple() == spec_directional_rank(from, to, direction)->0,
{
    let from_x = axis_range(from.x, from.width);
    let from_y = axis_range(from.y, from.height);
    let to_x = axis_range(to.x, to.width);
    let to_y = axis_range(to.y, to.height);

    let (primary_gap, secondary_gap, delta, overlaps_beam) = match direction {
        FocusDirection::Left => {
            if to_x.0 < from_x.0 {
                let p = from_x.0 - to_x.1;
                (if p < 0 { 0 } else { p }, range_gap(from_y, to_y), center_delta(from_y, to_y), ranges_overlap(from_y, to_y))
            } else {
                return None;
            }
        },
        FocusDirection::Right => {
            if to_x.1 > from_x.1 {
                let p = to_x.0 - from_x.1;
                (if p < 0 { 0 } else { p }, range_gap(from_y, to_y), center_delta(from_y, to_y), ranges_overlap(from_y, to_y))
            } else {
                return None;
            }
        },
        FocusDirection::Up => {
            if to_y.0 < from_y.0 {
                let p = from_y.0 - to_y.1;
                (if p < 0 { 0 } else { p }, range_gap(from_x, to_x), center_delta(from_x, to_x), ranges_overlap(from_x, to_x))
            } else {
                return None;
            }
        },
        FocusDirection::Down => {
            if to_y.1 > from_y.1 {
                let p = to_y.0 - from_y.1;
                (if p < 0 { 0 } else { p }, range_gap(from_x, to_x), center_delta(from_x, to_x), ranges_overlap(from_x, to_x))
            } else {
                return None;
            }
        },
        _ => {
            return None;
        },
    };

    Some(FocusCandidateRank {
        beam_rank: if overlaps_beam { 0 } else { 1 },
        primary_gap,
        secondary_gap,
        center_delta: delta,
    })
}

fn nearest_rank(from: Rect, to: Rect) -> (r: NearestRank)
    ensures
        r.spec_tuple() == spec_nearest_rank(from, to),
{
    let fx = axis_range(from.x, from.width);
    let fy = axis_range(from.y, from.height);
    let tx = axis_range(to.x, to.width);
    let ty = axis_range(to.y, to.height);
    let dx = range_gap(fx, tx);
    let dy = range_gap(fy, ty);
    let cx = center(fx) - center(tx);
    let cy = center(fy) - center(ty);
    NearestRank {
        total_gap: dx + dy,
        max_gap: if dx >= dy { dx } else { dy },
        center_distance: (if cx < 0 { -cx } else { cx }) + (if cy < 0 { -cy } else { cy }),
    }
}

proof fn lemma_take_last<A>(s: Seq<A>, i: int)
    requires
        0 <= i < s.len(),
    ensures
        s.take(i + 1).drop_last() == s.take(i),
        s.take(i + 1).last() == s[i],
        s.take(i + 1).len() == i + 1,
        forall|k: int| 0 <= k <= i ==> s.take(i + 1)[k] == s[k],
{
    assert(s.take(i + 1).drop_last() =~= s.take(i));
}

/// Index of the first node carrying `id`.
fn find_index<T: Copy + Eq>(nodes: &[FocusNode<T>], id: T) -> (r: Option<usize>)
    requires
        obeys_concrete_eq::<T>(),
    ensures
        match r {
            Some(i) => i as int == index_of_id(nodes@, id) && i < nodes@.len(),
            None => index_of_id(nodes@, id) == -1,
        },
{
    proof {
        reveal(obeys_concrete_eq);
    }
    let mut i: usize = 0;
    while i < nodes.len()
        invariant
            0 <= i <= nodes@.len(),
            obeys_concrete_eq::<T>(),
            index_of_id(nodes@.take(i as int), id) == -1,
        decreases nodes@.len() - i,
    {
        proof {
            reveal(obeys_concrete_eq);
            lemma_take_last(nodes@, i as int);
        }
        if nodes[i].id == id {
            proof {
                assert(index_of_id(nodes@.take(i + 1), id) == i);
                lemma_index_of_id_prefix(nodes@, id, i + 1);
            }
            return Some(i);
        }
        i += 1;
    }
    proof {
        assert(nodes@.take(nodes@.len() as int) =~= nodes@);
    }
    None
}

/// A prefix that already contains `id` locates it where the whole sequence does.
proof fn lemma_index_of_id_prefix<T: Copy + Eq>(s: Seq<FocusNode<T>>, id: T, k: int)
    requires
        0 <= k <= s.len(),
        index_of_id(s.take(k), id) >= 0,
    ensures
        index_of_id(s, id) == index_of_id(s.take(k), id),
    decreases s.len(),
{
    if k == s.len() {
        assert(s.take(k) =~= s);
    } else {
        assert(s.drop_last().take(k) =~= s.take(k));
        lemma_index_of_id_prefix(s.drop_last(), id, k);
    }
}

impl<T: Copy + Eq> FocusNavigator<T> {
    /// The selected id.
    pub fn get(&self) -> (r: Option<T>)
        ensures
            r == self@.0,
    {
        self.selected
    }

    /// Selects `selected` (or nothing) and forgets the last selected node.
    pub fn set(&mut self, selected: Option<T>)
        ensures
            final(self)@ == (selected, None::<FocusNode<T>>),
    {
        self.selected = selected;
        self.last_node = None;
    }

    /// Selects `node`.
    pub fn set_node(&mut self, node: FocusNode<T>)
        ensures
            final(self)@ == nav_selecting(node),
    {
        self.select_node(node);
    }

    /// Selects nothing.
    pub fn clear(&mut self)
        ensures
            final(self)@ == (None::<T>, None::<FocusNode<T>>),
    {
        self.set(None);
    }

    fn select_node(&mut self, node: FocusNode<T>)
        ensures
            final(self)@ == nav_selecting(node),
    {
        self.selected = Some(node.id);
        self.last_node = Some(node);
    }

    /// The node that carries the selected id, remembered as the last node.
    fn current_node(&mut self, nodes: &[FocusNode<T>]) -> (r: Option<FocusNode<T>>)
        requires
            obeys_concrete_eq::<T>(),
        ensures
            old(self)@.0 is Some && index_of_id(nodes@, old(self)@.0->0) >= 0 ==> {
                &&& r == Some(nodes@[index_of_id(nodes@, old(self)@.0->0)])
                &&& r->0.id == old(self)@.0->0
                &&& final(self)@ == (old(self)@.0, r)
            },
            !(old(self)@.0 is Some && index_of_id(nodes@, old(self)@.0->0) >= 0) ==> {
                &&& r is None
                &&& final(self)@ == old(self)@
            },
    {
        let selected = match self.selected {
            Some(s) => s,
            None => {
                return None;
            },
        };
        match find_index(nodes, selected) {
            Some(i) => {
                let node = nodes[i];
                proof {
                    lemma_index_of_id(nodes@, selected);
                }
                self.last_node = Some(node);
                Some(node)
            },
            None => None,
        }
    }

    /// The first node nearest to the last selected node.
    fn nearest_to_last_node(&self, nodes: &[FocusNode<T>]) -> (r: Option<FocusNode<T>>)
        requires
            nodes@.len() > 0,
        ensures
            match self@.1 {
                Some(anchor) => r == Some(nodes@[nearest_index(anchor.area, nodes@)]),
                None => r is None,
            },
    {
        let anchor = match self.last_node {
            Some(a) => a,
            None => {
                return None;
            },
        };
        let mut best: usize = 0;
        let mut best_rank = nearest_rank(anchor.area, nodes[0].area);
        let mut i: usize = 1;
        proof {
            assert(nodes@.take(1).len() == 1);
        }
        while i < nodes.len()
            invariant
                1 <= i <= nodes@.len(),
                best < i,
                best as int == nearest_index(anchor.area, nodes@.take(i as int)),
                best_rank.spec_tuple() == spec_nearest_rank(anchor.area, nodes@[best as int].area),
            decreases nodes@.len() - i,
        {
            proof {
                lemma_take_last(nodes@, i as int);
            }
            let rank = nearest_rank(anchor.area, nodes[i].area);
            if nearest_lt(rank, best_rank) {
                best = i;
                best_rank = rank;
            }
            i += 1;
        }
        proof {
            assert(nodes@.take(nodes@.len() as int) =~= nodes@);
        }
        Some(nodes[best])
    }

    /// Keeps the selection on screen: returns the selected id when its node
    /// is among `nodes`, otherwise selects the node nearest to the last
    /// selected one (or the first node); selects nothing when `nodes` is empty.
    pub fn sync(&mut self, nodes: &[FocusNode<T>]) -> (r: Option<T>)
        requires
            obeys_concrete_eq::<T>(),
        ensures
            (r, final(self)@) == nav_sync(old(self)@, nodes@),
    {
        if nodes.len() == 0 {
            self.clear();
            return None;
        }
        if let Some(node) = self.current_node(nodes) {
            return Some(node.id);
        }
        let next = match self.nearest_to_last_node(nodes) {
            Some(n) => n,
            None => nodes[0],
        };
        self.select_node(next);
        Some(next.id)
    }

    /// Like `sync`, but with no last node to recover from it prefers the node
    /// carrying `preferred` over the first node.
    pub fn sync_with_preferred(&mut self, nodes: &[FocusNode<T>], preferred: T) -> (r: Option<T>)
        requires
            obeys_concrete_eq::<T>(),
        ensures
            (r, final(self)@) == nav_sync_with_preferred(old(self)@, nodes@, preferred),
    {
        if nodes.len() == 0 {
            self.clear();
            return None;
        }
        if let Some(node) = self.current_node(nodes) {
            return Some(node.id);
        }
        let next = match self.nearest_to_last_node(nodes) {
            Some(n) => n,
            None => match find_index(nodes, preferred) {
                Some(i) => nodes[i],
                None => nodes[0],
            },
        };
        self.select_node(next);
        Some(next.id)
    }

    /// Selects the next node in tab order, wrapping.
    pub fn next(&mut self, nodes: &[FocusNode<T>]) -> (r: Option<T>)
        requires
            obeys_concrete_eq::<T>(),
        ensures
            (r, final(self)@) == nav_step(old(self)@, nodes@, true),
    {
        self.step(nodes, true)
    }

    /// Selects the previous node in tab order, wrapping.
    pub fn prev(&mut self, nodes: &[FocusNode<T>]) -> (r: Option<T>)
        requires
            obeys_concrete_eq::<T>(),
        ensures
            (r, final(self)@) == nav_step(old(self)@, nodes@, false),
    {
        self.step(nodes, false)
    }

    /// Moves the selection in `direction`.
    pub fn move_direction(&mut self, nodes: &[FocusNode<T>], direction: FocusDirection) -> (r: Option<T>)
        requires
            obeys_concrete_eq::<T>(),
        ensures
            (r, final(self)@) == nav_move_direction(old(self)@, nodes@, direction),
    {
        match direction {
            FocusDirection::Next => self.next(nodes),
            FocusDirection::Previous => self.prev(nodes),
            _ => self.move_spatially(nodes, direction),
        }
    }

    fn step(&mut self, nodes: &[FocusNode<T>], forward: bool) -> (r: Option<T>)
        requires
            obeys_concrete_eq::<T>(),
        ensures
            (r, final(self)@) == nav_step(old(self)@, nodes@, forward),
    {
        if nodes.len() == 0 {
            self.clear();
            return None;
        }
        let ghost before = self@;
        let current = match self.sync(nodes) {
            Some(c) => c,
            None => {
                return None;
            },
        };
        proof {
            lemma_sync_selects_present(before, nodes@);
        }
        let current_idx = match find_index(nodes, current) {
            Some(i) => i,
            None => 0,
        };
        let len = nodes.len();
        let next_idx = if forward {
            if current_idx + 1 >= len { 0 } else { current_idx + 1 }
        } else {
            if current_idx == 0 { len - 1 } else { current_idx - 1 }
        };
        let next = nodes[next_idx];
        self.select_node(next);
        Some(next.id)
    }

    fn move_spatially(&mut self, nodes: &[FocusNode<T>], direction: FocusDirection) -> (r: Option<T>)
        requires
            obeys_concrete_eq::<T>(),
        ensures
            (r, final(self)@) == nav_move_spatially(old(self)@, nodes@, direction),
    {
        let ghost before = self@;
        let current = match self.sync(nodes) {
            Some(c) => c,
            None => {
                return None;
            },
        };
        proof {
            lemma_sync_selects_present(before, nodes@);
            reveal(obeys_concrete_eq);
        }
        let current_idx = match find_index(nodes, current) {
            Some(i) => i,
            None => {
                return Some(current);
            },
        };
        let from = nodes[current_idx].area;

        let mut best: Option<(FocusCandidateRank, usize)> = None;
        let mut i: usize = 0;
        while i < nodes.len()
            invariant
                0 <= i <= nodes@.len(),
                obeys_concrete_eq::<T>(),
                match best {
                    Some(b) => {
                        &&& b.1 < i
                        &&& b.1 as int == best_index(from, current, nodes@.take(i as int), direction)
                        &&& spec_directional_rank(from, nodes@[b.1 as int].area, direction) is Some
                        &&& b.0.spec_tuple() == spec_directional_rank(from, nodes@[b.1 as int].area, direction)->0
                    },
                    None => best_index(from, current, nodes@.take(i as int), direction) == -1,
                },
            decreases nodes@.len() - i,
        {
            proof {
                reveal(obeys_concrete_eq);
                lemma_take_last(nodes@, i as int);
            }
            let node = nodes[i];
            if !(node.id == current) {
                if let Some(rank) = directional_rank(from, node.area, direction) {
                    let better = match best {
                        Some(b) => rank_lt(rank, b.0),
                        None => true,
                    };
                    if better {
                        best = Some((rank, i));
                    }
                }
            }
            i += 1;
        }
        proof {
            assert(nodes@.take(nodes@.len() as int) =~= nodes@);
        }
        match best {
            Some(b) => {
                let node = nodes[b.1];
                self.select_node(node);
                Some(node.id)
            },
            None => Some(current),
        }
    }
}

/// After syncing a non-empty list, the selected id belongs to a node in it.
pub proof fn lemma_sync_selects_present<T: Copy + Eq>(v: NavigatorView<T>, nodes: Seq<FocusNode<T>>)
    requires
        nodes.len() > 0,
    ensures
        nav_sync(v, nodes).0 is Some,
        index_of_id(nodes, nav_sync(v, nodes).0->0) >= 0,
        nav_sync(v, nodes).1.0 == nav_sync(v, nodes).0,
{
    let r = nav_sync(v, nodes);
    if v.0 is Some && index_of_id(nodes, v.0->0) >= 0 {
    } else {
        let i = match v.1 {
            Some(anchor) => nearest_index(anchor.area, nodes),
            None => 0,
        };
        if v.1 is Some {
            lemma_nearest_index(v.1->0.area, nodes);
        }
        lemma_index_of_id(nodes, nodes[i].id);
    }
}


/// With distinct ids, the first node carrying the id of node `i` is node `i`.
proof fn lemma_distinct_index<T: Copy + Eq>(nodes: Seq<FocusNode<T>>, i: int)
    requires
        distinct_ids(nodes),
        0 <= i < nodes.len(),
    ensures
        index_of_id(nodes, nodes[i].id) == i,
{
    lemma_index_of_id(nodes, nodes[i].id);
}

/// The node chosen by spatial navigation is a candidate in that direction
/// and no candidate ranks strictly better.
pub proof fn law_best_index_is_best<T: Copy + Eq>(from: Rect, current: T, nodes: Seq<FocusNode<T>>, direction: FocusDirection)
    ensures
        best_index(from, current, nodes, direction) >= 0 ==> {
            let b = best_index(from, current, nodes, direction);
            &&& is_candidate(from, current, nodes[b], direction)
            &&& forall|j: int| 0 <= j < nodes.len() && is_candidate(from, current, #[trigger] nodes[j], direction)
                ==> !lex4_lt(spec_directional_rank(from, nodes[j].area, direction)->0, spec_directional_rank(from, nodes[b].area, direction)->0)
        },
        best_index(from, current, nodes, direction) == -1 ==> forall|j: int| 0 <= j < nodes.len() ==> !is_candidate(from, current, #[trigger] nodes[j], direction),
    decreases nodes.len(),
{
    lemma_best_index(from, current, nodes, direction);
    if nodes.len() > 0 {
        let prefix = nodes.drop_last();
        law_best_index_is_best(from, current, prefix, direction);
        lemma_best_index(from, current, prefix, direction);
        assert forall|j: int| 0 <= j < nodes.len() - 1 implies prefix[j] == nodes[j] by {}
    }
}

/// The node chosen when recovering a lost selection is nearest to the anchor:
/// no node ranks strictly nearer.
pub proof fn law_nearest_index_is_nearest<T: Copy + Eq>(anchor: Rect, nodes: Seq<FocusNode<T>>)
    requires
        nodes.len() > 0,
    ensures
        0 <= nearest_index(anchor, nodes) < nodes.len(),
        forall|j: int| 0 <= j < nodes.len() ==> !lex3_lt(
            spec_nearest_rank(anchor, #[trigger] nodes[j].area),
            spec_nearest_rank(anchor, nodes[nearest_index(anchor, nodes)].area),
        ),
    decreases nodes.len(),
{
    lemma_nearest_index(anchor, nodes);
    if nodes.len() > 1 {
        let prefix = nodes.drop_last();
        law_nearest_index_is_nearest(anchor, prefix);
        assert forall|j: int| 0 <= j < nodes.len() - 1 implies prefix[j] == nodes[j] by {}
    }
}

/// Syncing a second time changes nothing when node ids are distinct.
pub proof fn law_sync_idempotent<T: Copy + Eq>(v: NavigatorView<T>, nodes: Seq<FocusNode<T>>)
    requires
        distinct_ids(nodes),
    ensures
        nav_sync(nav_sync(v, nodes).1, nodes) == nav_sync(v, nodes),
{
    if nodes.len() > 0 {
        lemma_sync_selects_present(v, nodes);
        if v.0 is Some && index_of_id(nodes, v.0->0) >= 0 {
        } else {
            let i = match v.1 {
                Some(anchor) => nearest_index(anchor.area, nodes),
                None => 0,
            };
            if v.1 is Some {
                lemma_nearest_index(v.1->0.area, nodes);
            }
            lemma_distinct_index(nodes, i);
        }
    }
}

/// Moving to the next node in tab order and then to the previous one (or the
/// other way round) returns to the node selected after syncing, when node
/// ids are distinct.
pub proof fn law_step_forward_backward<T: Copy + Eq>(v: NavigatorView<T>, nodes: Seq<FocusNode<T>>, forward: bool)
    requires
        distinct_ids(nodes),
    ensures
        nav_step(nav_step(v, nodes, forward).1, nodes, !forward).0 == nav_sync(v, nodes).0,
{
    if nodes.len() > 0 {
        lemma_sync_selects_present(v, nodes);
        let c = nav_sync(v, nodes).0->0;
        let idx = index_of_id(nodes, c);
        lemma_index_of_id(nodes, c);
        let n = step_index(idx, forward, nodes.len() as int);
        let v1 = nav_step(v, nodes, forward).1;
        lemma_distinct_index(nodes, n);
        assert(nav_sync(v1, nodes).0 == Some(nodes[n].id));
        assert(step_index(n, !forward, nodes.len() as int) == idx);
    }
}

/// Spatial navigation lands on a node that is on screen.
pub proof fn law_move_spatially_stays_on_screen<T: Copy + Eq>(v: NavigatorView<T>, nodes: Seq<FocusNode<T>>, direction: FocusDirection)
    requires
        nodes.len() > 0,
    ensures
        nav_move_spatially(v, nodes, direction).0 is Some,
        index_of_id(nodes, nav_move_spatially(v, nodes, direction).0->0) >= 0,
{
    lemma_sync_selects_present(v, nodes);
    let current = nav_sync(v, nodes).0->0;
    let from = nodes[index_of_id(nodes, current)].area;
    let b = best_index(from, current, nodes, direction);
    lemma_best_index(from, current, nodes, direction);
    if b >= 0 {
        lemma_index_of_id(nodes, nodes[b].id);
    }
}

/// When spatial navigation moves the selection (ids distinct), the new node
/// lies in the requested direction from the node selected before.
pub proof fn law_move_spatially_follows_direction<T: Copy + Eq>(v: NavigatorView<T>, nodes: Seq<FocusNode<T>>, direction: FocusDirection)
    requires
        nodes.len() > 0,
        distinct_ids(nodes),
        nav_move_spatially(v, nodes, direction).0 != nav_sync(v, nodes).0,
    ensures
        ({
            let from = nodes[index_of_id(nodes, nav_sync(v, nodes).0->0)].area;
            let to = nodes[index_of_id(nodes, nav_move_spatially(v, nodes, direction).0->0)].area;
            spec_directional_rank(from, to, direction) is Some
        }),
{
    lemma_sync_selects_present(v, nodes);
    let current = nav_sync(v, nodes).0->0;
    let from = nodes[index_of_id(nodes, current)].area;
    let b = best_index(from, current, nodes, direction);
    lemma_best_index(from, current, nodes, direction);
    if b >= 0 {
        lemma_distinct_index(nodes, b);
    }
}

// ---------------------------------------------------------------------------
// Bridging the navigator and components
// ---------------------------------------------------------------------------

/// A component that the app-level navigator can select. Components with a
/// separate active mode (textboxes, terminals) report it through
/// `is_navigator_active`, and take events routed to them while selected
/// through `handle_navigator_event`.
pub trait NavigatorFocusable: View + Sized {
    /// What the component must hold for the bridge methods to be called.
    spec fn navigator_inv(&self) -> bool;

    /// The component after the navigator selected or deselected it.
    spec fn navigator_sync(v: Self::V, selected: bool) -> Self::V;

    /// Whether the component is in its active mode.
    spec fn navigator_active(v: Self::V) -> bool;

    /// What routing an event to the component at time `now` (milliseconds)
    /// answers and leaves behind.
    spec fn navigator_handle(v: Self::V, event: SmashEvent, now: u64) -> (EventStatus, Self::V);

    fn sync_navigator_focus(&mut self, selected: bool)
        requires
            old(self).navigator_inv(),
        ensures
            final(self).navigator_inv(),
            final(self)@ == Self::navigator_sync(old(self)@, selected),
    ;

    fn is_navigator_active(&self) -> (b: bool)
        ensures
            b == Self::navigator_active(self@),
    ;

    fn handle_navigator_event(&mut self, event: &SmashEvent, now_ms: u64) -> (status: EventStatus)
        requires
            old(self).navigator_inv(),
            now_ms + crate::message::COPY_FEEDBACK_MS <= u64::MAX,
        ensures
            final(self).navigator_inv(),
            (status, final(self)@) == Self::navigator_handle(old(self)@, *event, now_ms),
    ;
}

/// The first position in `components` whose id is `id`, or -1.
pub open spec fn index_of_component<T, C>(components: Seq<(T, C)>, id: T) -> int
    decreases components.len(),
{
    if components.len() == 0 {
        -1
    } else if components[0].0 == id {
        0
    } else {
        let k = index_of_component(components.drop_first(), id);
        if k >= 0 { k + 1 } else { -1 }
    }
}

pub proof fn lemma_index_of_component<T, C>(components: Seq<(T, C)>, id: T)
    ensures
        -1 <= index_of_component(components, id) < components.len(),
        index_of_component(components, id) >= 0 ==> components[index_of_component(components, id)].0 == id,
        forall|j: int|
            0 <= j < components.len() && (index_of_component(components, id) < 0 || j
                < index_of_component(components, id)) ==> (#[trigger] components[j]).0 != id,
    decreases components.len(),
{
    if components.len() > 0 && components[0].0 != id {
        let rest = components.drop_first();
        lemma_index_of_component(rest, id);
        assert forall|j: int|
            0 <= j < components.len() && (index_of_component(components, id) < 0 || j
                < index_of_component(components, id)) implies (#[trigger] components[j]).0 != id by {
            if j > 0 {
                assert(components[j] == rest[j - 1]);
            }
        }
    }
}

/// Tells every component whether it is the one the navigator selected.
pub fn sync_navigator_focus<T: Copy + Eq, C: NavigatorFocusable>(selected: Option<T>, components: &mut Vec<(T, C)>)
    requires
        obeys_concrete_eq::<T>(),
        forall|i: int| 0 <= i < old(components)@.len() ==> (#[trigger] old(components)@[i]).1.navigator_inv(),
    ensures
        final(components)@.len() == old(components)@.len(),
        forall|i: int| 0 <= i < final(components)@.len() ==> {
            &&& (#[trigger] final(components)@[i]).0 == old(components)@[i].0
            &&& final(components)@[i].1.navigator_inv()
            &&& final(components)@[i].1@ == C::navigator_sync(old(components)@[i].1@, selected == Some(old(components)@[i].0))
        },
{
    let mut i: usize = 0;
    while i < components.len()
        invariant
            obeys_concrete_eq::<T>(),
            0 <= i <= components@.len(),
            components@.len() == old(components)@.len(),
            forall|j: int| 0 <= j < components@.len() ==> (#[trigger] components@[j]).0 == old(components)@[j].0,
            forall|j: int| 0 <= j < components@.len() ==> (#[trigger] components@[j]).1.navigator_inv(),
            forall|j: int| i <= j < components@.len() ==> (#[trigger] components@[j]).1@ == old(components)@[j].1@,
            forall|j: int| 0 <= j < i ==> (#[trigger] components@[j]).1@ == C::navigator_sync(old(components)@[j].1@, selected == Some(old(components)@[j].0)),
        decreases components@.len() - i,
    {
        let id = components[i].0;
        let is_selected = match selected {
            Some(s) => {
                proof {
                    reveal(obeys_concrete_eq);
                }
                s == id
            },
            None => false,
        };
        components[i].1.sync_navigator_focus(is_selected);
        i += 1;
    }
}

/// The selected id, when the component under it is in its active mode.
pub open spec fn spec_active_navigator_focus<T, C: NavigatorFocusable>(selected: Option<T>, components: Seq<(T, C)>) -> Option<T> {
    match selected {
        Some(s) => if exists|i: int| 0 <= i < components.len() && components[i].0 == s && C::navigator_active(#[trigger] components[i].1@) {
            Some(s)
        } else {
            None
        },
        None => None,
    }
}

/// The selected id, when the component under it is in its active mode.
pub fn active_navigator_focus<T: Copy + Eq, C: NavigatorFocusable>(selected: Option<T>, components: &Vec<(T, C)>) -> (r: Option<T>)
    requires
        obeys_concrete_eq::<T>(),
    ensures
        r == spec_active_navigator_focus(selected, components@),
{
    let s = match selected {
        Some(s) => s,
        None => return None,
    };
    let mut i: usize = 0;
    while i < components.len()
        invariant
            obeys_concrete_eq::<T>(),
            selected == Some(s),
            0 <= i <= components@.len(),
            forall|j: int| 0 <= j < i ==> !(components@[j].0 == s && C::navigator_active(#[trigger] components@[j].1@)),
        decreases components@.len() - i,
    {
        proof {
            reveal(obeys_concrete_eq);
        }
        if components[i].0 == s && components[i].1.is_navigator_active() {
            proof {
                let w = i as int;
                assert(components@[w].0 == s && C::navigator_active(components@[w].1@));
                assert(exists|j: int| 0 <= j < components@.len() && components@[j].0 == s && C::navigator_active(#[trigger] components@[j].1@));
            }
            return Some(s);
        }
        i += 1;
    }
    None
}

/// Routes an event to the first component under the selected id, and answers
/// what it answered (`Ignored` when nothing is selected or nothing has the id).
pub fn handle_selected_navigator_event<T: Copy + Eq, C: NavigatorFocusable>(
    selected: Option<T>,
    event: &SmashEvent,
    components: &mut Vec<(T, C)>,
    now_ms: u64,
) -> (status: EventStatus)
    requires
        obeys_concrete_eq::<T>(),
        now_ms + crate::message::COPY_FEEDBACK_MS <= u64::MAX,
        forall|i: int| 0 <= i < old(components)@.len() ==> (#[trigger] old(components)@[i]).1.navigator_inv(),
    ensures
        final(components)@.len() == old(components)@.len(),
        forall|i: int| 0 <= i < final(components)@.len() ==> (#[trigger] final(components)@[i]).0 == old(components)@[i].0,
        forall|i: int| 0 <= i < final(components)@.len() ==> (#[trigger] final(components)@[i]).1.navigator_inv(),
        match selected {
            Some(s) => {
                let k = index_of_component(old(components)@, s);
                &&& k < 0 ==> status == EventStatus::Ignored && final(components)@ == old(components)@
                &&& k >= 0 ==> (status, final(components)@[k].1@) == C::navigator_handle(old(components)@[k].1@, *event, now_ms)
                &&& forall|i: int| 0 <= i < final(components)@.len() && i != k ==> #[trigger] final(components)@[i] == old(components)@[i]
            },
            None => status == EventStatus::Ignored && final(components)@ == old(components)@,
        },
{
    let s = match selected {
        Some(s) => s,
        None => return EventStatus::Ignored,
    };
    proof {
        lemma_index_of_component(components@, s);
    }
    let mut i: usize = 0;
    while i < components.len()
        invariant
            obeys_concrete_eq::<T>(),
            selected == Some(s),
            now_ms + crate::message::COPY_FEEDBACK_MS <= u64::MAX,
            0 <= i <= components@.len(),
            components@ == old(components)@,
            forall|j: int| 0 <= j < components@.len() ==> (#[trigger] components@[j]).1.navigator_inv(),
            forall|j: int| 0 <= j < i ==> (#[trigger] components@[j]).0 != s,
        decreases components@.len() - i,
    {
        proof {
            reveal(obeys_concrete_eq);
        }
        if components[i].0 == s {
            proof {
                lemma_index_of_component(components@, s);
                assert(components@[i as int].0 == s);
                assert(index_of_component(old(components)@, s) == i);
            }
            let status = components[i].1.handle_navigator_event(event, now_ms);
            return status;
        }
        i += 1;
    }
    proof {
        assert(index_of_component(old(components)@, s) < 0);
    }
    EventStatus::Ignored
}


/// The starting tab for `count` tabs (at least one): `initial`, clamped to
/// the last tab. Superseded by `use_selection`.
pub fn use_tabs(initial: usize, count: usize) -> (tab: usize)
    ensures
        tab == (if initial < (if count == 0 { 1 } else { count }) { initial as int } else { (if count == 0 { 1 } else { count }) - 1 }),
{
    let count = if count == 0 { 1 } else { count };
    if initial < count { initial } else { count - 1 }
}

/// A starting on / off value. Superseded by `use_focus`.
pub fn use_toggle(initial: bool) -> (b: bool)
    ensures
        b == initial,
{
    initial
}

} // verus!
