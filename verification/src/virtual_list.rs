use crate::geometry::Rect;
use vstd::prelude::*;

verus! {

/// Columns taken by the scrollbar when it is shown.
pub const SCROLLBAR_WIDTH: u16 = 1;

/// Where item `i` starts: the sum of the heights before it, stopping at
/// `u16::MAX`.
pub open spec fn sat_prefix(heights: Seq<u16>, i: int) -> int
    decreases i,
{
    if i <= 0 {
        0
    } else {
        let p = sat_prefix(heights, i - 1) + heights[i - 1];
        if p > u16::MAX { u16::MAX as int } else { p }
    }
}

pub proof fn lemma_sat_prefix_bounds(heights: Seq<u16>, i: int)
    ensures
        0 <= sat_prefix(heights, i) <= u16::MAX,
    decreases i,
{
    if i > 0 {
        lemma_sat_prefix_bounds(heights, i - 1);
    }
}

/// Item starts never decrease.
pub proof fn lemma_sat_prefix_monotone(heights: Seq<u16>, i: int, j: int)
    requires
        i <= j,
    ensures
        sat_prefix(heights, i) <= sat_prefix(heights, j),
    decreases j - i,
{
    if i < j {
        lemma_sat_prefix_monotone(heights, i, j - 1);
        lemma_sat_prefix_bounds(heights, j - 1);
    }
}

/// The last item among the first `n` that starts at or above `row`, or -1.
pub open spec fn last_starting_by(heights: Seq<u16>, row: int, n: int) -> int
    decreases n,
{
    if n <= 0 {
        -1
    } else if sat_prefix(heights, n - 1) <= row {
        n - 1
    } else {
        last_starting_by(heights, row, n - 1)
    }
}

/// The item under content row `row` (0 for an empty list).
pub open spec fn spec_index_at(heights: Seq<u16>, row: int) -> int {
    if heights.len() == 0 { 0 } else { last_starting_by(heights, row, heights.len() as int) }
}

/// The rows item `index` takes (0 past the end).
pub open spec fn spec_item_height(heights: Seq<u16>, index: int) -> int {
    if 0 <= index < heights.len() {
        sat_prefix(heights, index + 1) - sat_prefix(heights, index)
    } else {
        0
    }
}

/// What a virtual list remembers.
pub struct VirtualListView {
    pub heights: Seq<u16>,
    pub scroll_offset: u16,
    pub show_scrollbar: bool,
    pub width: u16,
}

impl VirtualListView {
    pub open spec fn total(self) -> int {
        sat_prefix(self.heights, self.heights.len() as int)
    }
}

/// A scrollable list that only lays out the items in view. Items are known by
/// their heights at the list's width.
pub struct VirtualList {
    heights: Vec<u16>,
    cum_heights: Vec<u16>,
    total_height: u16,
    scroll_offset: u16,
    show_scrollbar: bool,
    width: u16,
}

impl VirtualList {
    #[verifier::type_invariant]
    closed spec fn prefix_sums(self) -> bool {
        &&& self.cum_heights@.len() == self.heights@.len()
        &&& forall|i: int| 0 <= i < self.heights@.len() ==> #[trigger] self.cum_heights@[i] == sat_prefix(self.heights@, i)
        &&& self.total_height == sat_prefix(self.heights@, self.heights@.len() as int)
    }
}

impl View for VirtualList {
    type V = VirtualListView;

    closed spec fn view(&self) -> VirtualListView {
        VirtualListView {
            heights: self.heights@,
            scroll_offset: self.scroll_offset,
            show_scrollbar: self.show_scrollbar,
            width: self.width,
        }
    }
}

fn compute_heights(heights: &Vec<u16>) -> (r: (Vec<u16>, u16))
    ensures
        r.0@.len() == heights@.len(),
        forall|i: int| 0 <= i < heights@.len() ==> #[trigger] r.0@[i] == sat_prefix(heights@, i),
        r.1 == sat_prefix(heights@, heights@.len() as int),
{
    let mut cum: Vec<u16> = Vec::new();
    let mut total: u16 = 0;
    let mut i: usize = 0;
    while i < heights.len()
        invariant
            0 <= i <= heights@.len(),
            cum@.len() == i,
            forall|j: int| 0 <= j < i ==> #[trigger] cum@[j] == sat_prefix(heights@, j),
            total == sat_prefix(heights@, i as int),
        decreases heights@.len() - i,
    {
        cum.push(total);
        total = total.saturating_add(heights[i]);
        i += 1;
    }
    (cum, total)
}

/// The offset `offset` clamped to the last content row.
pub open spec fn clamp_offset(offset: u16, total: int) -> u16 {
    let max_scroll = if total >= 1 { total - 1 } else { 0 };
    if offset <= max_scroll { offset } else { max_scroll as u16 }
}

/// Scrolling by `delta` rows for a viewport `viewport` rows high: down is
/// capped at the last full viewport, up at the top; nothing moves when the
/// content is shorter than the viewport.
pub open spec fn spec_scroll_by(v: VirtualListView, delta: i16, viewport: u16) -> VirtualListView {
    if v.total() < viewport {
        v
    } else {
        let max_scroll = v.total() - viewport;
        let current = v.scroll_offset as int;
        let next = if delta > 0 {
            let up = if current + delta > u16::MAX { u16::MAX as int } else { current + delta };
            if up <= max_scroll { up } else { max_scroll }
        } else {
            if current + delta >= 0 { current + delta } else { 0 }
        };
        VirtualListView { scroll_offset: next as u16, ..v }
    }
}

impl VirtualList {
    /// A list of items with the given heights, laid out `width` columns wide,
    /// scrolled to the top, with a scrollbar.
    pub fn new(heights: Vec<u16>, width: u16) -> (l: VirtualList)
        ensures
            l@ == (VirtualListView { heights: heights@, scroll_offset: 0, show_scrollbar: true, width }),
    {
        let (cum, total) = compute_heights(&heights);
        VirtualList {
            heights,
            cum_heights: cum,
            total_height: total,
            scroll_offset: 0,
            show_scrollbar: true,
            width,
        }
    }

    /// Takes the item heights measured at a new width and keeps the offset on
    /// the content.
    pub fn rebuild(&mut self, heights: Vec<u16>, width: u16)
        ensures
            final(self)@ == (VirtualListView {
                heights: heights@,
                scroll_offset: clamp_offset(old(self)@.scroll_offset, sat_prefix(heights@, heights@.len() as int)),
                show_scrollbar: old(self)@.show_scrollbar,
                width,
            }),
    {
        let (cum, total) = compute_heights(&heights);
        let offset = self.scroll_offset;
        let max_scroll = total.saturating_sub(1);
        *self = VirtualList {
            heights,
            cum_heights: cum,
            total_height: total,
            scroll_offset: if offset <= max_scroll { offset } else { max_scroll },
            show_scrollbar: self.show_scrollbar,
            width,
        };
    }

    pub fn count(&self) -> (n: usize)
        ensures
            n == self@.heights.len(),
    {
        self.heights.len()
    }

    pub fn total_height(&self) -> (t: u16)
        ensures
            t == self@.total(),
    {
        proof {
            use_type_invariant(self);
        }
        self.total_height
    }

    pub fn scroll_offset(&self) -> (o: u16)
        ensures
            o == self@.scroll_offset,
    {
        self.scroll_offset
    }

    pub fn show_scrollbar(&self) -> (b: bool)
        ensures
            b == self@.show_scrollbar,
    {
        self.show_scrollbar
    }

    pub fn set_show_scrollbar(&mut self, show: bool)
        ensures
            final(self)@ == (VirtualListView { show_scrollbar: show, ..old(self)@ }),
    {
        proof {
            use_type_invariant(&*self);
        }
        self.show_scrollbar = show;
    }

    /// The item under content row `row`.
    pub fn index_at(&self, row: u16) -> (i: usize)
        ensures
            i == spec_index_at(self@.heights, row as int),
    {
        proof {
            use_type_invariant(self);
        }
        let n = self.cum_heights.len();
        if n == 0 {
            return 0;
        }
        let mut lo: usize = 0;
        let mut hi: usize = n;
        while lo < hi
            invariant
                0 <= lo <= hi <= n,
                n == self.heights@.len(),
                n == self.cum_heights@.len(),
                forall|i: int| 0 <= i < n ==> #[trigger] self.cum_heights@[i] == sat_prefix(self.heights@, i),
                forall|j: int| 0 <= j < lo ==> sat_prefix(self.heights@, j) <= row,
                forall|j: int| hi <= j < n ==> sat_prefix(self.heights@, j) > row,
            decreases hi - lo,
        {
            let mid = lo + (hi - lo) / 2;
            if self.cum_heights[mid] <= row {
                proof {
                    assert forall|j: int| 0 <= j < mid + 1 implies sat_prefix(self.heights@, j) <= row by {
                        lemma_sat_prefix_monotone(self.heights@, j, mid as int);
                    }
                }
                lo = mid + 1;
            } else {
                proof {
                    assert forall|j: int| mid <= j < n implies sat_prefix(self.heights@, j) > row by {
                        lemma_sat_prefix_monotone(self.heights@, mid as int, j);
                    }
                }
                hi = mid;
            }
        }
        proof {
            assert(sat_prefix(self.heights@, 0) == 0);
            assert(lo > 0);
            lemma_last_starting_by(self.heights@, row as int, n as int, lo as int);
        }
        if lo == 0 {
            0
        } else {
            lo - 1
        }
    }

    /// The rows item `index` takes.
    pub fn item_height(&self, index: usize) -> (h: u16)
        ensures
            h == spec_item_height(self@.heights, index as int),
    {
        proof {
            use_type_invariant(self);
        }
        if index >= self.heights.len() {
            return 0;
        }
        proof {
            lemma_sat_prefix_monotone(self.heights@, index as int, index + 1);
            lemma_sat_prefix_bounds(self.heights@, index + 1);
        }
        if index + 1 < self.cum_heights.len() {
            self.cum_heights[index + 1] - self.cum_heights[index]
        } else {
            self.total_height - self.cum_heights[index]
        }
    }

    /// Scrolls to `offset`, kept on the content.
    pub fn scroll_to(&mut self, offset: u16)
        ensures
            final(self)@ == (VirtualListView { scroll_offset: clamp_offset(offset, old(self)@.total()), ..old(self)@ }),
    {
        proof {
            use_type_invariant(&*self);
        }
        let max_scroll = self.total_height.saturating_sub(1);
        self.scroll_offset = if offset <= max_scroll { offset } else { max_scroll };
    }

    /// Scrolls by `delta` rows for a viewport `viewport` rows high; nothing
    /// happens when the content is shorter than the viewport.
    pub fn scroll_by(&mut self, delta: i16, viewport: u16)
        ensures
            final(self)@ == spec_scroll_by(old(self)@, delta, viewport),
    {
        proof {
            use_type_invariant(&*self);
        }
        let current = self.scroll_offset;
        if self.total_height < viewport {
            return;
        }
        let max_scroll = self.total_height - viewport;
        let next = if delta > 0 {
            let up = current.saturating_add(delta as u16);
            if up <= max_scroll { up } else { max_scroll }
        } else {
            let down: u16 = if delta == i16::MIN { 32768 } else { (-delta) as u16 };
            current.saturating_sub(down)
        };
        self.scroll_offset = next;
    }

    /// Scrolls so the last row of content sits at the bottom of a viewport
    /// `viewport` rows high (nothing when the content is shorter).
    pub fn scroll_to_bottom(&mut self, viewport: u16)
        ensures
            final(self)@ == (if old(self)@.total() < viewport {
                old(self)@
            } else {
                VirtualListView { scroll_offset: (old(self)@.total() - viewport) as u16, ..old(self)@ }
            }),
    {
        proof {
            use_type_invariant(&*self);
        }
        if self.total_height < viewport {
            return;
        }
        self.scroll_offset = self.total_height - viewport;
    }

    pub fn scroll_to_top(&mut self)
        ensures
            final(self)@ == (VirtualListView { scroll_offset: 0, ..old(self)@ }),
    {
        proof {
            use_type_invariant(&*self);
        }
        self.scroll_offset = 0;
    }

    pub fn is_at_top(&self) -> (b: bool)
        ensures
            b == (self@.scroll_offset == 0 || self@.total() == 0),
    {
        proof {
            use_type_invariant(self);
        }
        self.scroll_offset == 0 || self.total_height == 0
    }

    pub fn is_at_bottom(&self, viewport: u16) -> (b: bool)
        ensures
            b == (self@.total() < viewport || self@.scroll_offset >= self@.total() - viewport),
    {
        proof {
            use_type_invariant(self);
        }
        if self.total_height < viewport {
            return true;
        }
        self.scroll_offset >= self.total_height - viewport
    }

    /// The largest offset at which a viewport `viewport` rows high is still
    /// filled.
    pub fn max_scroll(&self, viewport: u16) -> (m: u16)
        ensures
            m == (if self@.total() >= viewport { self@.total() - viewport } else { 0 }),
    {
        proof {
            use_type_invariant(self);
        }
        self.total_height.saturating_sub(viewport)
    }
}

/// When `lo` splits the first `n` item starts into those at or above `row`
/// and those below it, the last one at or above `row` is `lo - 1`.
proof fn lemma_last_starting_by(heights: Seq<u16>, row: int, n: int, lo: int)
    requires
        0 <= lo <= n,
        forall|j: int| 0 <= j < lo ==> sat_prefix(heights, j) <= row,
        forall|j: int| lo <= j < n ==> sat_prefix(heights, j) > row,
    ensures
        last_starting_by(heights, row, n) == lo - 1,
    decreases n,
{
    if n > 0 {
        if lo < n {
            lemma_last_starting_by(heights, row, n - 1, lo);
        }
    }
}

/// The items drawn from item `i` on, when item `i` starts at viewport row `y`:
/// each item that reaches into the viewport gets the rows of it in view.
pub open spec fn visible_from(heights: Seq<u16>, i: int, y: int, viewport: int, area: Rect, content_width: u16) -> Seq<(usize, Rect)>
    decreases heights.len() - i,
{
    if i < 0 || i >= heights.len() || y >= viewport {
        Seq::empty()
    } else {
        let end = y + spec_item_height(heights, i);
        let rest = visible_from(heights, i + 1, end, viewport, area, content_width);
        let top = if y > 0 { y } else { 0 };
        let bottom = if end < viewport { end } else { viewport };
        if end > 0 && bottom - top > 0 {
            seq![(i as usize, Rect { x: area.x, y: (area.y + top) as u16, width: content_width, height: (bottom - top) as u16 })] + rest
        } else {
            rest
        }
    }
}

/// The offset actually drawn: the scroll offset, kept so the last item ends
/// at the bottom of a viewport `viewport` rows high.
pub open spec fn drawn_offset(v: VirtualListView, viewport: int) -> int {
    let max_valid = if v.total() >= viewport { v.total() - viewport } else { 0 };
    if v.scroll_offset <= max_valid { v.scroll_offset as int } else { max_valid }
}

/// The columns left for items once the scrollbar takes its column.
pub open spec fn content_width(v: VirtualListView, area: Rect) -> u16 {
    let bar = if v.show_scrollbar { SCROLLBAR_WIDTH } else { 0 };
    if area.width >= bar { (area.width - bar) as u16 } else { 0 }
}

/// Which items a list drawn in `area` shows, and where.
pub open spec fn spec_visible_items(v: VirtualListView, area: Rect) -> Seq<(usize, Rect)> {
    if v.heights.len() == 0 || area.height == 0 {
        Seq::empty()
    } else {
        let offset = drawn_offset(v, area.height as int);
        let start = spec_index_at(v.heights, offset);
        visible_from(v.heights, start, sat_prefix(v.heights, start) - offset, area.height as int, area, content_width(v, area))
    }
}

/// The scrollbar of a list drawn in `area`: its column, the largest offset
/// and the thumb position, when there is a scrollbar and anything to scroll.
pub open spec fn spec_scrollbar(v: VirtualListView, area: Rect) -> Option<(Rect, u16, u16)> {
    let viewport = area.height as int;
    let max = if v.total() >= viewport { v.total() - viewport } else { 0 };
    if v.heights.len() == 0 || area.height == 0 || !v.show_scrollbar || max == 0 {
        None
    } else {
        let offset = drawn_offset(v, viewport);
        Some((
            Rect { x: (area.x + content_width(v, area)) as u16, y: area.y, width: SCROLLBAR_WIDTH, height: area.height },
            max as u16,
            (if offset <= max { offset } else { max }) as u16,
        ))
    }
}

/// The last item starting at or above `row` does start there.
proof fn lemma_last_starting_by_starts(heights: Seq<u16>, row: int, n: int)
    requires
        0 <= n <= heights.len(),
    ensures
        last_starting_by(heights, row, n) < n,
        last_starting_by(heights, row, n) >= 0 ==> sat_prefix(heights, last_starting_by(heights, row, n)) <= row,
        n > 0 && row >= 0 ==> last_starting_by(heights, row, n) >= 0,
    decreases n,
{
    if n > 0 {
        lemma_last_starting_by_starts(heights, row, n - 1);
    }
}

impl VirtualList {
    /// Which items to draw in `area`, and where, for the current offset.
    pub fn visible_items(&self, area: Rect) -> (items: Vec<(usize, Rect)>)
        requires
            self@.total() <= i16::MAX,
            area.height <= i16::MAX,
            area.y + area.height <= u16::MAX,
        ensures
            items@ == spec_visible_items(self@, area),
    {
        proof {
            use_type_invariant(self);
        }
        let mut out: Vec<(usize, Rect)> = Vec::new();
        let viewport = area.height;
        let n = self.heights.len();
        if n == 0 || viewport == 0 {
            return out;
        }
        let max_valid = self.total_height.saturating_sub(viewport);
        let offset = if self.scroll_offset <= max_valid { self.scroll_offset } else { max_valid };
        let cw = area.width.saturating_sub(if self.show_scrollbar { SCROLLBAR_WIDTH } else { 0 });
        let start = self.index_at(offset);
        proof {
            lemma_last_starting_by_starts(self.heights@, offset as int, n as int);
            lemma_sat_prefix_monotone(self.heights@, start as int, n as int);
        }
        let mut y: i32 = self.cum_heights[start] as i32 - offset as i32;
        let mut i: usize = start;
        let ghost whole = spec_visible_items(self@, area);
        while i < n && y < viewport as i32
            invariant
                start <= i <= n,
                n == self.heights@.len(),
                self@.total() <= i16::MAX,
                self.total_height == self@.total(),
                area.y + area.height <= u16::MAX,
                viewport == area.height,
                0 <= offset <= self@.total(),
                cw == content_width(self@, area),
                y == sat_prefix(self.heights@, i as int) - offset,
                whole == spec_visible_items(self@, area),
                out@ + visible_from(self.heights@, i as int, y as int, viewport as int, area, cw) == whole,
            decreases n - i,
        {
            proof {
                lemma_sat_prefix_monotone(self.heights@, i as int, i + 1);
                lemma_sat_prefix_monotone(self.heights@, i + 1, n as int);
            }
            let h = self.item_height(i) as i32;
            let end = y + h;
            let top: i32 = if y > 0 { y } else { 0 };
            let bottom: i32 = if end < viewport as i32 { end } else { viewport as i32 };
            let ghost rest = visible_from(self.heights@, i + 1, end as int, viewport as int, area, cw);
            if end > 0 && bottom - top > 0 {
                let r = Rect { x: area.x, y: area.y + top as u16, width: cw, height: (bottom - top) as u16 };
                out.push((i, r));
                proof {
                    assert(out@ + rest =~= whole);
                }
            }
            y = end;
            i += 1;
        }
        proof {
            assert(visible_from(self.heights@, i as int, y as int, viewport as int, area, cw) =~= Seq::empty());
            assert(out@ =~= whole);
        }
        out
    }

    /// The scrollbar to draw in `area`, when there is one.
    pub fn scrollbar(&self, area: Rect) -> (r: Option<(Rect, u16, u16)>)
        requires
            area.x + area.width <= u16::MAX,
        ensures
            r == spec_scrollbar(self@, area),
    {
        proof {
            use_type_invariant(self);
        }
        let viewport = area.height;
        let max = self.total_height.saturating_sub(viewport);
        if self.heights.len() == 0 || viewport == 0 || !self.show_scrollbar || max == 0 {
            return None;
        }
        let offset = if self.scroll_offset <= max { self.scroll_offset } else { max };
        let cw = area.width.saturating_sub(SCROLLBAR_WIDTH);
        Some((
            Rect { x: area.x + cw, y: area.y, width: SCROLLBAR_WIDTH, height: viewport },
            max,
            if offset <= max { offset } else { max },
        ))
    }
}


/// Every item after the last one starting at or above `row` starts below it.
proof fn lemma_last_starting_by_is_last(heights: Seq<u16>, row: int, n: int, j: int)
    requires
        0 <= n <= heights.len(),
        last_starting_by(heights, row, n) < j < n,
    ensures
        sat_prefix(heights, j) > row,
    decreases n,
{
    if n > 0 && sat_prefix(heights, n - 1) > row && j < n - 1 {
        lemma_last_starting_by_is_last(heights, row, n - 1, j);
    }
}

/// For a row inside the content, `index_at` names the item whose rows hold
/// it: the item starts at or above the row and ends below it.
pub proof fn law_index_at_holds_row(heights: Seq<u16>, row: int)
    requires
        0 <= row < sat_prefix(heights, heights.len() as int),
    ensures
        0 <= spec_index_at(heights, row) < heights.len(),
        sat_prefix(heights, spec_index_at(heights, row)) <= row < sat_prefix(heights, spec_index_at(heights, row) + 1),
{
    let n = heights.len() as int;
    assert(n > 0);
    lemma_last_starting_by_starts(heights, row, n);
    let i = spec_index_at(heights, row);
    if i + 1 < n {
        lemma_last_starting_by_is_last(heights, row, n, i + 1);
    }
}

/// Scrolling never leaves the offset past the last full viewport.
pub proof fn law_scroll_by_stays_in_range(v: VirtualListView, delta: i16, viewport: u16)
    requires
        v.scroll_offset <= (if v.total() >= viewport { v.total() - viewport } else { 0 }),
    ensures
        spec_scroll_by(v, delta, viewport).scroll_offset <= (if v.total() >= viewport { v.total() - viewport } else { 0 }),
{
}

} // verus!
