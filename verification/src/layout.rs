use crate::geometry::Rect;
use ratatui::layout as rl;
use vstd::prelude::*;

verus! {

/// The axis along which an area is cut into pieces.
#[derive(Clone, Copy, Debug, PartialEq, Eq, Structural)]
pub enum LayoutDirection {
    Vertical,
    Horizontal,
}

/// How much room one piece of a split asks for.
#[derive(Clone, Copy, Debug, PartialEq, Eq, Structural)]
pub enum LayoutConstraint {
    /// Exactly this many cells.
    Length(u16),
    /// At least this many cells.
    Min(u16),
    /// This percentage of the area.
    Percentage(u16),
}

/// `area` with its width and height cut back so that its right and bottom
/// edges stay within the `u16` coordinate space, as ratatui's `Rect::new`
/// builds it.
pub open spec fn spec_clamped(area: Rect) -> Rect {
    Rect {
        x: area.x,
        y: area.y,
        width: if area.x + area.width <= u16::MAX { area.width } else { (u16::MAX - area.x) as u16 },
        height: if area.y + area.height <= u16::MAX { area.height } else { (u16::MAX - area.y) as u16 },
    }
}

/// Whether `piece` is a cut of `area` along `direction`: it spans the whole
/// of the (clamped) area across the direction and lies within it along it.
pub open spec fn spec_piece_in(direction: LayoutDirection, area: Rect, piece: Rect) -> bool {
    let a = spec_clamped(area);
    match direction {
        LayoutDirection::Vertical => piece.x == a.x && piece.width == a.width && a.y <= piece.y
            && piece.y + piece.height <= a.y + a.height,
        LayoutDirection::Horizontal => piece.y == a.y && piece.height == a.height && a.x <= piece.x
            && piece.x + piece.width <= a.x + a.width,
    }
}

/// Where the (clamped) area starts along `direction`.
pub open spec fn spec_main_start(direction: LayoutDirection, area: Rect) -> int {
    match direction {
        LayoutDirection::Vertical => spec_clamped(area).y as int,
        LayoutDirection::Horizontal => spec_clamped(area).x as int,
    }
}

/// How long the (clamped) area is along `direction`.
pub open spec fn spec_main_size(direction: LayoutDirection, area: Rect) -> int {
    match direction {
        LayoutDirection::Vertical => spec_clamped(area).height as int,
        LayoutDirection::Horizontal => spec_clamped(area).width as int,
    }
}

/// The cut of `area` along `direction` that starts at `start` and is `size`
/// cells long.
pub open spec fn spec_cut(direction: LayoutDirection, area: Rect, start: int, size: int) -> Rect {
    let a = spec_clamped(area);
    match direction {
        LayoutDirection::Vertical => Rect { x: a.x, y: start as u16, width: a.width, height: size as u16 },
        LayoutDirection::Horizontal => Rect { x: start as u16, y: a.y, width: size as u16, height: a.height },
    }
}

/// The summed lengths of the `Length` constraints.
pub open spec fn length_sum(cs: Seq<LayoutConstraint>) -> int
    decreases cs.len(),
{
    if cs.len() == 0 {
        0
    } else {
        length_sum(cs.drop_last()) + match cs.last() {
            LayoutConstraint::Length(n) => n as int,
            _ => 0,
        }
    }
}

/// The summed minimums of the `Min` constraints.
pub open spec fn min_sum(cs: Seq<LayoutConstraint>) -> int
    decreases cs.len(),
{
    if cs.len() == 0 {
        0
    } else {
        min_sum(cs.drop_last()) + match cs.last() {
            LayoutConstraint::Min(n) => n as int,
            _ => 0,
        }
    }
}

/// How many `Min` constraints there are.
pub open spec fn min_count(cs: Seq<LayoutConstraint>) -> int
    decreases cs.len(),
{
    if cs.len() == 0 {
        0
    } else {
        min_count(cs.drop_last()) + if cs.last() is Min {
            1int
        } else {
            0
        }
    }
}

/// The summed percentages of the `Percentage` constraints.
pub open spec fn percent_sum(cs: Seq<LayoutConstraint>) -> int
    decreases cs.len(),
{
    if cs.len() == 0 {
        0
    } else {
        percent_sum(cs.drop_last()) + match cs.last() {
            LayoutConstraint::Percentage(p) => p as int,
            _ => 0,
        }
    }
}

/// The constraint sets whose split is determined for an area `total` cells
/// long: `Length`s with one `Min` where all of them fit, or percentages that
/// add up to a hundred and each give a whole number of cells.
pub open spec fn spec_split_determined(cs: Seq<LayoutConstraint>, total: int) -> bool {
    ||| {
        &&& forall|i: int| 0 <= i < cs.len() ==> (#[trigger] cs[i] is Length || cs[i] is Min)
        &&& min_count(cs) == 1
        &&& length_sum(cs) + min_sum(cs) <= total
    }
    ||| {
        &&& cs.len() > 0
        &&& forall|i: int| 0 <= i < cs.len() ==> #[trigger] cs[i] is Percentage
        &&& percent_sum(cs) == 100
        &&& forall|i: int| 0 <= i < cs.len() ==> (cs[i]->Percentage_0 * total) % 100 == 0
    }
}

/// The size a constraint gets in a determined split of `total` cells: a
/// length its length, the `Min` the rest, a percentage its share.
pub open spec fn determined_size(c: LayoutConstraint, cs: Seq<LayoutConstraint>, total: int) -> int {
    match c {
        LayoutConstraint::Length(n) => n as int,
        LayoutConstraint::Min(_) => total - length_sum(cs),
        LayoutConstraint::Percentage(p) => p * total / 100,
    }
}

/// The sum of the first `k` determined sizes.
pub open spec fn determined_offset(cs: Seq<LayoutConstraint>, total: int, k: int) -> int
    decreases k,
{
    if k <= 0 {
        0
    } else {
        determined_offset(cs, total, k - 1) + determined_size(cs[k - 1], cs, total)
    }
}

/// A determined split: the pieces one after another from the area's start,
/// each of its determined size.
pub open spec fn spec_determined_split(direction: LayoutDirection, cs: Seq<LayoutConstraint>, area: Rect) -> Seq<Rect> {
    let total = spec_main_size(direction, area);
    Seq::new(
        cs.len(),
        |i: int|
            spec_cut(
                direction,
                area,
                spec_main_start(direction, area) + determined_offset(cs, total, i),
                determined_size(cs[i], cs, total),
            ),
    )
}

/// Whether `pieces` is an outcome of cutting `area` along `direction` under
/// `constraints`: one piece per constraint, each a cut of the area; and,
/// where the constraints determine the split, exactly that split.
pub open spec fn spec_split_fits(
    direction: LayoutDirection,
    constraints: Seq<LayoutConstraint>,
    area: Rect,
    pieces: Seq<Rect>,
) -> bool {
    &&& pieces.len() == constraints.len()
    &&& forall|i: int| 0 <= i < pieces.len() ==> spec_piece_in(direction, area, #[trigger] pieces[i])
    &&& spec_split_determined(constraints, spec_main_size(direction, area)) ==> pieces == spec_determined_split(
        direction,
        constraints,
        area,
    )
}

/// Whether `inner` lies within the (clamped) `outer`.
pub open spec fn spec_rect_within(outer: Rect, inner: Rect) -> bool {
    let a = spec_clamped(outer);
    a.x <= inner.x && inner.x + inner.width <= a.x + a.width && a.y <= inner.y && inner.y + inner.height
        <= a.y + a.height
}

/// Calls `ratatui::layout::Layout::split` with the given direction and
/// constraints, no margin, no spacing and the default `Flex::Start`.
/// Trusted, from ratatui-core's `try_split` and `changes_to_rects`:
/// - there is one segment per constraint; each copies the cross-axis position
///   and size of the area (built with `Rect::new`, which clamps it), and
///   required constraints keep its ends within the area;
/// - where only `Length`s and one `Min` are asked for and they fit, every
///   length and the (zero) gaps between segments cost far more to break than
///   the `Min` segment's pull to grow (`FILL_GROW`) gains over the trailing
///   space's (`GROW`), so the lengths are met, the segments follow one
///   another and the `Min` segment takes the rest;
/// - where only percentages are asked for, adding up to a hundred and each a
///   whole number of cells, they are all met exactly, one segment after
///   another.
/// Otherwise how the room is shared is not stated.
#[verifier::external_body]
pub(crate) fn layout_split(
    direction: LayoutDirection,
    constraints: &Vec<LayoutConstraint>,
    area: Rect,
) -> (pieces: Vec<Rect>)
    ensures
        spec_split_fits(direction, constraints@, area, pieces@),
{
    let dir = match direction {
        LayoutDirection::Vertical => rl::Direction::Vertical,
        LayoutDirection::Horizontal => rl::Direction::Horizontal,
    };
    let cs = constraints.iter().map(|c| match *c {
        LayoutConstraint::Length(n) => rl::Constraint::Length(n),
        LayoutConstraint::Min(n) => rl::Constraint::Min(n),
        LayoutConstraint::Percentage(n) => rl::Constraint::Percentage(n),
    });
    let split = rl::Layout::new(dir, cs).split(rl::Rect::new(area.x, area.y, area.width, area.height));
    split.iter().map(|p| Rect { x: p.x, y: p.y, width: p.width, height: p.height }).collect()
}

/// The constraints of a centred cut: a margin, a middle piece of `percent`
/// percent, and a margin, each margin asking for half of the rest.
pub open spec fn centered_constraints(percent: u16) -> Seq<LayoutConstraint> {
    seq![
        LayoutConstraint::Percentage(((100 - percent) / 2) as u16),
        LayoutConstraint::Percentage(percent),
        LayoutConstraint::Percentage(((100 - percent) / 2) as u16),
    ]
}

fn centered_split(direction: LayoutDirection, area: Rect, percent: u16) -> (pieces: Vec<Rect>)
    requires
        percent <= 100,
    ensures
        spec_split_fits(direction, centered_constraints(percent), area, pieces@),
        pieces@.len() == 3,
{
    let margin = (100 - percent) / 2;
    let c = vec![
        LayoutConstraint::Percentage(margin),
        LayoutConstraint::Percentage(percent),
        LayoutConstraint::Percentage(margin),
    ];
    assert(c@ =~= centered_constraints(percent));
    layout_split(direction, &c, area)
}

/// A rectangle of the given percentages of `area`, centred in it: the middle
/// row of a centred vertical cut, then the middle column of a centred
/// horizontal cut of that row. It lies within the area.
pub fn centered_rect(area: Rect, width_percent: u16, height_percent: u16) -> (r: Rect)
    requires
        width_percent <= 100,
        height_percent <= 100,
    ensures
        exists|rows: Seq<Rect>, columns: Seq<Rect>|
            #![trigger spec_split_fits(LayoutDirection::Vertical, centered_constraints(height_percent), area, rows),
                spec_split_fits(LayoutDirection::Horizontal, centered_constraints(width_percent), rows[1], columns)]
            spec_split_fits(LayoutDirection::Vertical, centered_constraints(height_percent), area, rows)
                && spec_split_fits(LayoutDirection::Horizontal, centered_constraints(width_percent), rows[1], columns)
                && r == columns[1],
        spec_rect_within(area, r),
{
    let rows = centered_split(LayoutDirection::Vertical, area, height_percent);
    let columns = centered_split(LayoutDirection::Horizontal, rows[1], width_percent);
    proof {
        assert(spec_piece_in(LayoutDirection::Vertical, area, rows@[1]));
        assert(spec_piece_in(LayoutDirection::Horizontal, rows@[1], columns@[1]));
    }
    columns[1]
}

} // verus!
