use vstd::prelude::*;
use crate::scroll::{ScrollState, effective_offset};
use ratatui::layout::{Constraint, Direction, Layout, Rect};

verus! {

/// A rectangle of terminal cells: its top-left corner and its size.
#[derive(PartialEq, Eq, Structural, Clone, Copy, Debug)]
pub struct Area {
    pub x: u16,
    pub y: u16,
    pub width: u16,
    pub height: u16,
}

/// The right edge of an area, `x + width` saturated at the largest cell.
pub open spec fn right_edge(a: Area) -> int {
    if a.x + a.width <= u16::MAX {
        a.x + a.width
    } else {
        u16::MAX as int
    }
}

/// The bottom edge of an area, `y + height` saturated at the largest cell.
pub open spec fn bottom_edge(a: Area) -> int {
    if a.y + a.height <= u16::MAX {
        a.y + a.height
    } else {
        u16::MAX as int
    }
}

/// The area shrunk by `margin` cells on every side; the empty area at the
/// origin when the margin does not fit.
pub open spec fn inset(a: Area, margin: u16) -> Area {
    if a.width < 2 * margin || a.height < 2 * margin {
        Area { x: 0, y: 0, width: 0, height: 0 }
    } else {
        Area {
            x: (a.x + margin) as u16,
            y: (a.y + margin) as u16,
            width: (a.width - 2 * margin) as u16,
            height: (a.height - 2 * margin) as u16,
        }
    }
}

/// Shrinking by `margin` stays within the screen's coordinates.
pub open spec fn inset_fits(a: Area, margin: u16) -> bool {
    a.width < 2 * margin || a.height < 2 * margin || (a.x + margin <= u16::MAX && a.y + margin
        <= u16::MAX)
}

/// `part` is one piece of a split of `outer`: along the split axis it lies
/// within `outer`, and across it it has `outer`'s position and size.
pub open spec fn piece_of(part: Area, outer: Area, vertical: bool) -> bool {
    if vertical {
        &&& part.x == outer.x
        &&& part.width == outer.width
        &&& outer.y <= part.y
        &&& part.y + part.height <= bottom_edge(outer)
    } else {
        &&& part.y == outer.y
        &&& part.height == outer.height
        &&& outer.x <= part.x
        &&& part.x + part.width <= right_edge(outer)
    }
}

/// Where an area starts along the split axis.
pub open spec fn start_on(a: Area, vertical: bool) -> int {
    if vertical {
        a.y as int
    } else {
        a.x as int
    }
}

/// Where an area ends along the split axis: its start plus its size.
pub open spec fn end_on(a: Area, vertical: bool) -> int {
    if vertical {
        a.y + a.height
    } else {
        a.x + a.width
    }
}

/// The far edge of an area along the split axis, saturated at the largest
/// cell.
pub open spec fn edge_on(a: Area, vertical: bool) -> int {
    if vertical {
        bottom_edge(a)
    } else {
        right_edge(a)
    }
}

/// The sum of the first `i` percentages.
pub open spec fn percent_before(p: Seq<u16>, i: int) -> int
    decreases i,
{
    if i <= 0 {
        0
    } else {
        percent_before(p, i - 1) + p[i - 1]
    }
}

/// The integer `n` lies within half a cell of `scaled / 100`.
pub open spec fn near(n: int, scaled: int) -> bool {
    -50 <= 100 * n - scaled <= 50
}

/// Relies on ratatui's `Layout::split` with `Constraint::Percentage`
/// constraints. It cuts the area shrunk by `margin` (`Rect::inner`) into one
/// rectangle for each constraint, stacked top to bottom (`vertical`) or left
/// to right, each spanning the shrunk area across the split axis. Its
/// solver's required constraints make the first piece start at the shrunk
/// area's start, each piece end where the next begins, and the last end at
/// the shrunk area's end. Where the percentages sum to 100 the percentage
/// sizes can all be met, so each piece starts within half a cell of the
/// share of the earlier percentages, once the edges are rounded to cells.
#[verifier::external_body]
fn split_area(vertical: bool, margin: u16, percents: &Vec<u16>, area: Area) -> (r: Vec<Area>)
    requires
        margin <= 0x7fff,
        inset_fits(area, margin),
    ensures
        r@.len() == percents@.len(),
        forall|i: int| 0 <= i < r@.len() ==> piece_of(#[trigger] r@[i], inset(area, margin), vertical),
        r@.len() > 0 ==> start_on(r@[0], vertical) == start_on(inset(area, margin), vertical),
        forall|i: int|
            0 < i < r@.len() ==> end_on(r@[i - 1], vertical) == start_on(#[trigger] r@[i], vertical),
        r@.len() > 0 ==> end_on(r@[r@.len() - 1], vertical) == edge_on(inset(area, margin), vertical),
        percent_before(percents@, percents@.len() as int) == 100 ==> forall|i: int|
            0 <= i < r@.len() ==> near(
                start_on(#[trigger] r@[i], vertical) - start_on(inset(area, margin), vertical),
                (edge_on(inset(area, margin), vertical) - start_on(inset(area, margin), vertical))
                    * percent_before(percents@, i),
            ),
{
    let direction = if vertical { Direction::Vertical } else { Direction::Horizontal };
    let constraints: Vec<Constraint> = percents.iter().map(|p| Constraint::Percentage(*p)).collect();
    let rect = Rect { x: area.x, y: area.y, width: area.width, height: area.height };
    let chunks = Layout::default().direction(direction).margin(margin).constraints(constraints).split(rect);
    chunks.iter().map(|c| Area { x: c.x, y: c.y, width: c.width, height: c.height }).collect()
}

/// The three percentages that put a band of `percent` in the middle of an
/// axis, with equal room on either side.
pub open spec fn centered_percents(percent: u16) -> Seq<u16> {
    seq![((100 - percent) / 2) as u16, percent, ((100 - percent) / 2) as u16]
}

fn centered_vec(percent: u16) -> (r: Vec<u16>)
    requires
        percent <= 100,
    ensures
        r@ == centered_percents(percent),
{
    let side = (100 - percent) / 2;
    let r = vec![side, percent, side];
    assert(r@ =~= centered_percents(percent));
    r
}

/// A middle band whose edges `s1` and `s2` (from the start of an axis of
/// `len` cells) lie within half a cell of `side` and `side + percent` percent
/// of it, with `2 * side + percent == 100`, is `percent` percent long within
/// a cell and has equal gaps on either side within a cell.
proof fn lemma_middle_band(len: int, side: int, percent: int, s1: int, s2: int)
    requires
        2 * side + percent == 100,
        near(s1, len * side),
        near(s2, len * (side + percent)),
    ensures
        -100 <= 100 * (s2 - s1) - len * percent <= 100,
        -1 <= s1 - (len - s2) <= 1,
{
    assert(len * (side + percent) == len * side + len * percent) by (nonlinear_arith);
    assert(len * 100 == 2 * (len * side) + len * percent) by (nonlinear_arith)
        requires 2 * side + percent == 100;
}

/// In a three-way split of `outer` by `centered_percents(percent)` with
/// whole-percentage sides, the middle piece starts and ends within half a
/// cell of its share of the axis.
proof fn lemma_centered_split(pieces: Seq<Area>, outer: Area, vertical: bool, percent: u16)
    requires
        percent <= 100,
        (100 - percent) % 2 == 0,
        pieces.len() == 3,
        percent_before(centered_percents(percent), 3) == 100 ==> forall|i: int|
            0 <= i < pieces.len() ==> near(
                start_on(#[trigger] pieces[i], vertical) - start_on(outer, vertical),
                (edge_on(outer, vertical) - start_on(outer, vertical)) * percent_before(
                    centered_percents(percent),
                    i,
                ),
            ),
    ensures
        near(
            start_on(pieces[1], vertical) - start_on(outer, vertical),
            (edge_on(outer, vertical) - start_on(outer, vertical)) * ((100 - percent) / 2),
        ),
        near(
            start_on(pieces[2], vertical) - start_on(outer, vertical),
            (edge_on(outer, vertical) - start_on(outer, vertical)) * ((100 - percent) / 2 + percent),
        ),
{
    reveal_with_fuel(percent_before, 4);
    let p = centered_percents(percent);
    assert(percent_before(p, 1) == (100 - percent) / 2);
    assert(percent_before(p, 2) == (100 - percent) / 2 + percent);
    assert(percent_before(p, 3) == 100);
    assert(near(start_on(pieces[1], vertical) - start_on(outer, vertical),
        (edge_on(outer, vertical) - start_on(outer, vertical)) * percent_before(p, 1)));
    assert(near(start_on(pieces[2], vertical) - start_on(outer, vertical),
        (edge_on(outer, vertical) - start_on(outer, vertical)) * percent_before(p, 2)));
}

/// A rectangle of `percent_x` by `percent_y` of `r`, centred in it: the
/// middle of three rows of `(100 - percent_y) / 2`, `percent_y` and
/// `(100 - percent_y) / 2` percent, then the middle of three columns of
/// that row split alike by `percent_x`. It lies within `r`. Where the two
/// sides of an axis are whole percentages (`100 - percent` even), each edge
/// on that axis lies within half a cell of its share, so the size is the
/// percentage within a cell and the gaps on either side differ by at most a
/// cell.
pub fn centered_rect(percent_x: u16, percent_y: u16, r: Area) -> (c: Area)
    requires
        percent_x <= 100,
        percent_y <= 100,
    ensures
        r.x <= c.x,
        c.x + c.width <= right_edge(r),
        r.y <= c.y,
        c.y + c.height <= bottom_edge(r),
        (100 - percent_x) % 2 == 0 ==> near(c.x - r.x, (right_edge(r) - r.x) * ((100 - percent_x) / 2)),
        (100 - percent_x) % 2 == 0 ==> near(
            c.x + c.width - r.x,
            (right_edge(r) - r.x) * ((100 - percent_x) / 2 + percent_x),
        ),
        (100 - percent_x) % 2 == 0 ==> -100 <= 100 * c.width - (right_edge(r) - r.x) * percent_x <= 100,
        (100 - percent_x) % 2 == 0 ==> -1 <= (c.x - r.x) - (right_edge(r) - (c.x + c.width)) <= 1,
        (100 - percent_y) % 2 == 0 ==> near(c.y - r.y, (bottom_edge(r) - r.y) * ((100 - percent_y) / 2)),
        (100 - percent_y) % 2 == 0 ==> near(
            c.y + c.height - r.y,
            (bottom_edge(r) - r.y) * ((100 - percent_y) / 2 + percent_y),
        ),
        (100 - percent_y) % 2 == 0 ==> -100 <= 100 * c.height - (bottom_edge(r) - r.y) * percent_y <= 100,
        (100 - percent_y) % 2 == 0 ==> -1 <= (c.y - r.y) - (bottom_edge(r) - (c.y + c.height)) <= 1,
{
    let rows = split_area(true, 0, &centered_vec(percent_y), r);
    let band = rows[1];
    let cols = split_area(false, 0, &centered_vec(percent_x), band);
    let c = cols[1];
    proof {
        assert(inset(r, 0) == r);
        assert(inset(band, 0) == band);
        assert(piece_of(rows@[1], r, true));
        assert(piece_of(cols@[1], band, false));
        assert(end_on(rows@[1], true) == start_on(rows@[2], true));
        assert(end_on(cols@[1], false) == start_on(cols@[2], false));
        assert(end_on(rows@[2], true) == bottom_edge(r));
        assert(end_on(cols@[2], false) == right_edge(band));
        reveal_with_fuel(percent_before, 4);
        if (100 - percent_y) % 2 == 0 {
            assert(percent_before(centered_percents(percent_y), 3) == 100);
            lemma_centered_split(rows@, r, true, percent_y);
            lemma_middle_band(
                bottom_edge(r) - r.y,
                (100 - percent_y) / 2,
                percent_y as int,
                c.y - r.y,
                c.y + c.height - r.y,
            );
        }
        if (100 - percent_x) % 2 == 0 {
            assert(percent_before(centered_percents(percent_x), 3) == 100);
            lemma_centered_split(cols@, band, false, percent_x);
            lemma_middle_band(
                right_edge(r) - r.x,
                (100 - percent_x) / 2,
                percent_x as int,
                c.x - r.x,
                c.x + c.width - r.x,
            );
        }
    }
    c
}

/// The popup's rectangle: 40% of the width and 10% of the height of the
/// screen, centred. Each edge lies within half a cell of its share, so the
/// size is 40% by 10% within a cell and the gaps on either side of each axis
/// differ by at most a cell.
pub fn popup_area(size: Area) -> (c: Area)
    ensures
        size.x <= c.x,
        c.x + c.width <= right_edge(size),
        size.y <= c.y,
        c.y + c.height <= bottom_edge(size),
        near(c.x - size.x, (right_edge(size) - size.x) * 30),
        near(c.x + c.width - size.x, (right_edge(size) - size.x) * 70),
        -100 <= 100 * c.width - (right_edge(size) - size.x) * 40 <= 100,
        -1 <= (c.x - size.x) - (right_edge(size) - (c.x + c.width)) <= 1,
        near(c.y - size.y, (bottom_edge(size) - size.y) * 45),
        near(c.y + c.height - size.y, (bottom_edge(size) - size.y) * 55),
        -100 <= 100 * c.height - (bottom_edge(size) - size.y) * 10 <= 100,
        -1 <= (c.y - size.y) - (bottom_edge(size) - (c.y + c.height)) <= 1,
{
    centered_rect(40, 10, size)
}

/// The two panes of the screen inside a one-cell margin, side by side: a
/// sidebar on the left and the entry list on the right. Together they cover
/// the inner area, each spans its full height, and the widths are 20% and
/// 80% of its width, each within half a cell.
pub fn panes(size: Area) -> (r: (Area, Area))
    requires
        size.x < u16::MAX,
        size.y < u16::MAX,
    ensures
        piece_of(r.0, inset(size, 1), false),
        piece_of(r.1, inset(size, 1), false),
        r.0.x == inset(size, 1).x,
        r.0.x + r.0.width == r.1.x,
        r.1.x + r.1.width == right_edge(inset(size, 1)),
        near(r.0.width as int, (right_edge(inset(size, 1)) - inset(size, 1).x) * 20),
        near(r.1.width as int, (right_edge(inset(size, 1)) - inset(size, 1).x) * 80),
{
    let percents = vec![20u16, 80u16];
    let chunks = split_area(false, 1, &percents, size);
    proof {
        let inner = inset(size, 1);
        reveal_with_fuel(percent_before, 3);
        assert(percents@ =~= seq![20u16, 80u16]);
        assert(percent_before(percents@, 2) == 100);
        assert(piece_of(chunks@[0], inner, false));
        assert(piece_of(chunks@[1], inner, false));
        assert(end_on(chunks@[0], false) == start_on(chunks@[1], false));
        assert(near(start_on(chunks@[1], false) - inner.x, (right_edge(inner) - inner.x) * 20));
    }
    (chunks[0], chunks[1])
}

/// The entries shown in a pane of `pane_height` rows, as the index range
/// `[start, end)`: from the clamped scroll offset, as many as fit.
pub fn visible_range(entry_count: usize, scroll: &ScrollState, pane_height: u16) -> (r: (
    usize,
    usize,
))
    ensures
        r.0 == effective_offset(
            scroll.vertical_scroll as nat,
            entry_count as nat,
            pane_height as nat,
        ),
        r.1 == if r.0 + pane_height <= entry_count {
            r.0 + pane_height
        } else {
            entry_count as int
        },
        r.0 <= r.1 <= entry_count,
{
    let start = scroll.effective(entry_count, pane_height as usize);
    let end = if pane_height as usize <= entry_count - start {
        start + pane_height as usize
    } else {
        entry_count
    };
    (start, end)
}

/// The cell of the text cursor inside the popup: right of the border by the
/// cursor's index, one row below the top border, each coordinate capped at
/// the largest cell index.
pub fn cursor_cell(area: Area, cursor: usize) -> (r: (u16, u16))
    ensures
        r.0 == if area.x + cursor + 1 <= u16::MAX {
            area.x + cursor + 1
        } else {
            u16::MAX as int
        },
        r.1 == if area.y + 1 <= u16::MAX {
            area.y + 1
        } else {
            u16::MAX as int
        },
{
    let room = (u16::MAX - area.x) as usize;
    let col = if cursor < room {
        area.x + cursor as u16 + 1
    } else {
        u16::MAX
    };
    let row = area.y.saturating_add(1);
    (col, row)
}

} // verus!
