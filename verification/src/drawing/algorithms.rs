use vstd::prelude::*;
use crate::grid::CharGrid;

verus! {

/// The grid after writing `c` on row `y` from column `a` to `b`, both included.
pub open spec fn with_row(m: Map<(i32, i32), char>, y: i32, a: int, b: int, c: char) -> Map<(i32, i32), char> {
    Map::new(|p: (i32, i32)| m.dom().contains(p) || (p.1 == y && a <= p.0 <= b),
        |p: (i32, i32)| if p.1 == y && a <= p.0 <= b { c } else { m[p] })
}

/// The grid after writing `c` on column `x` from row `a` to `b`, both included.
pub open spec fn with_column(m: Map<(i32, i32), char>, x: i32, a: int, b: int, c: char) -> Map<(i32, i32), char> {
    Map::new(|p: (i32, i32)| m.dom().contains(p) || (p.0 == x && a <= p.1 <= b),
        |p: (i32, i32)| if p.0 == x && a <= p.1 <= b { c } else { m[p] })
}

/// The smaller of two values.
pub open spec fn lo(a: i32, b: i32) -> i32 {
    if a <= b { a } else { b }
}

/// The larger of two values.
pub open spec fn hi(a: i32, b: i32) -> i32 {
    if a <= b { b } else { a }
}

/// The absolute value.
pub open spec fn magnitude(v: int) -> int {
    if v < 0 { -v } else { v }
}

/// Writes `─` across row `y` between two columns.
pub fn draw_horizontal_line(grid: &mut CharGrid, x1: i32, y: i32, x2: i32)
    requires
        old(grid).wf(),
    ensures
        final(grid).wf(),
        final(grid).spec_map() == with_row(old(grid).spec_map(), y, lo(x1, x2) as int, hi(x1, x2) as int, '─'),
{
    let (start, end) = if x1 <= x2 { (x1, x2) } else { (x2, x1) };
    let ghost m0 = grid.spec_map();
    let mut x: i64 = start as i64;
    while x <= end as i64
        invariant
            grid.wf(),
            start <= x,
            x <= end + 1,
            grid.spec_map() == with_row(m0, y, start as int, x - 1, '─'),
        decreases end + 1 - x,
    {
        grid.set(x as i32, y, '─');
        assert(grid.spec_map() =~= with_row(m0, y, start as int, x as int, '─'));
        x = x + 1;
    }
    assert(grid.spec_map() =~= with_row(m0, y, start as int, end as int, '─'));
}

/// Writes `│` down column `x` between two rows.
pub fn draw_vertical_line(grid: &mut CharGrid, x: i32, y1: i32, y2: i32)
    requires
        old(grid).wf(),
    ensures
        final(grid).wf(),
        final(grid).spec_map() == with_column(old(grid).spec_map(), x, lo(y1, y2) as int, hi(y1, y2) as int, '│'),
{
    let (start, end) = if y1 <= y2 { (y1, y2) } else { (y2, y1) };
    let ghost m0 = grid.spec_map();
    let mut y: i64 = start as i64;
    while y <= end as i64
        invariant
            grid.wf(),
            start <= y,
            y <= end + 1,
            grid.spec_map() == with_column(m0, x, start as int, y - 1, '│'),
        decreases end + 1 - y,
    {
        grid.set(x, y as i32, '│');
        assert(grid.spec_map() =~= with_column(m0, x, start as int, y as int, '│'));
        y = y + 1;
    }
    assert(grid.spec_map() =~= with_column(m0, x, start as int, end as int, '│'));
}

/// The grid after a line from `(x1, y1)` towards `(x2, y2)`: horizontal when
/// it runs wider than tall, vertical otherwise.
pub open spec fn with_line(m: Map<(i32, i32), char>, x1: i32, y1: i32, x2: i32, y2: i32) -> Map<(i32, i32), char> {
    if magnitude(x2 - x1) > magnitude(y2 - y1) {
        with_row(m, y1, lo(x1, x2) as int, hi(x1, x2) as int, '─')
    } else {
        with_column(m, x1, lo(y1, y2) as int, hi(y1, y2) as int, '│')
    }
}

/// Draws a straight line from `(x1, y1)` towards `(x2, y2)`.
pub fn draw_line(grid: &mut CharGrid, x1: i32, y1: i32, x2: i32, y2: i32)
    requires
        old(grid).wf(),
        -0x4000_0000 <= x1 < 0x4000_0000,
        -0x4000_0000 <= x2 < 0x4000_0000,
        -0x4000_0000 <= y1 < 0x4000_0000,
        -0x4000_0000 <= y2 < 0x4000_0000,
    ensures
        final(grid).wf(),
        final(grid).spec_map() == with_line(old(grid).spec_map(), x1, y1, x2, y2),
{
    let dx = if x2 >= x1 { x2 - x1 } else { x1 - x2 };
    let dy = if y2 >= y1 { y2 - y1 } else { y1 - y2 };
    if dx > dy {
        draw_horizontal_line(grid, x1, y1, x2);
    } else {
        draw_vertical_line(grid, x1, y1, y2);
    }
}

/// The grid after a box between two corners: edges, then corners on top.
pub open spec fn with_box(m: Map<(i32, i32), char>, l: i32, t: i32, r: i32, b: i32) -> Map<(i32, i32), char> {
    let edges = with_column(with_column(with_row(with_row(m, t, l as int, r as int, '─'), b, l as int, r as int, '─'),
        l, t as int, b as int, '│'), r, t as int, b as int, '│');
    edges.insert((l, t), '┌').insert((r, t), '┐').insert((l, b), '└').insert((r, b), '┘')
}

/// Draws a box between two corners.
pub fn draw_box(grid: &mut CharGrid, x1: i32, y1: i32, x2: i32, y2: i32)
    requires
        old(grid).wf(),
    ensures
        final(grid).wf(),
        final(grid).spec_map() == with_box(old(grid).spec_map(), lo(x1, x2), lo(y1, y2), hi(x1, x2), hi(y1, y2)),
{
    let (left, right) = if x1 <= x2 { (x1, x2) } else { (x2, x1) };
    let (top, bottom) = if y1 <= y2 { (y1, y2) } else { (y2, y1) };
    draw_horizontal_line(grid, left, top, right);
    draw_horizontal_line(grid, left, bottom, right);
    draw_vertical_line(grid, left, top, bottom);
    draw_vertical_line(grid, right, top, bottom);
    grid.set(left, top, '┌');
    grid.set(right, top, '┐');
    grid.set(left, bottom, '└');
    grid.set(right, bottom, '┘');
}

/// The head of an arrow from `(x1, y1)` to `(x2, y2)`.
pub open spec fn head_towards(x1: i32, y1: i32, x2: i32, y2: i32) -> char {
    if magnitude(x2 - x1) > magnitude(y2 - y1) {
        if x2 - x1 > 0 { '>' } else { '<' }
    } else {
        if y2 - y1 > 0 { 'v' } else { '^' }
    }
}

/// Draws a line with an arrow head on its end point.
pub fn draw_arrow(grid: &mut CharGrid, x1: i32, y1: i32, x2: i32, y2: i32)
    requires
        old(grid).wf(),
        -0x4000_0000 <= x1 < 0x4000_0000,
        -0x4000_0000 <= x2 < 0x4000_0000,
        -0x4000_0000 <= y1 < 0x4000_0000,
        -0x4000_0000 <= y2 < 0x4000_0000,
    ensures
        final(grid).wf(),
        final(grid).spec_map() == with_line(old(grid).spec_map(), x1, y1, x2, y2).insert((x2, y2), head_towards(x1, y1, x2, y2)),
{
    draw_line(grid, x1, y1, x2, y2);
    let dx = x2 - x1;
    let dy = y2 - y1;
    let adx = if dx < 0 { -dx } else { dx };
    let ady = if dy < 0 { -dy } else { dy };
    let head = if adx > ady {
        if dx > 0 { '>' } else { '<' }
    } else {
        if dy > 0 { 'v' } else { '^' }
    };
    grid.set(x2, y2, head);
}

} // verus!
