use vstd::prelude::*;
use crate::elements::borders::{all_style_names, border_chars, style_name, style_named, BorderChars, BorderStyle};
use crate::elements::line::RenderPoint;
use crate::elements::properties::{
    FieldTypeView, HasProperties, PropertiesSpec, PropertyError, PropertyErrorView, PropertySection, PropertyValue,
    PropertyValueView, SectionView,
};
use crate::elements::rectangle::box_bounds;
use crate::text::{decimal, str_eq};
use crate::types::{clamp_u16, Bounds, Coord};

verus! {

/// Width of a cell's content area.
pub const CELL_WIDTH: u16 = 12;

/// Height of a cell's content area.
pub const CELL_HEIGHT: u16 = 2;

/// The text of every cell, row by row.
pub open spec fn cells_view(cells: Seq<Vec<String>>) -> Seq<Seq<Seq<char>>> {
    cells.map_values(|row: Vec<String>| row@.map_values(|s: String| s@))
}

/// The text a new table puts in the cell at `(row, col)`: "Header <n>" in the
/// first row, "Cell <n>" below, numbered from 1 left to right, top to bottom.
pub open spec fn default_cell(row: int, col: int, cols: int) -> Seq<char> {
    if row == 0 {
        "Header "@ + decimal((col + 1) as nat)
    } else {
        "Cell "@ + decimal(((row - 1) * cols + col + 1) as nat)
    }
}

/// The width of column `c` from the first `n` rows: at least `CELL_WIDTH`,
/// and as wide as the longest text (counted in characters, as a `u16`).
pub open spec fn col_width_upto(cells: Seq<Seq<Seq<char>>>, c: int, n: nat) -> u16
    decreases n,
{
    if n == 0 {
        12u16
    } else {
        let prev = col_width_upto(cells, c, (n - 1) as nat);
        if c < cells[n - 1].len() {
            let len = cells[n - 1][c].len() as u16;
            let needed = if len >= 12 { len } else { 12u16 };
            if prev >= needed { prev } else { needed }
        } else {
            prev
        }
    }
}

/// The width of every column.
pub open spec fn column_widths(cells: Seq<Seq<Seq<char>>>, cols: nat) -> Seq<u16> {
    Seq::new(cols, |c: int| col_width_upto(cells, c, cells.len()))
}

/// The column of the left border of column `c`.
pub open spec fn col_x(x: int, widths: Seq<u16>, c: int) -> int
    decreases c,
{
    if c <= 0 { x } else { col_x(x, widths, c - 1) + widths[c - 1] + 1 }
}

/// The text of the cell, or nothing when the cell is missing.
pub open spec fn cell_text(cells: Seq<Seq<Seq<char>>>, r: int, c: int) -> Seq<char> {
    if 0 <= r < cells.len() && 0 <= c < cells[r].len() { cells[r][c] } else { Seq::empty() }
}

/// The text of one cell, drawn inside its borders.
pub open spec fn cell_content(x: int, y: int, widths: Seq<u16>, cells: Seq<Seq<Seq<char>>>, r: int, c: int) -> Seq<RenderPoint> {
    let t = cell_text(cells, r, c);
    Seq::new(t.len(), |i: int| ((col_x(x, widths, c) + 1 + i) as i32, (y + r * 3 + 1) as i32, t[i]))
}

/// The texts of the first `n` cells of row `r`.
pub open spec fn row_content(x: int, y: int, widths: Seq<u16>, cells: Seq<Seq<Seq<char>>>, r: int, n: nat) -> Seq<RenderPoint>
    decreases n,
{
    if n == 0 { Seq::empty() } else {
        row_content(x, y, widths, cells, r, (n - 1) as nat) + cell_content(x, y, widths, cells, r, n - 1)
    }
}

/// The texts of the first `m` rows.
pub open spec fn table_content(x: int, y: int, widths: Seq<u16>, cells: Seq<Seq<Seq<char>>>, cols: nat, m: nat) -> Seq<RenderPoint>
    decreases m,
{
    if m == 0 { Seq::empty() } else {
        table_content(x, y, widths, cells, cols, (m - 1) as nat) + row_content(x, y, widths, cells, m - 1, cols)
    }
}

/// The first `n` columns of a horizontal rule at row `ry`: a run of `h` over each
/// column, then `mid` between columns or `right` after the last one.
pub open spec fn rule_cols(x: int, ry: int, widths: Seq<u16>, n: nat, cols: int, mid: char, right: char, h: char) -> Seq<RenderPoint>
    decreases n,
{
    if n == 0 { Seq::empty() } else {
        let c = n - 1;
        rule_cols(x, ry, widths, (n - 1) as nat, cols, mid, right, h)
            + Seq::new(widths[c] as nat, |i: int| ((col_x(x, widths, c) + 1 + i) as i32, ry as i32, h))
            + seq![((col_x(x, widths, c + 1)) as i32, ry as i32, if c < cols - 1 { mid } else { right })]
    }
}

/// A full horizontal rule: `left`, then the columns.
pub open spec fn rule(x: int, ry: int, widths: Seq<u16>, cols: nat, left: char, mid: char, right: char, h: char) -> Seq<RenderPoint> {
    seq![(x as i32, ry as i32, left)] + rule_cols(x, ry, widths, cols, cols as int, mid, right, h)
}

/// The vertical borders crossing row `ry`: the left edge, then one after each column.
pub open spec fn vertical_row(x: int, ry: int, widths: Seq<u16>, cols: nat, v: char) -> Seq<RenderPoint> {
    seq![(x as i32, ry as i32, v)] + Seq::new(cols, |c: int| ((col_x(x, widths, c + 1)) as i32, ry as i32, v))
}

/// The border cells of row `r`: the top rule for the first row, the two rows of
/// vertical borders, and the rule under the row, in the header style for the
/// first row and in the body style below.
pub open spec fn row_borders(x: int, y: int, widths: Seq<u16>, rows: int, cols: nat, r: int, header: BorderStyle, body: BorderStyle) -> Seq<RenderPoint> {
    let ch = if r == 0 { border_chars(header) } else { border_chars(body) };
    let ry = y + r * 3;
    (if r == 0 { rule(x, ry, widths, cols, ch.top_left, ch.top_t, ch.top_right, ch.horizontal) } else { Seq::empty() })
        + vertical_row(x, ry + 1, widths, cols, ch.vertical)
        + vertical_row(x, ry + 2, widths, cols, ch.vertical)
        + (if r < rows - 1 {
            if r == 0 && header != body {
                rule(x, ry + 3, widths, cols, ch.bottom_left, ch.bottom_t, ch.bottom_right, ch.horizontal)
            } else {
                rule(x, ry + 3, widths, cols, ch.left_t, ch.cross, ch.right_t, ch.horizontal)
            }
        } else {
            rule(x, ry + 3, widths, cols, ch.bottom_left, ch.bottom_t, ch.bottom_right, ch.horizontal)
        })
}

/// The border cells of the first `m` rows.
pub open spec fn table_borders(x: int, y: int, widths: Seq<u16>, rows: int, cols: nat, m: nat, header: BorderStyle, body: BorderStyle) -> Seq<RenderPoint>
    decreases m,
{
    if m == 0 { Seq::empty() } else {
        table_borders(x, y, widths, rows, cols, (m - 1) as nat, header, body)
            + row_borders(x, y, widths, rows, cols, m - 1, header, body)
    }
}

/// The editable properties of a table.
pub open spec fn table_spec_view() -> Seq<SectionView> {
    seq![
        ("Structure"@, seq![
            ("rows"@, "rows"@, FieldTypeView::Numeric { min: 1, max: 20 }),
            ("cols"@, "cols"@, FieldTypeView::Numeric { min: 1, max: 10 }),
        ]),
        ("Borders"@, seq![
            ("header_border"@, "header"@, FieldTypeView::Choice { options: all_style_names() }),
            ("body_border"@, "body"@, FieldTypeView::Choice { options: all_style_names() }),
        ]),
    ]
}

/// A grid of text cells with a header row.
#[derive(Debug, Clone)]
pub struct TableElement {
    pub id: usize,
    pub name: String,
    pub start: Coord,
    pub width: u16,
    pub height: u16,
    pub bounds: Bounds,
    pub rows: usize,
    pub cols: usize,
    pub cells: Vec<Vec<String>>,
    pub header_border: BorderStyle,
    pub body_border: BorderStyle,
}

/// Size of a grid of `rows` by `cols` default cells, when it fits in a `u16`.
pub open spec fn size_fits(rows: usize, cols: usize) -> bool {
    (cols as u16) * 13 + 1 <= 65535 && (rows as u16) * 3 + 1 <= 65535
}

/// `(width, height)` of a grid of `rows` by `cols` default cells.
pub open spec fn grid_size(rows: usize, cols: usize) -> (u16, u16) {
    (((cols as u16) * 13 + 1) as u16, ((rows as u16) * 3 + 1) as u16)
}

/// `cells` holds the default text of a `rows` by `cols` table.
pub open spec fn default_cells(cells: Seq<Seq<Seq<char>>>, rows: int, cols: int) -> bool {
    &&& cells.len() == rows
    &&& forall|r: int| 0 <= r < rows ==> (#[trigger] cells[r]).len() == cols
    &&& forall|r: int, c: int| 0 <= r < rows && 0 <= c < cols ==> cells[r][c] == default_cell(r, c, cols)
}

/// A new row of default cells.
fn default_row(row: usize, cols: usize, from: usize) -> (v: Vec<String>)
    requires
        from <= cols,
        row == 0 || (row - 1) * cols + cols <= usize::MAX,
        cols < usize::MAX,
    ensures
        v@.len() == cols - from,
        forall|c: int| 0 <= c < cols - from ==> (#[trigger] v@[c])@ == default_cell(row as int, c + from, cols as int),
{
    let mut v: Vec<String> = Vec::new();
    let mut col = from;
    while col < cols
        invariant
            from <= col <= cols,
            row == 0 || (row - 1) * cols + cols <= usize::MAX,
            cols < usize::MAX,
            v@.len() == col - from,
            forall|c: int| 0 <= c < col - from ==> (#[trigger] v@[c])@ == default_cell(row as int, c + from, cols as int),
        decreases cols - col,
    {
        v.push(default_text(row, col, cols));
        col = col + 1;
    }
    v
}

/// The default text of one cell.
fn default_text(row: usize, col: usize, cols: usize) -> (s: String)
    requires
        col < cols,
        cols < usize::MAX,
        row == 0 || (row - 1) * cols + cols <= usize::MAX,
    ensures
        s@ == default_cell(row as int, col as int, cols as int),
{
    if row == 0 {
        crate::text::numbered("Header ", col + 1)
    } else {
        proof {
            assert((row - 1) * cols + col + 1 <= (row - 1) * cols + cols) by (nonlinear_arith)
                requires col < cols, row >= 1;
        }
        crate::text::numbered("Cell ", (row - 1) * cols + col + 1)
    }
}

impl TableElement {
    /// `(rows, cols)` of cells that fit in a dragged area, at least one of each.
    pub fn calculate_dimensions(width: u16, height: u16) -> (r: (usize, usize))
        ensures
            r.1 == (if (if width >= 1 { width - 1 } else { 0 }) / 13 >= 1 { (if width >= 1 { width - 1 } else { 0 }) / 13 } else { 1 }),
            r.0 == (if (if height >= 1 { height - 1 } else { 0 }) / 3 >= 1 { (if height >= 1 { height - 1 } else { 0 }) / 3 } else { 1 }),
    {
        let c = width.saturating_sub(1) / (CELL_WIDTH + 1);
        let r = height.saturating_sub(1) / (CELL_HEIGHT + 1);
        let cols: usize = if c >= 1 { c as usize } else { 1 };
        let rows: usize = if r >= 1 { r as usize } else { 1 };
        (rows, cols)
    }

    /// `(width, height)` of `rows` by `cols` cells with their borders.
    pub fn calculate_size(rows: usize, cols: usize) -> (r: (u16, u16))
        requires
            size_fits(rows, cols),
        ensures
            r == grid_size(rows, cols),
    {
        let width = (cols as u16) * (CELL_WIDTH + 1) + 1;
        let height = (rows as u16) * (CELL_HEIGHT + 1) + 1;
        (width, height)
    }

    /// A table with as many cells as fit in the dragged area.
    pub fn new_from_drag(id: usize, start: Coord, drag_width: u16, drag_height: u16) -> (t: Self)
        requires
            id < usize::MAX,
        ensures
            (t.rows, t.cols) == ({
                let c = (if drag_width >= 1 { drag_width - 1 } else { 0 }) / 13;
                let r = (if drag_height >= 1 { drag_height - 1 } else { 0 }) / 3;
                ((if r >= 1 { r } else { 1 }) as usize, (if c >= 1 { c } else { 1 }) as usize)
            }),
            t.id == id,
            t.start == start,
            (t.width, t.height) == grid_size(t.rows, t.cols),
            t.bounds == box_bounds(start, t.width, t.height),
            default_cells(cells_view(t.cells@), t.rows as int, t.cols as int),
            t.header_border == BorderStyle::Double,
            t.body_border == BorderStyle::Single,
    {
        let (rows, cols) = Self::calculate_dimensions(drag_width, drag_height);
        assert(rows * cols <= 21845 * 5041) by (nonlinear_arith)
            requires rows <= 21845, cols <= 5041;
        Self::new(id, start, rows, cols)
    }

    /// A `rows` by `cols` table named "Table <id + 1>" with default cell texts,
    /// a double header border and a single body border.
    pub fn new(id: usize, start: Coord, rows: usize, cols: usize) -> (t: Self)
        requires
            id < usize::MAX,
            size_fits(rows, cols),
            cols < usize::MAX,
            rows * cols <= usize::MAX,
        ensures
            t.id == id,
            t.name@ == "Table "@ + decimal((id + 1) as nat),
            t.start == start,
            t.rows == rows,
            t.cols == cols,
            (t.width, t.height) == grid_size(rows, cols),
            t.bounds == box_bounds(start, t.width, t.height),
            default_cells(cells_view(t.cells@), rows as int, cols as int),
            t.header_border == BorderStyle::Double,
            t.body_border == BorderStyle::Single,
    {
        let (width, height) = Self::calculate_size(rows, cols);
        let mut cells: Vec<Vec<String>> = Vec::new();
        let mut row: usize = 0;
        while row < rows
            invariant
                row <= rows,
                cols < usize::MAX,
                rows * cols <= usize::MAX,
                cells@.len() == row,
                forall|r: int| 0 <= r < row ==> (#[trigger] cells@[r])@.len() == cols,
                forall|r: int, c: int| 0 <= r < row && 0 <= c < cols ==>
                    (#[trigger] cells@[r]@[c])@ == default_cell(r, c, cols as int),
            decreases rows - row,
        {
            proof {
                if row >= 1 {
                    assert((row - 1) * cols + cols <= rows * cols) by (nonlinear_arith)
                        requires row < rows, row >= 1;
                }
            }
            let r = default_row(row, cols, 0);
            cells.push(r);
            row = row + 1;
        }
        let bounds = Bounds {
            min: start,
            max: Coord { x: start.x.saturating_add(width), y: start.y.saturating_add(height) },
        };
        let t = TableElement {
            id,
            name: crate::text::numbered("Table ", id + 1),
            start,
            width,
            height,
            bounds,
            rows,
            cols,
            cells,
            header_border: BorderStyle::Double,
            body_border: BorderStyle::Single,
        };
        assert forall|r: int, c: int| 0 <= r < rows && 0 <= c < cols implies
            cells_view(t.cells@)[r][c] == default_cell(r, c, cols as int) by {
            assert(t.cells@[r]@[c]@ == default_cell(r, c, cols as int));
        }
        t
    }

    /// Moves the start and the bounds by `(dx, dy)`.
    pub fn translate(&mut self, dx: i32, dy: i32)
        ensures
            final(self).start == (Coord {
                x: clamp_u16(old(self).start.x + dx),
                y: clamp_u16(old(self).start.y + dy),
            }),
            final(self).bounds == crate::elements::segment::bounds_translated(old(self).bounds, dx, dy),
            final(self).id == old(self).id,
            final(self).name == old(self).name,
            final(self).width == old(self).width,
            final(self).height == old(self).height,
            final(self).rows == old(self).rows,
            final(self).cols == old(self).cols,
            final(self).cells == old(self).cells,
            final(self).header_border == old(self).header_border,
            final(self).body_border == old(self).body_border,
    {
        self.start.translate(dx, dy);
        self.bounds.translate(dx, dy);
    }

    /// The width of every column: at least `CELL_WIDTH`, and as wide as its longest text.
    fn calculate_column_widths(&self) -> (w: Vec<u16>)
        ensures
            w@ == column_widths(cells_view(self.cells@), self.cols as nat),
    {
        let ghost cv = cells_view(self.cells@);
        let mut widths: Vec<u16> = Vec::new();
        let mut c: usize = 0;
        while c < self.cols
            invariant
                c <= self.cols,
                widths@ == Seq::new(c as nat, |j: int| 12u16),
            decreases self.cols - c,
        {
            widths.push(CELL_WIDTH);
            assert(widths@ =~= Seq::new((c + 1) as nat, |j: int| 12u16));
            c = c + 1;
        }
        let mut r: usize = 0;
        while r < self.cells.len()
            invariant
                cv == cells_view(self.cells@),
                r <= self.cells@.len(),
                widths@.len() == self.cols,
                forall|j: int| 0 <= j < self.cols ==> #[trigger] widths@[j] == col_width_upto(cv, j, r as nat),
            decreases self.cells.len() - r,
        {
            let row = &self.cells[r];
            let mut c: usize = 0;
            while c < row.len()
                invariant
                    cv == cells_view(self.cells@),
                    r < self.cells@.len(),
                    *row == self.cells@[r as int],
                    c <= row@.len(),
                    widths@.len() == self.cols,
                    forall|j: int| 0 <= j < self.cols && j < c ==> #[trigger] widths@[j] == col_width_upto(cv, j, (r + 1) as nat),
                    forall|j: int| 0 <= j < self.cols && j >= c ==> #[trigger] widths@[j] == col_width_upto(cv, j, r as nat),
                decreases row.len() - c,
            {
                let len = row[c].as_str().unicode_len() as u16;
                let needed = if len >= CELL_WIDTH { len } else { CELL_WIDTH };
                if c < widths.len() {
                    let cur = widths[c];
                    widths.set(c, if cur >= needed { cur } else { needed });
                }
                c = c + 1;
            }
            proof {
                assert forall|j: int| 0 <= j < self.cols implies #[trigger] widths@[j] == col_width_upto(cv, j, (r + 1) as nat) by {
                    if j >= c {
                        assert(!(j < cv[r as int].len()));
                    }
                }
            }
            r = r + 1;
        }
        assert(widths@ =~= column_widths(cv, self.cols as nat));
        widths
    }

    /// Whether the table can be drawn inside the `i32` range with every cell
    /// text at most 65535 characters (see `render_fits` and `texts_fit`).
    pub fn fits_drawing(&self) -> (b: bool)
        ensures
            b == (render_fits(*self) && texts_fit(cells_view(self.cells@))),
    {
        let ghost cv = cells_view(self.cells@);
        let mut r: usize = 0;
        while r < self.cells.len()
            invariant
                cv == cells_view(self.cells@),
                r <= self.cells@.len(),
                forall|i: int, j: int| 0 <= i < r && 0 <= j < cv[i].len() ==> #[trigger] cv[i][j].len() <= 65535,
            decreases self.cells.len() - r,
        {
            let row = &self.cells[r];
            let mut c: usize = 0;
            while c < row.len()
                invariant
                    cv == cells_view(self.cells@),
                    r < self.cells@.len(),
                    *row == self.cells@[r as int],
                    c <= row@.len(),
                    forall|i: int, j: int| 0 <= i < r && 0 <= j < cv[i].len() ==> #[trigger] cv[i][j].len() <= 65535,
                    forall|j: int| 0 <= j < c ==> #[trigger] cv[r as int][j].len() <= 65535,
                decreases row.len() - c,
            {
                if row[c].as_str().unicode_len() > 65535 {
                    assert(cv[r as int][c as int].len() > 65535);
                    return false;
                }
                c = c + 1;
            }
            r = r + 1;
        }
        assert(texts_fit(cv));
        let widths = self.calculate_column_widths();
        let ghost w = widths@;
        let limit: u64 = 0x7fff_ffff;
        let mut acc: u64 = self.start.x as u64;
        let mut c: usize = 0;
        while c < self.cols
            invariant
                w == widths@,
                w == column_widths(cells_view(self.cells@), self.cols as nat),
                widths@.len() == self.cols,
                c <= self.cols,
                acc == self.start.x + col_x(0, w, c as int),
                limit == 0x7fff_ffffu64,
                acc <= limit,
            decreases self.cols - c,
        {
            acc = acc + widths[c] as u64 + 1;
            assert(col_x(0, w, (c + 1) as int) == col_x(0, w, c as int) + w[c as int] + 1);
            if acc > limit {
                proof {
                    lemma_col_x_mono(0, w, (c + 1) as int, self.cols as int);
                    assert(w == column_widths(cells_view(self.cells@), self.cols as nat));
                    assert(!render_fits(*self));
                }
                return false;
            }
            c = c + 1;
        }
        let ys = self.start.y as u128 + (self.rows as u128) * 3 + 3;
        acc + 1 <= limit && ys <= limit as u128
    }

    /// The cell dimensions every column starts from.
    fn cell_dimensions(&self) -> (r: (u16, u16))
        ensures
            r == (12u16, 2u16),
    {
        (CELL_WIDTH, CELL_HEIGHT)
    }

    /// The width of column `col_idx`; `CELL_WIDTH` for a column the table lacks.
    pub fn get_column_width(&self, col_idx: usize) -> (w: u16)
        ensures
            w == (if col_idx < self.cols { column_widths(cells_view(self.cells@), self.cols as nat)[col_idx as int] } else { 12u16 }),
    {
        let widths = self.calculate_column_widths();
        if col_idx < widths.len() {
            widths[col_idx]
        } else {
            CELL_WIDTH
        }
    }
}


/// The sum of the first `n` column widths.
pub open spec fn widths_sum(widths: Seq<u16>, n: nat) -> int
    decreases n,
{
    if n == 0 { 0 } else { widths_sum(widths, (n - 1) as nat) + widths[n - 1] }
}

/// `after` is `before` brought to `rows` by `cols`: cells that existed keep
/// their text, new cells get the default text.
pub open spec fn synced_cells(before: Seq<Seq<Seq<char>>>, after: Seq<Seq<Seq<char>>>, rows: int, cols: int) -> bool {
    &&& after.len() == rows
    &&& forall|r: int| 0 <= r < rows ==> (#[trigger] after[r]).len() == cols
    &&& forall|r: int, c: int| 0 <= r < rows && 0 <= c < cols ==> after[r][c] ==
        (if r < before.len() && c < before[r].len() { before[r][c] } else { default_cell(r, c, cols) })
}

/// The coordinates of a table's cells fit in an `i32` when rendered.
pub open spec fn render_fits(t: TableElement) -> bool {
    let w = column_widths(cells_view(t.cells@), t.cols as nat);
    &&& t.start.x + col_x(0, w, t.cols as int) + 1 <= i32::MAX
    &&& t.start.y + t.rows * 3 + 3 <= i32::MAX
}

/// The cells of a table: every cell's text, then the border grid over it.
pub open spec fn table_cells(t: TableElement) -> Seq<RenderPoint> {
    let w = column_widths(cells_view(t.cells@), t.cols as nat);
    table_content(t.start.x as int, t.start.y as int, w, cells_view(t.cells@), t.cols as nat, t.rows as nat)
        + table_borders(t.start.x as int, t.start.y as int, w, t.rows as int, t.cols as nat, t.rows as nat,
            t.header_border, t.body_border)
}

/// The value of the property `name` of `t`, if `t` has one by that name.
pub open spec fn table_property(t: TableElement, name: Seq<char>) -> Option<PropertyValueView> {
    if name == "rows"@ {
        Some(PropertyValueView::Numeric(t.rows as u16))
    } else if name == "cols"@ {
        Some(PropertyValueView::Numeric(t.cols as u16))
    } else if name == "header_border"@ {
        Some(PropertyValueView::Choice(style_name(t.header_border)))
    } else if name == "body_border"@ {
        Some(PropertyValueView::Choice(style_name(t.body_border)))
    } else {
        None
    }
}

/// What setting property `name` to `v` does: `Ok(Some((rows, cols)))` when the
/// grid takes a new shape, `Ok(None)` for a border change, or why it is refused.
pub open spec fn table_set_outcome(name: Seq<char>, v: PropertyValueView, t: TableElement) -> Result<Option<(usize, usize)>, PropertyErrorView> {
    if name == "rows"@ {
        match v {
            PropertyValueView::Numeric(n) => if n == 0 || n > 20 {
                Err(PropertyErrorView::RowsOutOfRange)
            } else {
                Ok(Some((n as usize, t.cols)))
            },
            _ => Err(PropertyErrorView::NotNumeric),
        }
    } else if name == "cols"@ {
        match v {
            PropertyValueView::Numeric(n) => if n == 0 || n > 10 {
                Err(PropertyErrorView::ColsOutOfRange)
            } else {
                Ok(Some((t.rows, n as usize)))
            },
            _ => Err(PropertyErrorView::NotNumeric),
        }
    } else if name == "header_border"@ || name == "body_border"@ {
        match v {
            PropertyValueView::Choice(c) => match style_named(c) {
                Some(b) => Ok(None),
                None => Err(PropertyErrorView::InvalidBorderStyle(c)),
            },
            _ => Err(PropertyErrorView::NotChoice),
        }
    } else {
        Err(PropertyErrorView::UnknownProperty(name))
    }
}

proof fn lemma_col_x_mono(x: int, w: Seq<u16>, a: int, b: int)
    requires
        0 <= a <= b,
    ensures
        col_x(x, w, a) + (b - a) <= col_x(x, w, b),
    decreases b - a,
{
    if a < b {
        lemma_col_x_mono(x, w, a, b - 1);
    }
}

proof fn lemma_col_x_shift(x: int, w: Seq<u16>, c: int)
    requires
        0 <= c,
    ensures
        col_x(x, w, c) == x + col_x(0, w, c),
    decreases c,
{
    if c > 0 {
        lemma_col_x_shift(x, w, c - 1);
    }
}

proof fn lemma_col_x_sum(w: Seq<u16>, c: nat)
    ensures
        col_x(0, w, c as int) == widths_sum(w, c) + c,
    decreases c,
{
    if c > 0 {
        lemma_col_x_sum(w, (c - 1) as nat);
    }
}

/// Appends a horizontal rule at row `ry` to `points`.
fn push_rule(points: &mut Vec<RenderPoint>, x: i32, ry: i32, widths: &Vec<u16>, left: char, mid: char, right: char, h: char)
    requires
        x >= 0,
        col_x(x as int, widths@, widths@.len() as int) < i32::MAX,
    ensures
        final(points)@ == old(points)@ + rule(x as int, ry as int, widths@, widths@.len(), left, mid, right, h),
{
    let ghost start = points@;
    let ghost w = widths@;
    let cols = widths.len();
    points.push((x, ry, left));
    proof { lemma_col_x_mono(x as int, w, 0, cols as int); }
    let mut curr_x: i32 = x + 1;
    let mut c: usize = 0;
    while c < cols
        invariant
            w == widths@,
            cols == w.len(),
            c <= cols,
            x >= 0,
            col_x(x as int, w, cols as int) < i32::MAX,
            curr_x == col_x(x as int, w, c as int) + 1,
            points@ == start + seq![(x, ry, left)] + rule_cols(x as int, ry as int, w, c as nat, cols as int, mid, right, h),
        decreases cols - c,
    {
        proof { lemma_col_x_mono(x as int, w, (c + 1) as int, cols as int); }
        let ghost before = points@;
        let width = widths[c];
        let mut i: u16 = 0;
        while i < width
            invariant
                w == widths@,
                c < cols,
                width == w[c as int],
                i <= width,
                col_x(x as int, w, (c + 1) as int) < i32::MAX,
                col_x(x as int, w, (c + 1) as int) == col_x(x as int, w, c as int) + width + 1,
                curr_x == col_x(x as int, w, c as int) + 1 + i,
                points@ == before + Seq::new(i as nat, |k: int| ((col_x(x as int, w, c as int) + 1 + k) as i32, ry, h)),
            decreases width - i,
        {
            points.push((curr_x, ry, h));
            assert(points@ =~= before + Seq::new((i + 1) as nat, |k: int| ((col_x(x as int, w, c as int) + 1 + k) as i32, ry, h)));
            curr_x = curr_x + 1;
            i = i + 1;
        }
        let ch = if c < cols - 1 { mid } else { right };
        points.push((curr_x, ry, ch));
        assert(points@ =~= start + seq![(x, ry, left)] + rule_cols(x as int, ry as int, w, (c + 1) as nat, cols as int, mid, right, h));
        curr_x = curr_x + 1;
        c = c + 1;
    }
    assert(points@ =~= start + rule(x as int, ry as int, w, w.len(), left, mid, right, h));
}

/// Appends the vertical borders crossing row `ry` to `points`.
fn push_vertical_row(points: &mut Vec<RenderPoint>, x: i32, ry: i32, widths: &Vec<u16>, v: char)
    requires
        x >= 0,
        col_x(x as int, widths@, widths@.len() as int) <= i32::MAX,
    ensures
        final(points)@ == old(points)@ + vertical_row(x as int, ry as int, widths@, widths@.len(), v),
{
    let ghost start = points@;
    let ghost w = widths@;
    let cols = widths.len();
    points.push((x, ry, v));
    let mut curr_x: i32 = x;
    let mut c: usize = 0;
    while c < cols
        invariant
            w == widths@,
            cols == w.len(),
            c <= cols,
            col_x(x as int, w, cols as int) <= i32::MAX,
            curr_x == col_x(x as int, w, c as int),
            points@ == start + seq![(x, ry, v)] + Seq::new(c as nat, |j: int| ((col_x(x as int, w, j + 1)) as i32, ry, v)),
        decreases cols - c,
    {
        proof { lemma_col_x_mono(x as int, w, (c + 1) as int, cols as int); }
        curr_x = curr_x + widths[c] as i32 + 1;
        points.push((curr_x, ry, v));
        assert(points@ =~= start + seq![(x, ry, v)] + Seq::new((c + 1) as nat, |j: int| ((col_x(x as int, w, j + 1)) as i32, ry, v)));
        c = c + 1;
    }
    assert(points@ =~= start + vertical_row(x as int, ry as int, w, w.len(), v));
}

impl TableElement {
    /// Whether `(row, col)` names a cell the table holds.
    pub open spec fn has_cell(&self, row: int, col: int) -> bool {
        0 <= row < self.cells@.len() && 0 <= col < self.cells@[row]@.len()
    }

    /// Replaces the text of the cell at `(row, col)` when the table has it;
    /// tells whether it did.
    pub fn set_cell(&mut self, row: usize, col: usize, content: String) -> (changed: bool)
        ensures
            changed == old(self).has_cell(row as int, col as int),
            changed ==> cells_view(final(self).cells@) == cells_view(old(self).cells@).update(row as int,
                cells_view(old(self).cells@)[row as int].update(col as int, content@)),
            !changed ==> final(self).cells == old(self).cells,
            final(self).cells@.len() == old(self).cells@.len(),
            final(self).id == old(self).id && final(self).name == old(self).name,
            final(self).start == old(self).start && final(self).width == old(self).width,
            final(self).height == old(self).height && final(self).bounds == old(self).bounds,
            final(self).rows == old(self).rows && final(self).cols == old(self).cols,
            final(self).header_border == old(self).header_border && final(self).body_border == old(self).body_border,
    {
        if row < self.cells.len() && col < self.cells[row].len() {
            self.cells[row][col] = content;
            assert(self.cells@.len() == old(self).cells@.len());
            assert(self.cells@[row as int]@ == old(self).cells@[row as int]@.update(col as int, content));
            assert(forall|r: int| 0 <= r < self.cells@.len() && r != row ==> self.cells@[r] == old(self).cells@[r]);
            assert(self.cells@[row as int]@.map_values(|s: String| s@)
                =~= cells_view(old(self).cells@)[row as int].update(col as int, content@));
            assert(cells_view(self.cells@) =~= cells_view(old(self).cells@).update(row as int,
                cells_view(old(self).cells@)[row as int].update(col as int, content@)));
            true
        } else {
            false
        }
    }

    /// Whether the size that fits the texts stays within the `u16` range.
    pub open spec fn size_fits_content(&self) -> bool {
        &&& widths_sum(column_widths(cells_view(self.cells@), self.cols as nat), self.cols as nat)
            + (self.cols as u16) + 1 <= 65535
        &&& (self.rows as u16) * 3 + 1 <= 65535
    }

    /// Resizes the table to its texts when that size fits in a `u16`; tells
    /// whether it did.
    pub fn resize_to_content(&mut self) -> (resized: bool)
        ensures
            resized == old(self).size_fits_content(),
            resized ==> final(self).width == widths_sum(column_widths(cells_view(old(self).cells@), old(self).cols as nat), old(self).cols as nat)
                + (old(self).cols as u16) + 1,
            resized ==> final(self).height == (old(self).rows as u16) * 3 + 1,
            resized ==> final(self).bounds == box_bounds(old(self).start, final(self).width, final(self).height),
            !resized ==> *final(self) == *old(self),
            final(self).start == old(self).start && final(self).id == old(self).id && final(self).name == old(self).name,
            final(self).rows == old(self).rows && final(self).cols == old(self).cols && final(self).cells == old(self).cells,
            final(self).header_border == old(self).header_border && final(self).body_border == old(self).body_border,
    {
        let widths = self.calculate_column_widths();
        let ghost w = widths@;
        let mut total: u32 = 0;
        let mut c: usize = 0;
        while c < widths.len()
            invariant
                w == widths@,
                w == column_widths(cells_view(self.cells@), self.cols as nat),
                w.len() == self.cols,
                c <= w.len(),
                total == widths_sum(w, c as nat),
                total <= 65535,
            decreases widths.len() - c,
        {
            if total + widths[c] as u32 > 65535 {
                proof { lemma_widths_sum_mono(w, (c + 1) as nat, w.len()); }
                return false;
            }
            total = total + widths[c] as u32;
            c = c + 1;
        }
        let cols16 = self.cols as u16;
        let rows16 = self.rows as u16;
        if total + cols16 as u32 + 1 <= 65535 && (rows16 as u32) * 3 + 1 <= 65535 {
            self.update_size_from_content();
            true
        } else {
            false
        }
    }

    /// The text of the cell at `(row, col)`, or nothing when the table lacks it.
    pub fn cell_at(&self, row: usize, col: usize) -> (r: String)
        ensures
            r@ == cell_text(cells_view(self.cells@), row as int, col as int),
    {
        if row < self.cells.len() && col < self.cells[row].len() {
            self.cells[row][col].clone()
        } else {
            String::new()
        }
    }
}

impl TableElement {
    /// Resizes the table to fit its texts: the widths of all columns plus one
    /// border between and around them, and the default row height.
    pub fn update_size_from_content(&mut self)
        requires
            widths_sum(column_widths(cells_view(old(self).cells@), old(self).cols as nat), old(self).cols as nat)
                + (old(self).cols as u16) + 1 <= 65535,
            (old(self).rows as u16) * 3 + 1 <= 65535,
        ensures
            final(self).width == widths_sum(column_widths(cells_view(old(self).cells@), old(self).cols as nat), old(self).cols as nat)
                + (old(self).cols as u16) + 1,
            final(self).height == (old(self).rows as u16) * 3 + 1,
            final(self).bounds == box_bounds(old(self).start, final(self).width, final(self).height),
            final(self).start == old(self).start,
            final(self).id == old(self).id,
            final(self).name == old(self).name,
            final(self).rows == old(self).rows,
            final(self).cols == old(self).cols,
            final(self).cells == old(self).cells,
            final(self).header_border == old(self).header_border,
            final(self).body_border == old(self).body_border,
    {
        let widths = self.calculate_column_widths();
        let ghost w = widths@;
        let mut total: u16 = 0;
        let mut c: usize = 0;
        while c < widths.len()
            invariant
                w == widths@,
                w.len() == self.cols,
                c <= w.len(),
                total == widths_sum(w, c as nat),
                widths_sum(w, w.len()) + (self.cols as u16) + 1 <= 65535,
            decreases widths.len() - c,
        {
            proof { lemma_widths_sum_mono(w, (c + 1) as nat, w.len()); }
            total = total + widths[c];
            c = c + 1;
        }
        self.width = total + (self.cols as u16 + 1);
        self.height = (self.rows as u16) * (CELL_HEIGHT + 1) + 1;
        self.update_bounds();
    }

    fn update_bounds(&mut self)
        ensures
            final(self).bounds == box_bounds(old(self).start, old(self).width, old(self).height),
            final(self).start == old(self).start,
            final(self).width == old(self).width,
            final(self).height == old(self).height,
            final(self).id == old(self).id,
            final(self).name == old(self).name,
            final(self).rows == old(self).rows,
            final(self).cols == old(self).cols,
            final(self).cells == old(self).cells,
            final(self).header_border == old(self).header_border,
            final(self).body_border == old(self).body_border,
    {
        self.bounds = Bounds {
            min: self.start,
            max: Coord {
                x: self.start.x.saturating_add(self.width),
                y: self.start.y.saturating_add(self.height),
            },
        };
    }

    /// Brings the cells and the size in line with `rows` and `cols`.
    fn sync_table_structure(&mut self)
        requires
            size_fits(old(self).rows, old(self).cols),
            old(self).cols < usize::MAX,
            old(self).rows * old(self).cols <= usize::MAX,
        ensures
            synced_cells(cells_view(old(self).cells@), cells_view(final(self).cells@), old(self).rows as int, old(self).cols as int),
            (final(self).width, final(self).height) == grid_size(old(self).rows, old(self).cols),
            final(self).bounds == box_bounds(old(self).start, final(self).width, final(self).height),
            final(self).start == old(self).start,
            final(self).id == old(self).id,
            final(self).name == old(self).name,
            final(self).rows == old(self).rows,
            final(self).cols == old(self).cols,
            final(self).header_border == old(self).header_border,
            final(self).body_border == old(self).body_border,
    {
        let target_rows = self.rows;
        let target_cols = self.cols;
        let (w, h) = Self::calculate_size(target_rows, target_cols);
        self.width = w;
        self.height = h;
        self.update_bounds();
        let ghost before = cells_view(old(self).cells@);
        let mut cells: Vec<Vec<String>> = Vec::new();
        let mut r: usize = 0;
        while r < target_rows
            invariant
                target_rows == old(self).rows,
                target_cols == old(self).cols,
                target_cols < usize::MAX,
                target_rows * target_cols <= usize::MAX,
                before == cells_view(self.cells@),
                r <= target_rows,
                cells@.len() == r,
                forall|i: int| 0 <= i < r ==> (#[trigger] cells@[i])@.len() == target_cols,
                forall|i: int, c: int| 0 <= i < r && 0 <= c < target_cols ==> (#[trigger] cells@[i]@[c])@ ==
                    (if i < before.len() && c < before[i].len() { before[i][c] } else { default_cell(i, c, target_cols as int) }),
            decreases target_rows - r,
        {
            proof {
                if r >= 1 {
                    assert((r - 1) * target_cols + target_cols <= target_rows * target_cols) by (nonlinear_arith)
                        requires r < target_rows, r >= 1;
                }
            }
            let mut row: Vec<String> = Vec::new();
            let mut c: usize = 0;
            while c < target_cols
                invariant
                    target_cols < usize::MAX,
                    r < target_rows,
                    r == 0 || (r - 1) * target_cols + target_cols <= usize::MAX,
                    before == cells_view(self.cells@),
                    c <= target_cols,
                    row@.len() == c,
                    forall|j: int| 0 <= j < c ==> (#[trigger] row@[j])@ ==
                        (if r < before.len() && j < before[r as int].len() { before[r as int][j] } else { default_cell(r as int, j, target_cols as int) }),
                decreases target_cols - c,
            {
                let text = if r < self.cells.len() && c < self.cells[r].len() {
                    self.cells[r][c].clone()
                } else {
                    default_text(r, c, target_cols)
                };
                row.push(text);
                c = c + 1;
            }
            cells.push(row);
            r = r + 1;
        }
        self.cells = cells;
        assert(synced_cells(before, cells_view(self.cells@), target_rows as int, target_cols as int)) by {
            assert forall|i: int| 0 <= i < target_rows implies (#[trigger] cells_view(self.cells@)[i]).len() == target_cols by {
                assert(self.cells@[i]@.len() == target_cols);
            }
            assert forall|i: int, c: int| 0 <= i < target_rows && 0 <= c < target_cols implies cells_view(self.cells@)[i][c] ==
                (if i < before.len() && c < before[i].len() { before[i][c] } else { default_cell(i, c, target_cols as int) }) by {
                assert(self.cells@[i]@[c]@ == cells_view(self.cells@)[i][c]);
            }
        }
    }
}

proof fn lemma_widths_sum_mono(w: Seq<u16>, a: nat, b: nat)
    requires
        a <= b,
    ensures
        widths_sum(w, a) <= widths_sum(w, b),
    decreases b - a,
{
    if a < b {
        lemma_widths_sum_mono(w, a, (b - 1) as nat);
    }
}


/// The style a choice value names, if it is a choice naming a style.
pub open spec fn chosen_style(v: PropertyValueView) -> Option<BorderStyle> {
    match v {
        PropertyValueView::Choice(c) => style_named(c),
        _ => None,
    }
}

/// Every cell's text fits a `u16` count, so each column is at least as wide as its texts.
pub open spec fn texts_fit(cells: Seq<Seq<Seq<char>>>) -> bool {
    forall|r: int, c: int| 0 <= r < cells.len() && 0 <= c < cells[r].len() ==> #[trigger] cells[r][c].len() <= 65535
}

proof fn lemma_col_width_covers(cells: Seq<Seq<Seq<char>>>, c: int, n: nat, r: int)
    requires
        n <= cells.len(),
        0 <= r < n,
        0 <= c < cells[r].len(),
        texts_fit(cells),
    ensures
        cells[r][c].len() <= col_width_upto(cells, c, n),
    decreases n,
{
    if r < n - 1 {
        lemma_col_width_covers(cells, c, (n - 1) as nat, r);
    }
}

/// Appends the border cells of one row.
#[verifier::rlimit(40)]
fn push_row_borders(points: &mut Vec<RenderPoint>, x: i32, y: i32, col_widths: &Vec<u16>, rows: usize, row: usize,
    header: BorderStyle, body: BorderStyle)
    requires
        x >= 0,
        row < rows,
        col_x(x as int, col_widths@, col_widths@.len() as int) < i32::MAX,
        y + rows * 3 + 3 <= i32::MAX,
        y >= 0,
    ensures
        final(points)@ == old(points)@ + row_borders(x as int, y as int, col_widths@, rows as int,
            col_widths@.len(), row as int, header, body),
{
    let ghost start = points@;
    let is_header_row = row == 0;
    let chars = if is_header_row { header.chars() } else { body.chars() };
    let row_y: i32 = y + (row as i32) * 3;
    if row == 0 {
        push_rule(points, x, row_y, col_widths, chars.top_left, chars.top_t, chars.top_right, chars.horizontal);
    }
    let ghost top = points@;
    push_vertical_row(points, x, row_y + 1, col_widths, chars.vertical);
    push_vertical_row(points, x, row_y + 2, col_widths, chars.vertical);
    let ghost mid = points@;
    let bottom_y = row_y + 3;
    if row < rows - 1 {
        if is_header_row && header != body {
            push_rule(points, x, bottom_y, col_widths, chars.bottom_left, chars.bottom_t, chars.bottom_right, chars.horizontal);
        } else {
            push_rule(points, x, bottom_y, col_widths, chars.left_t, chars.cross, chars.right_t, chars.horizontal);
        }
    } else {
        push_rule(points, x, bottom_y, col_widths, chars.bottom_left, chars.bottom_t, chars.bottom_right, chars.horizontal);
    }
    assert(points@ =~= start + row_borders(x as int, y as int, col_widths@, rows as int,
            col_widths@.len(), row as int, header, body));
}

impl TableElement {
    /// Every cell's text, then the border grid: the header row in the header
    /// style, the other rows in the body style.
    pub fn render_points(&self) -> (r: Vec<RenderPoint>)
        requires
            render_fits(*self),
            texts_fit(cells_view(self.cells@)),
        ensures
            r@ == table_cells(*self),
    {
        let x = self.start.x as i32;
        let y = self.start.y as i32;
        let widths = self.calculate_column_widths();
        let ghost w = widths@;
        let ghost cv = cells_view(self.cells@);
        proof {
            lemma_col_x_shift(x as int, w, self.cols as int);
        }
        let mut points: Vec<RenderPoint> = Vec::new();
        let mut row: usize = 0;
        while row < self.rows
            invariant
                w == widths@,
                w == column_widths(cv, self.cols as nat),
                cv == cells_view(self.cells@),
                texts_fit(cv),
                render_fits(*self),
                x == self.start.x,
                y == self.start.y,
                col_x(x as int, w, self.cols as int) + 1 <= i32::MAX,
                row <= self.rows,
                points@ == table_content(x as int, y as int, w, cv, self.cols as nat, row as nat),
            decreases self.rows - row,
        {
            let ghost before = points@;
            let cell_y: i32 = y + (row as i32) * 3;
            let mut col_x_now: i32 = x;
            let mut col: usize = 0;
            while col < self.cols
                invariant
                    w == widths@,
                    w.len() == self.cols,
                    w == column_widths(cv, self.cols as nat),
                    cv == cells_view(self.cells@),
                    texts_fit(cv),
                    x == self.start.x,
                    row < self.rows,
                    cell_y == y + row * 3,
                    cell_y + 3 <= i32::MAX,
                    col_x(x as int, w, self.cols as int) + 1 <= i32::MAX,
                    col <= self.cols,
                    col_x_now == col_x(x as int, w, col as int),
                    points@ == before + row_content(x as int, y as int, w, cv, row as int, col as nat),
                decreases self.cols - col,
            {
                proof { lemma_col_x_mono(x as int, w, (col + 1) as int, self.cols as int); }
                let ghost before_cell = points@;
                let has = row < self.cells.len() && col < self.cells[row].len();
                let text: Vec<char> = if has {
                    crate::text::chars_of(self.cells[row][col].as_str())
                } else {
                    Vec::new()
                };
                proof {
                    if has {
                        lemma_col_width_covers(cv, col as int, cv.len(), row as int);
                    }
                    assert(text@ == cell_text(cv, row as int, col as int));
                }
                let mut i: usize = 0;
                while i < text.len()
                    invariant
                        text@ == cell_text(cv, row as int, col as int),
                        text@.len() <= w[col as int],
                        col_x_now == col_x(x as int, w, col as int),
                        col_x(x as int, w, (col + 1) as int) == col_x_now + w[col as int] + 1,
                        col_x(x as int, w, (col + 1) as int) <= i32::MAX,
                        cell_y == y + row * 3,
                        cell_y + 3 <= i32::MAX,
                        i <= text.len(),
                        points@ == before_cell + Seq::new(i as nat, |k: int|
                            ((col_x(x as int, w, col as int) + 1 + k) as i32, (y + row * 3 + 1) as i32, text@[k])),
                    decreases text.len() - i,
                {
                    points.push((col_x_now + 1 + i as i32, cell_y + 1, text[i]));
                    assert(points@ =~= before_cell + Seq::new((i + 1) as nat, |k: int|
                        ((col_x(x as int, w, col as int) + 1 + k) as i32, (y + row * 3 + 1) as i32, text@[k])));
                    i = i + 1;
                }
                assert(points@ =~= before + row_content(x as int, y as int, w, cv, row as int, (col + 1) as nat));
                col_x_now = col_x_now + widths[col] as i32 + 1;
                col = col + 1;
            }
            row = row + 1;
        }
        let ghost content = points@;
        proof { lemma_col_x_shift(x as int, widths@, self.cols as int); }
        self.render_table_borders(&mut points, x, y, &widths);
        points
    }

    /// Appends the border grid of the table's rows, placed at `(x, y)` with
    /// columns `col_widths` wide; every row is two cells high, the height all
    /// table cells have.
    fn render_table_borders(&self, points: &mut Vec<RenderPoint>, x: i32, y: i32, col_widths: &Vec<u16>)
        requires
            x >= 0,
            y >= 0,
            col_widths@.len() == self.cols,
            col_x(x as int, col_widths@, self.cols as int) < i32::MAX,
            y + self.rows * 3 + 3 <= i32::MAX,
        ensures
            final(points)@ == old(points)@ + table_borders(x as int, y as int, col_widths@, self.rows as int,
                self.cols as nat, self.rows as nat, self.header_border, self.body_border),
    {
        let ghost w = col_widths@;
        let ghost start = points@;
        let rows = self.rows;
        let header_chars = self.header_border.chars();
        let body_chars = self.body_border.chars();
        let mut row: usize = 0;
        while row < rows
            invariant
                w == col_widths@,
                w.len() == self.cols,
                rows == self.rows,
                x >= 0,
                y >= 0,
                col_x(x as int, w, w.len() as int) < i32::MAX,
                y + rows * 3 + 3 <= i32::MAX,
                header_chars == border_chars(self.header_border),
                body_chars == border_chars(self.body_border),
                row <= rows,
                points@ == start + table_borders(x as int, y as int, w, rows as int, self.cols as nat, row as nat,
                    self.header_border, self.body_border),
            decreases rows - row,
        {
            let ghost before = points@;
            push_row_borders(points, x, y, col_widths, rows, row, self.header_border, self.body_border);
            assert(points@ =~= start + table_borders(x as int, y as int, w, rows as int, self.cols as nat, (row + 1) as nat,
                self.header_border, self.body_border));
            row = row + 1;
        }
    }
}

/// What setting the property `name` to `value` does to a table, with result `r`.
pub open spec fn table_set(a: TableElement, b: TableElement, name: Seq<char>, value: PropertyValueView, r: Result<(), PropertyError>) -> bool {
    &&& b.id == a.id
    &&& b.name == a.name
    &&& b.start == a.start
    &&& match table_set_outcome(name, value, a) {
            Ok(Some((rows, cols))) => {
                &&& r is Ok
                &&& b.rows == rows
                &&& b.cols == cols
                &&& synced_cells(cells_view(a.cells@), cells_view(b.cells@), rows as int, cols as int)
                &&& (b.width, b.height) == grid_size(rows, cols)
                &&& b.bounds == box_bounds(a.start, b.width, b.height)
                &&& b.header_border == a.header_border
                &&& b.body_border == a.body_border
            },
            Ok(None) => {
                &&& r is Ok
                &&& b.header_border == (if name == "header_border"@ { chosen_style(value)->0 } else { a.header_border })
                &&& b.body_border == (if name == "header_border"@ { a.body_border } else { chosen_style(value)->0 })
                &&& b.rows == a.rows
                &&& b.cols == a.cols
                &&& b.cells == a.cells
                &&& b.width == a.width
                &&& b.height == a.height
                &&& b.bounds == a.bounds
            },
            Err(e) => {
                &&& r matches Err(x) && x@ == e
                &&& b.rows == a.rows
                &&& b.cols == a.cols
                &&& b.cells == a.cells
                &&& b.width == a.width
                &&& b.height == a.height
                &&& b.bounds == a.bounds
                &&& b.header_border == a.header_border
                &&& b.body_border == a.body_border
            }
    }
}

impl HasProperties for TableElement {
    /// Changing the row count rebuilds the grid with the columns kept, so the
    /// kept column count must fit the width; changing the column count keeps
    /// the rows, which must fit the height. Border changes need nothing.
    open spec fn settable(&self, name: Seq<char>) -> bool {
        if name == "rows"@ {
            (self.cols as u16) * 13 + 1 <= 65535 && self.cols * 20 < usize::MAX
        } else if name == "cols"@ {
            (self.rows as u16) * 3 + 1 <= 65535 && self.rows * 10 < usize::MAX
        } else {
            true
        }
    }

    /// Structure (rows, cols) and the header and body border styles.
    fn properties_spec(&self) -> (s: PropertiesSpec)
        ensures
            s@ == table_spec_view(),
    {
        let mut spec = PropertiesSpec::new();
        spec.add_section(PropertySection::new("Structure").numeric("rows", "rows", 1, 20).numeric("cols", "cols", 1, 10));
        spec.add_section(PropertySection::new("Borders")
            .choice("header_border", "header", BorderStyle::all_options())
            .choice("body_border", "body", BorderStyle::all_options()));
        assert(spec@ =~~= table_spec_view());
        spec
    }

    /// The value of the named property.
    fn get_property(&self, name: &str) -> (r: Option<PropertyValue>)
        ensures
            match table_property(*self, name@) {
                Some(v) => r is Some && r->0@ == v,
                None => r is None,
            },
    {
        if str_eq(name, "rows") {
            Some(PropertyValue::Numeric(self.rows as u16))
        } else if str_eq(name, "cols") {
            Some(PropertyValue::Numeric(self.cols as u16))
        } else if str_eq(name, "header_border") {
            Some(PropertyValue::Choice(String::from_str(self.header_border.as_str())))
        } else if str_eq(name, "body_border") {
            Some(PropertyValue::Choice(String::from_str(self.body_border.as_str())))
        } else {
            None
        }
    }

    /// Sets the named property; changing rows or columns reshapes the cells
    /// (keeping existing texts) and the size. A refused value changes nothing.
    fn set_property(&mut self, name: &str, value: PropertyValue) -> (r: Result<(), PropertyError>)
        ensures
            table_set(*old(self), *final(self), name@, value@, r),
    {
        if str_eq(name, "rows") {
            let n = value.as_numeric()?;
            if n == 0 || n > 20 {
                return Err(PropertyError::RowsOutOfRange);
            }
            self.rows = n as usize;
            assert(self.rows * self.cols <= usize::MAX) by (nonlinear_arith)
                requires self.rows <= 20, self.cols * 20 < usize::MAX;
            self.sync_table_structure();
        } else if str_eq(name, "cols") {
            let n = value.as_numeric()?;
            if n == 0 || n > 10 {
                return Err(PropertyError::ColsOutOfRange);
            }
            self.cols = n as usize;
            assert(self.rows * self.cols <= usize::MAX) by (nonlinear_arith)
                requires self.cols <= 10, self.rows * 10 < usize::MAX;
            self.sync_table_structure();
        } else if str_eq(name, "header_border") {
            let c = value.as_choice()?;
            self.header_border = BorderStyle::from_str(c)?;
        } else if str_eq(name, "body_border") {
            let c = value.as_choice()?;
            self.body_border = BorderStyle::from_str(c)?;
        } else {
            return Err(PropertyError::UnknownProperty(String::from_str(name)));
        }
        Ok(())
    }
}

/// A point of either part is a point of the two together.
proof fn lemma_concat_contains(a: Seq<RenderPoint>, b: Seq<RenderPoint>, p: RenderPoint)
    requires
        a.contains(p) || b.contains(p),
    ensures
        (a + b).contains(p),
{
    if a.contains(p) {
        let i = choose|i: int| 0 <= i < a.len() && a[i] == p;
        assert((a + b)[i] == p);
    } else {
        let j = choose|j: int| 0 <= j < b.len() && b[j] == p;
        assert((a + b)[a.len() + j] == p);
    }
}

/// The borders of the first `m` rows hold the borders of each of those rows.
proof fn lemma_row_in_table_borders(x: int, y: int, w: Seq<u16>, rows: int, cols: nat, m: nat,
    header: BorderStyle, body: BorderStyle, r: int, p: RenderPoint)
    requires
        0 <= r < m,
        row_borders(x, y, w, rows, cols, r, header, body).contains(p),
    ensures
        table_borders(x, y, w, rows, cols, m, header, body).contains(p),
    decreases m,
{
    let prev = table_borders(x, y, w, rows, cols, (m - 1) as nat, header, body);
    let last = row_borders(x, y, w, rows, cols, m - 1, header, body);
    if r < m - 1 {
        lemma_row_in_table_borders(x, y, w, rows, cols, (m - 1) as nat, header, body, r, p);
    }
    lemma_concat_contains(prev, last, p);
}

/// A table draws its header row in the header style and every other row in
/// the body style: the top-left corner of the table is the header style's
/// top-left corner, and both rows of the left border beside row `r` are the
/// vertical stroke of the header style for the first row and of the body
/// style for every row below it.
pub proof fn lemma_table_border_styles(t: TableElement, r: int)
    requires
        0 <= r < t.rows,
    ensures
        table_cells(t).contains((t.start.x as i32, t.start.y as i32, border_chars(t.header_border).top_left)),
        table_cells(t).contains((t.start.x as i32, (t.start.y + 3 * r + 1) as i32,
            border_chars(if r == 0 { t.header_border } else { t.body_border }).vertical)),
        table_cells(t).contains((t.start.x as i32, (t.start.y + 3 * r + 2) as i32,
            border_chars(if r == 0 { t.header_border } else { t.body_border }).vertical)),
        table_cells(t).contains((t.start.x as i32, (t.start.y + 3 * t.rows) as i32,
            border_chars(if t.rows == 1 { t.header_border } else { t.body_border }).bottom_left)),
{
    let x = t.start.x as int;
    let y = t.start.y as int;
    let w = column_widths(cells_view(t.cells@), t.cols as nat);
    let cols = t.cols as nat;
    let rows = t.rows as int;
    let h = t.header_border;
    let b = t.body_border;
    let content = table_content(x, y, w, cells_view(t.cells@), cols, t.rows as nat);
    let borders = table_borders(x, y, w, rows, cols, t.rows as nat, h, b);
    // The header row opens with the top rule, whose first cell is the corner.
    let first = row_borders(x, y, w, rows, cols, 0, h, b);
    let top = rule(x, y, w, cols, border_chars(h).top_left, border_chars(h).top_t, border_chars(h).top_right,
        border_chars(h).horizontal);
    assert(top[0] == (x as i32, y as i32, border_chars(h).top_left));
    assert(first[0] == top[0]);
    assert(first.contains(top[0]));
    lemma_row_in_table_borders(x, y, w, rows, cols, t.rows as nat, h, b, 0, top[0]);
    lemma_concat_contains(content, borders, top[0]);
    // Row `r`'s two vertical border rows open at the left edge.
    let ch = if r == 0 { border_chars(h) } else { border_chars(b) };
    let ry = y + r * 3;
    let head = if r == 0 { rule(x, ry, w, cols, ch.top_left, ch.top_t, ch.top_right, ch.horizontal) } else { Seq::empty() };
    let v1 = vertical_row(x, ry + 1, w, cols, ch.vertical);
    let v2 = vertical_row(x, ry + 2, w, cols, ch.vertical);
    let row = row_borders(x, y, w, rows, cols, r, h, b);
    let p1 = (x as i32, (ry + 1) as i32, ch.vertical);
    let p2 = (x as i32, (ry + 2) as i32, ch.vertical);
    assert(v1[0] == p1);
    assert(v2[0] == p2);
    assert(row[head.len() as int] == p1);
    assert(row[(head.len() + v1.len()) as int] == p2);
    assert(row.contains(p1));
    assert(row.contains(p2));
    lemma_row_in_table_borders(x, y, w, rows, cols, t.rows as nat, h, b, r, p1);
    lemma_row_in_table_borders(x, y, w, rows, cols, t.rows as nat, h, b, r, p2);
    lemma_concat_contains(content, borders, p1);
    lemma_concat_contains(content, borders, p2);
    assert(y + r * 3 + 1 == t.start.y + 3 * r + 1);
    // The last row closes with the bottom rule, whose first cell is the corner.
    let lr = rows - 1;
    let lch = if lr == 0 { border_chars(h) } else { border_chars(b) };
    let ly = y + lr * 3;
    let lhead = if lr == 0 { rule(x, ly, w, cols, lch.top_left, lch.top_t, lch.top_right, lch.horizontal) } else { Seq::empty() };
    let lv1 = vertical_row(x, ly + 1, w, cols, lch.vertical);
    let lv2 = vertical_row(x, ly + 2, w, cols, lch.vertical);
    let bottom = rule(x, ly + 3, w, cols, lch.bottom_left, lch.bottom_t, lch.bottom_right, lch.horizontal);
    let lrow = row_borders(x, y, w, rows, cols, lr, h, b);
    let pb = (x as i32, (ly + 3) as i32, lch.bottom_left);
    assert(bottom[0] == pb);
    assert(lrow == lhead + lv1 + lv2 + bottom);
    assert(lrow[(lhead.len() + lv1.len() + lv2.len()) as int] == pb);
    assert(lrow.contains(pb));
    lemma_row_in_table_borders(x, y, w, rows, cols, t.rows as nat, h, b, lr, pb);
    lemma_concat_contains(content, borders, pb);
    assert(ly + 3 == t.start.y + 3 * t.rows);
}

} // verus!
