use vstd::prelude::*;
use crate::elements::{with_cell, Element, ElementView};
use crate::elements::table::{cell_text, cells_view, column_widths, TableElement};
use crate::events::types::{KeyCode, KeyEvent};
use crate::events::EventResult;
use crate::state::canvas::{first_with_id, index_of_id, lemma_first_with_id, lemma_index_of_id, views, CanvasState};
use crate::state::{same_but_editing, same_ui, AppState, EditTableState};
use crate::text::{chars_of, string_from_chars};

verus! {

/// The table-editing state as plain values.
pub struct EditView {
    pub table_id: usize,
    pub row: usize,
    pub col: usize,
    pub editing: bool,
    pub buffer: Seq<char>,
    pub cursor: usize,
    pub original: Seq<char>,
}

/// The plain values of a table-editing state.
pub open spec fn edit_view(e: EditTableState) -> EditView {
    EditView {
        table_id: e.table_id,
        row: e.selected_row,
        col: e.selected_col,
        editing: e.editing_cell,
        buffer: e.edit_buffer@,
        cursor: e.cursor_pos,
        original: e.original_content@,
    }
}

/// The rows and columns of the first element with id `id`, when it is a table.
pub open spec fn table_dims(elems: Seq<Element>, id: usize) -> Option<(usize, usize)> {
    match first_with_id(views(elems), id) {
        Some(i) => match views(elems)[i] {
            ElementView::Table { rows, cols, .. } => Some((rows, cols)),
            _ => None,
        },
        None => None,
    }
}

/// The text of cell `(row, col)` of the first element with id `id`, when it
/// is a table (empty when the cell is missing).
pub open spec fn table_cell_text(elems: Seq<Element>, id: usize, row: int, col: int) -> Seq<char> {
    match first_with_id(views(elems), id) {
        Some(i) => match views(elems)[i] {
            ElementView::Table { cells, .. } => cell_text(cells, row, col),
            _ => Seq::empty(),
        },
        None => Seq::empty(),
    }
}

/// The values after writing `content` into cell `(row, col)` of the table with id `id`.
pub open spec fn cell_written(vs: Seq<ElementView>, id: usize, row: int, col: int, content: Seq<char>) -> Seq<ElementView> {
    match first_with_id(vs, id) {
        Some(i) => vs.update(i, with_cell(vs[i], row, col, content)),
        None => vs,
    }
}

/// What a key does while a table is edited: the next editing state (`None`
/// leaves table editing) and the text written into the selected cell, if any.
/// While a cell is edited, characters are inserted at the cursor, Backspace
/// and Delete remove around it, the arrows move it, Enter keeps the text and
/// Esc puts back what the cell held; otherwise the arrows move between cells
/// of a table of `dims`, Enter starts editing with the cell's `text`, and Esc
/// or `q` leave.
pub open spec fn edit_step(e: EditView, code: KeyCode, dims: Option<(usize, usize)>, text: Seq<char>)
    -> (Option<EditView>, Option<Seq<char>>)
{
    if e.editing {
        match code {
            KeyCode::Esc => (Some(EditView { editing: false, buffer: Seq::empty(), ..e }), Some(e.original)),
            KeyCode::Enter => (Some(EditView { editing: false, buffer: Seq::empty(), ..e }), None),
            KeyCode::Char(c) => {
                let b = e.buffer.insert(e.cursor as int, c);
                (Some(EditView { buffer: b, cursor: (e.cursor + 1) as usize, ..e }), Some(b))
            },
            KeyCode::Backspace => if e.cursor > 0 {
                let b = e.buffer.remove(e.cursor - 1);
                (Some(EditView { buffer: b, cursor: (e.cursor - 1) as usize, ..e }), Some(b))
            } else {
                (Some(e), Some(e.buffer))
            },
            KeyCode::Delete => if e.cursor < e.buffer.len() {
                let b = e.buffer.remove(e.cursor as int);
                (Some(EditView { buffer: b, ..e }), Some(b))
            } else {
                (Some(e), Some(e.buffer))
            },
            KeyCode::Left => if e.cursor > 0 {
                (Some(EditView { cursor: (e.cursor - 1) as usize, ..e }), None)
            } else {
                (Some(e), None)
            },
            KeyCode::Right => if e.cursor < e.buffer.len() {
                (Some(EditView { cursor: (e.cursor + 1) as usize, ..e }), None)
            } else {
                (Some(e), None)
            },
            _ => (Some(e), None),
        }
    } else {
        match code {
            KeyCode::Esc => (None, None),
            KeyCode::Char(c) => if c == 'q' { (None, None) } else { (Some(e), None) },
            KeyCode::Up => if e.row > 0 {
                (Some(EditView { row: (e.row - 1) as usize, ..e }), None)
            } else {
                (Some(e), None)
            },
            KeyCode::Down => match dims {
                Some((rows, cols)) => if e.row + 1 < rows {
                    (Some(EditView { row: (e.row + 1) as usize, ..e }), None)
                } else {
                    (Some(e), None)
                },
                None => (Some(e), None),
            },
            KeyCode::Left => if e.col > 0 {
                (Some(EditView { col: (e.col - 1) as usize, ..e }), None)
            } else {
                (Some(e), None)
            },
            KeyCode::Right => match dims {
                Some((rows, cols)) => if e.col + 1 < cols {
                    (Some(EditView { col: (e.col + 1) as usize, ..e }), None)
                } else {
                    (Some(e), None)
                },
                None => (Some(e), None),
            },
            KeyCode::Enter => match dims {
                Some(_) => (Some(EditView {
                    editing: true, buffer: text, original: text, cursor: text.len() as usize, ..e
                }), None),
                None => (Some(e), None),
            },
            _ => (Some(e), None),
        }
    }
}

/// The editing state can take the key without its cursor leaving the text or
/// its counters overflowing.
pub open spec fn edit_ready(e: EditTableState) -> bool {
    &&& e.editing_cell ==> e.cursor_pos <= e.edit_buffer@.len()
    &&& e.edit_buffer@.len() < usize::MAX
}

/// Whether the editing state can take a key (see `edit_ready`).
pub fn is_edit_ready(e: &EditTableState) -> (b: bool)
    ensures
        b == edit_ready(*e),
{
    let n = e.edit_buffer.as_str().unicode_len();
    n < usize::MAX && (!e.editing_cell || e.cursor_pos <= n)
}

/// `s` with `c` inserted before the character at `pos`.
pub fn insert_char_at(s: &String, pos: usize, c: char) -> (r: String)
    requires
        pos <= s@.len(),
    ensures
        r@ == s@.insert(pos as int, c),
{
    let mut v = chars_of(s.as_str());
    v.insert(pos, c);
    string_from_chars(&v)
}

/// `s` without the character at `pos`.
pub fn remove_char_at(s: &String, pos: usize) -> (r: String)
    requires
        pos < s@.len(),
    ensures
        r@ == s@.remove(pos as int),
{
    let mut v = chars_of(s.as_str());
    let _ = v.remove(pos);
    string_from_chars(&v)
}

/// The rows and columns of the table with id `id`.
fn table_dimensions(canvas: &CanvasState, id: usize) -> (r: Option<(usize, usize)>)
    ensures
        r == table_dims(canvas.spec_elements(), id),
{
    proof {
        lemma_index_of_id(canvas.spec_elements(), id);
        lemma_first_with_id(views(canvas.spec_elements()), id);
    }
    match canvas.get_element(id) {
        Some(Element::Table(t)) => Some((t.rows, t.cols)),
        _ => None,
    }
}

/// The text of cell `(row, col)` of the table with id `id`.
fn table_cell(canvas: &CanvasState, id: usize, row: usize, col: usize) -> (r: String)
    ensures
        r@ == table_cell_text(canvas.spec_elements(), id, row as int, col as int),
{
    proof {
        lemma_index_of_id(canvas.spec_elements(), id);
        lemma_first_with_id(views(canvas.spec_elements()), id);
    }
    match canvas.get_element(id) {
        Some(Element::Table(t)) => t.cell_at(row, col),
        _ => String::new(),
    }
}

/// What asking to edit a table does: editing starts at the first cell when
/// exactly one element is selected and it is a table.
pub open spec fn enter_edit_done(before: AppState, after: AppState, r: EventResult) -> bool {
    ({
        let ids = before.selection_state.selected_ids@;
        let elems = before.canvas.spec_elements();
        if ids.len() == 1 && table_dims(elems, ids[0]) is Some {
            &&& r == EventResult::Consumed
            &&& after.editing_table matches Some(e) && edit_view(e) == (EditView {
                table_id: ids[0], row: 0, col: 0, editing: false, buffer: Seq::empty(), cursor: 0,
                original: Seq::empty(),
            })
            &&& same_but_editing(before, after)
        } else {
            r == EventResult::Ignored && after == before
        }
    })
}

/// Enters table editing when exactly one element is selected and it is a table.
pub fn try_enter_edit_table_mode(state: &mut AppState) -> (r: EventResult)
    ensures
        enter_edit_done(*old(state), *final(state), r),
{
    if state.selection_state.selected_ids.len() == 1 {
        let element_id = state.selection_state.selected_ids[0];
        if table_dimensions(&state.canvas, element_id).is_some() {
            state.enter_edit_table_mode(element_id);
            assert(state.editing_table->0.edit_buffer@ =~= Seq::<char>::empty());
            assert(state.editing_table->0.original_content@ =~= Seq::<char>::empty());
            return EventResult::Consumed;
        }
    }
    EventResult::Ignored
}

/// What a key does while a table is edited (see `edit_step`); a table that
/// no longer exists ends table editing.
pub open spec fn edit_key_done(before: AppState, after: AppState, key: KeyEvent, r: EventResult) -> bool {
    match before.editing_table {
        None => r == EventResult::Ignored && after == before,
        Some(e) => {
            &&& r == EventResult::Consumed
            &&& same_ui(before, after)
            &&& after.command == before.command && after.tool == before.tool
            &&& after.file == before.file && after.selection_state == before.selection_state
            &&& after.canvas.spec_next_id() == before.canvas.spec_next_id()
            &&& if index_of_id(before.canvas.spec_elements(), e.table_id) is None {
                after.editing_table is None && after.canvas == before.canvas
            } else {
                let elems = before.canvas.spec_elements();
                let (next, write) = edit_step(edit_view(e), key.code, table_dims(elems, e.table_id),
                    table_cell_text(elems, e.table_id, e.selected_row as int, e.selected_col as int));
                &&& match next {
                    Some(n) => after.editing_table matches Some(f) && edit_view(f) == n,
                    None => after.editing_table is None,
                }
                &&& match write {
                    Some(t) => views(after.canvas.spec_elements())
                        == cell_written(views(elems), e.table_id, e.selected_row as int, e.selected_col as int, t),
                    None => after.canvas == before.canvas,
                }
            }
        },
    }
}

/// Handles a key while a table is edited (see `edit_step`); a table that no
/// longer exists ends table editing.
pub fn handle_edit_table_key(state: &mut AppState, key_event: &KeyEvent) -> (r: EventResult)
    requires
        old(state).editing_table matches Some(e) ==> edit_ready(e),
    ensures
        edit_key_done(*old(state), *final(state), *key_event, r),
{
    let (table_id, editing_cell, row, col) = match &state.editing_table {
        Some(e) => (e.table_id, e.editing_cell, e.selected_row, e.selected_col),
        None => { return EventResult::Ignored; },
    };
    proof { lemma_index_of_id(state.canvas.spec_elements(), table_id); }
    if state.canvas.get_element(table_id).is_none() {
        state.exit_edit_table_mode();
        return EventResult::Consumed;
    }
    let ghost e0 = state.editing_table->0;
    if editing_cell {
        match key_event.code {
            KeyCode::Esc => {
                let original = match &mut state.editing_table {
                    Some(e) => {
                        e.editing_cell = false;
                        e.edit_buffer = String::new();
                        e.original_content.clone()
                    },
                    None => String::new(),
                };
                state.canvas.set_table_cell(table_id, row, col, original);
            },
            KeyCode::Enter => {
                if let Some(e) = &mut state.editing_table {
                    e.editing_cell = false;
                    e.edit_buffer = String::new();
                }
            },
            KeyCode::Char(c) => {
                let content = match &mut state.editing_table {
                    Some(e) => {
                        e.edit_buffer = insert_char_at(&e.edit_buffer, e.cursor_pos, c);
                        e.cursor_pos = e.cursor_pos + 1;
                        e.edit_buffer.clone()
                    },
                    None => String::new(),
                };
                state.canvas.set_table_cell(table_id, row, col, content);
            },
            KeyCode::Backspace => {
                let content = match &mut state.editing_table {
                    Some(e) => {
                        if e.cursor_pos > 0 {
                            e.cursor_pos = e.cursor_pos - 1;
                            e.edit_buffer = remove_char_at(&e.edit_buffer, e.cursor_pos);
                        }
                        e.edit_buffer.clone()
                    },
                    None => String::new(),
                };
                state.canvas.set_table_cell(table_id, row, col, content);
            },
            KeyCode::Delete => {
                let content = match &mut state.editing_table {
                    Some(e) => {
                        if e.cursor_pos < e.edit_buffer.as_str().unicode_len() {
                            e.edit_buffer = remove_char_at(&e.edit_buffer, e.cursor_pos);
                        }
                        e.edit_buffer.clone()
                    },
                    None => String::new(),
                };
                state.canvas.set_table_cell(table_id, row, col, content);
            },
            KeyCode::Left => {
                if let Some(e) = &mut state.editing_table {
                    if e.cursor_pos > 0 {
                        e.cursor_pos = e.cursor_pos - 1;
                    }
                }
            },
            KeyCode::Right => {
                if let Some(e) = &mut state.editing_table {
                    if e.cursor_pos < e.edit_buffer.as_str().unicode_len() {
                        e.cursor_pos = e.cursor_pos + 1;
                    }
                }
            },
            _ => {},
        }
        return EventResult::Consumed;
    }
    match key_event.code {
        KeyCode::Esc => {
            state.exit_edit_table_mode();
        },
        KeyCode::Char(c) => {
            if c == 'q' {
                state.exit_edit_table_mode();
            }
        },
        KeyCode::Up => {
            if let Some(e) = &mut state.editing_table {
                if e.selected_row > 0 {
                    e.selected_row = e.selected_row - 1;
                }
            }
        },
        KeyCode::Down => {
            if let Some((rows, _)) = table_dimensions(&state.canvas, table_id) {
                if let Some(e) = &mut state.editing_table {
                    if e.selected_row < rows && e.selected_row + 1 < rows {
                        e.selected_row = e.selected_row + 1;
                    }
                }
            }
        },
        KeyCode::Left => {
            if let Some(e) = &mut state.editing_table {
                if e.selected_col > 0 {
                    e.selected_col = e.selected_col - 1;
                }
            }
        },
        KeyCode::Right => {
            if let Some((_, cols)) = table_dimensions(&state.canvas, table_id) {
                if let Some(e) = &mut state.editing_table {
                    if e.selected_col < cols && e.selected_col + 1 < cols {
                        e.selected_col = e.selected_col + 1;
                    }
                }
            }
        },
        KeyCode::Enter => {
            if table_dimensions(&state.canvas, table_id).is_some() {
                let content = table_cell(&state.canvas, table_id, row, col);
                if let Some(e) = &mut state.editing_table {
                    e.edit_buffer = content.clone();
                    e.original_content = content;
                    e.cursor_pos = e.edit_buffer.as_str().unicode_len();
                    e.editing_cell = true;
                }
            }
        },
        _ => {},
    }
    EventResult::Consumed
}

/// The width of column `c` as the editor measures it: the column's width, or
/// the default width for a column the table lacks.
pub open spec fn edit_col_width(t: TableElement, c: int) -> u16 {
    if 0 <= c < t.cols { column_widths(cells_view(t.cells@), t.cols as nat)[c] } else { 12u16 }
}

/// The column of the left border of column `c`.
pub open spec fn edit_col_left(t: TableElement, c: int) -> int
    decreases c,
{
    if c <= 0 { t.start.x as int } else { edit_col_left(t, c - 1) + edit_col_width(t, c - 1) + 1 }
}

/// The content area of a cell: both text rows, each from just right of the
/// left border across the column width.
pub open spec fn highlight_cells(cx: int, cy: int, w: u16) -> Seq<(i32, i32)> {
    Seq::new(w as nat, |i: int| ((cx + 1 + i) as i32, (cy + 1) as i32))
        + Seq::new(w as nat, |i: int| ((cx + 1 + i) as i32, (cy + 2) as i32))
}

/// The edited text with a `│` cursor mark, padded with blanks to the column
/// width, on the cell's first text row; each cell tells whether it is the cursor's.
pub open spec fn edit_cells(cx: int, cy: int, w: u16, buffer: Seq<char>, cursor: int) -> Seq<(i32, i32, char, bool)> {
    let shown = buffer.insert(cursor, '│');
    Seq::new(w as nat, |i: int| ((cx + 1 + i) as i32, (cy + 1) as i32, if i < shown.len() { shown[i] } else { ' ' }, i == cursor))
}

/// The overlay coordinates of the edited cell fit in an `i32`.
pub open spec fn overlay_fits(t: TableElement, row: usize, col: usize) -> bool {
    &&& edit_col_left(t, col as int) + edit_col_width(t, col as int) + 1 <= i32::MAX
    &&& t.start.y + row * 3 + 2 <= i32::MAX
}

/// Whether the editing overlay for cell `(row, col)` of `t` stays inside the
/// `i32` range (see `overlay_fits`).
pub fn fits_overlay(t: &TableElement, row: usize, col: usize) -> (b: bool)
    ensures
        b == overlay_fits(*t, row, col),
{
    let limit: u64 = 0x7fff_ffff;
    let mut left: u64 = t.start.x as u64;
    let mut c: usize = 0;
    while c < col
        invariant
            limit == 0x7fff_ffffu64,
            c <= col,
            left == edit_col_left(*t, c as int),
            left <= limit,
        decreases col - c,
    {
        let w = t.get_column_width(c);
        left = left + w as u64 + 1;
        assert(edit_col_left(*t, c + 1) == edit_col_left(*t, c as int) + edit_col_width(*t, c as int) + 1);
        if left > limit {
            proof {
                lemma_col_left_grows(*t, (c + 1) as int, col as int);
            }
            return false;
        }
        c = c + 1;
    }
    let w = t.get_column_width(col);
    left + w as u64 + 1 <= limit && (t.start.y as u128) + (row as u128) * 3 + 2 <= limit as u128
}

proof fn lemma_col_left_grows(t: TableElement, a: int, b: int)
    requires
        0 <= a <= b,
    ensures
        edit_col_left(t, a) <= edit_col_left(t, b),
        edit_col_left(t, a) >= t.start.x,
    decreases b,
{
    if b > a {
        lemma_col_left_grows(t, a, b - 1);
    } else if a > 0 {
        lemma_col_left_grows(t, a - 1, b - 1);
    }
}

/// Appends the cells from just right of `cx` across `w` columns on row `y`.
fn push_cell_row(points: &mut Vec<(i32, i32)>, cx: i32, y: i32, w: u16)
    requires
        cx + w + 1 <= i32::MAX,
    ensures
        final(points)@ == old(points)@ + Seq::new(w as nat, |i: int| ((cx + 1 + i) as i32, y)),
{
    let mut i: u16 = 0;
    while i < w
        invariant
            i <= w,
            cx + w + 1 <= i32::MAX,
            points@ == old(points)@ + Seq::new(i as nat, |k: int| ((cx + 1 + k) as i32, y)),
        decreases w - i,
    {
        points.push((cx + 1 + i as i32, y));
        assert(points@ =~= old(points)@ + Seq::new((i + 1) as nat, |k: int| ((cx + 1 + k) as i32, y)));
        i = i + 1;
    }
}

/// The overlays of table editing for the table `t`: the selected cell's
/// content area and, while a cell is edited, the text being typed.
pub fn edit_overlays(t: &TableElement, e: &EditTableState) -> (r: (Vec<(i32, i32)>, Vec<(i32, i32, char, bool)>))
    requires
        overlay_fits(*t, e.selected_row, e.selected_col),
        e.editing_cell ==> e.cursor_pos <= e.edit_buffer@.len(),
    ensures
        ({
            let cx = edit_col_left(*t, e.selected_col as int);
            let cy = t.start.y + e.selected_row * 3;
            let w = edit_col_width(*t, e.selected_col as int);
            &&& r.0@ == highlight_cells(cx, cy, w)
            &&& r.1@ == (if e.editing_cell { edit_cells(cx, cy, w, e.edit_buffer@, e.cursor_pos as int) } else { Seq::empty() })
        }),
{
    let x = t.start.x as i32;
    let y = t.start.y as i32;
    let sel_row = e.selected_row;
    let sel_col = e.selected_col;
    let col_width = t.get_column_width(sel_col);
    let mut cell_x: i32 = x;
    let mut c: usize = 0;
    proof { lemma_col_left_grows(*t, sel_col as int, sel_col as int); }
    while c < sel_col
        invariant
            c <= sel_col,
            sel_col == e.selected_col,
            cell_x == edit_col_left(*t, c as int),
            overlay_fits(*t, e.selected_row, e.selected_col),
        decreases sel_col - c,
    {
        proof { lemma_col_left_grows(*t, (c + 1) as int, sel_col as int); }
        let w = t.get_column_width(c);
        cell_x = cell_x + w as i32 + 1;
        c = c + 1;
    }
    let cell_y: i32 = y + (sel_row as i32) * 3;
    let mut highlight: Vec<(i32, i32)> = Vec::new();
    push_cell_row(&mut highlight, cell_x, cell_y + 1, col_width);
    push_cell_row(&mut highlight, cell_x, cell_y + 2, col_width);
    let mut content: Vec<(i32, i32, char, bool)> = Vec::new();
    if e.editing_cell {
        let shown = chars_of(insert_char_at(&e.edit_buffer, e.cursor_pos, '│').as_str());
        let mut i: u16 = 0;
        while i < col_width
            invariant
                i <= col_width,
                cell_x == edit_col_left(*t, e.selected_col as int),
                cell_y == t.start.y + e.selected_row * 3,
                col_width == edit_col_width(*t, e.selected_col as int),
                overlay_fits(*t, e.selected_row, e.selected_col),
                e.cursor_pos <= e.edit_buffer@.len(),
                shown@ == e.edit_buffer@.insert(e.cursor_pos as int, '│'),
                content@ == edit_cells(cell_x as int, cell_y as int, col_width, e.edit_buffer@, e.cursor_pos as int).subrange(0, i as int),
            decreases col_width - i,
        {
            assert(e.cursor_pos <= e.edit_buffer@.len());
            let ch = if (i as usize) < shown.len() { shown[i as usize] } else { ' ' };
            content.push((cell_x + 1 + i as i32, cell_y + 1, ch, i as usize == e.cursor_pos));
            assert(content@ =~= edit_cells(cell_x as int, cell_y as int, col_width, e.edit_buffer@, e.cursor_pos as int).subrange(0, i + 1));
            i = i + 1;
        }
        assert(content@ =~= edit_cells(cell_x as int, cell_y as int, col_width, e.edit_buffer@, e.cursor_pos as int));
    }
    assert(highlight@ =~= highlight_cells(cell_x as int, cell_y as int, col_width));
    (highlight, content)
}

/// `hl` and `ed` are the overlays of table editing in `state`: the selected
/// cell's highlight and, while a cell is being edited, its buffer.
pub open spec fn overlays_for(state: AppState, hl: Seq<(i32, i32)>, ed: Seq<(i32, i32, char, bool)>) -> bool {
    match state.editing_table {
        Some(e) => match index_of_id(state.canvas.spec_elements(), e.table_id) {
            Some(k) => match state.canvas.spec_elements()[k] {
                Element::Table(t) => {
                    let cx = edit_col_left(t, e.selected_col as int);
                    let cy = t.start.y + e.selected_row * 3;
                    let w = edit_col_width(t, e.selected_col as int);
                    &&& hl == highlight_cells(cx, cy, w)
                    &&& ed == (if e.editing_cell { edit_cells(cx, cy, w, e.edit_buffer@, e.cursor_pos as int) } else { Seq::empty() })
                },
                _ => hl.len() == 0 && ed.len() == 0,
            },
            None => hl.len() == 0 && ed.len() == 0,
        },
        None => hl.len() == 0 && ed.len() == 0,
    }
}

/// The overlays of table editing, when a table is being edited.
pub fn build_edit_table_overlays(state: &AppState) -> (r: (Vec<(i32, i32)>, Vec<(i32, i32, char, bool)>))
    requires
        state.editing_table matches Some(e) ==> edit_ready(e),
        state.editing_table matches Some(e) ==> forall|k: int| 0 <= k < state.canvas.spec_elements().len()
            && state.canvas.spec_elements()[k] is Table ==> overlay_fits(state.canvas.spec_elements()[k]->Table_0,
                e.selected_row, e.selected_col),
    ensures
        overlays_for(*state, r.0@, r.1@),
{
    match &state.editing_table {
        Some(e) => {
            proof { lemma_index_of_id(state.canvas.spec_elements(), e.table_id); }
            match state.canvas.get_element(e.table_id) {
                Some(Element::Table(t)) => edit_overlays(t, e),
                _ => (Vec::new(), Vec::new()),
            }
        },
        None => (Vec::new(), Vec::new()),
    }
}

/// Starting to edit a cell and pressing Esc right away writes back the text
/// the cell had, and editing stops.
pub proof fn lemma_edit_cancel_restores(e: EditView, dims: (usize, usize), text: Seq<char>, later: Seq<char>)
    requires
        !e.editing,
    ensures
        edit_step(e, KeyCode::Enter, Some(dims), text).0 matches Some(started)
            && edit_step(started, KeyCode::Esc, Some(dims), later).1 == Some(text)
            && (edit_step(started, KeyCode::Esc, Some(dims), later).0 matches Some(done) && !done.editing),
{
}

} // verus!
