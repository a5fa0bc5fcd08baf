use vstd::prelude::*;
use crate::components::canvas::{welcome_cells, minus, CanvasComponent, WelcomeTone};
use crate::components::table_editor::{build_edit_table_overlays, edit_ready, fits_overlay, is_edit_ready, overlay_fits, overlays_for};
use crate::elements::line::RenderPoint;
use crate::elements::Element;
use crate::state::canvas::{all_renderable, renderings_of};
use crate::state::selection::{any_hit, hits_any};
use crate::state::AppState;
use crate::styles::{fg_look, plain_look, Hue, Look};
use crate::tools::Tool;
use crate::types::{Panel, SelectionMode};

verus! {

/// What the canvas shows in one cell.
#[derive(Debug, Clone, Copy, PartialEq, Eq, Structural)]
pub struct CellLook {
    pub ch: char,
    pub look: Look,
}

/// Everything that may show in one cell, looked up layer by layer.
#[derive(Debug, Clone, Copy)]
pub struct CellLayers {
    /// The cursor block stands here.
    pub cursor: bool,
    /// `Some` while the welcome text is up: its character here, if any.
    pub welcome: Option<Option<(char, WelcomeTone)>>,
    /// The drag-select box's character here.
    pub selection_box: Option<char>,
    /// The drawing tool's preview character here.
    pub preview: Option<char>,
    /// The table edit buffer's character here.
    pub edit: Option<char>,
    /// The topmost element's character here, and whether that element is selected.
    pub element: Option<(char, bool)>,
    /// The cell lies in the highlighted table cell.
    pub highlighted: bool,
}

/// The colour of a welcome tone.
pub open spec fn tone_hue(t: WelcomeTone) -> Hue {
    match t {
        WelcomeTone::Title => Hue::Green,
        WelcomeTone::Body => Hue::White,
        WelcomeTone::Muted => Hue::DarkGray,
    }
}

/// The look of a cell from its layers. The cursor wins, then the welcome
/// text, the drag box, the preview, the edit buffer, the elements (yellow when
/// selected, white otherwise, grey when the canvas is not the active panel) and
/// last the empty highlighted cell; the highlight is blue while a cell is
/// edited, grey otherwise.
pub open spec fn cell_look(canvas_active: bool, editing_cell: bool, l: CellLayers) -> CellLook {
    let hl = if editing_cell { Hue::Blue } else { Hue::DarkGray };
    if l.cursor {
        CellLook { ch: '█', look: fg_look(Hue::Yellow) }
    } else if l.welcome is Some {
        match l.welcome->0 {
            Some((c, t)) => CellLook {
                ch: c,
                look: fg_look(if canvas_active { tone_hue(t) } else { Hue::DarkGray }),
            },
            None => CellLook { ch: ' ', look: plain_look() },
        }
    } else if l.selection_box is Some {
        CellLook { ch: l.selection_box->0, look: fg_look(Hue::DarkGray) }
    } else if l.preview is Some {
        CellLook { ch: l.preview->0, look: fg_look(Hue::DarkGray) }
    } else if l.edit is Some {
        CellLook { ch: l.edit->0, look: Look { fg: Some(Hue::White), bg: Some(Hue::Blue), bold: false } }
    } else if l.element is Some {
        let (c, selected) = l.element->0;
        let fg = if !canvas_active { Hue::DarkGray } else if selected { Hue::Yellow } else { Hue::White };
        CellLook {
            ch: c,
            look: Look { fg: Some(fg), bg: if l.highlighted { Some(hl) } else { None }, bold: false },
        }
    } else if l.highlighted {
        CellLook { ch: ' ', look: Look { fg: None, bg: Some(hl), bold: false } }
    } else {
        CellLook { ch: ' ', look: plain_look() }
    }
}

fn tone_color(t: WelcomeTone) -> (h: Hue)
    ensures
        h == tone_hue(t),
{
    match t {
        WelcomeTone::Title => Hue::Green,
        WelcomeTone::Body => Hue::White,
        WelcomeTone::Muted => Hue::DarkGray,
    }
}

/// Picks what a cell shows from its layers.
pub fn pick_look(canvas_active: bool, editing_cell: bool, l: &CellLayers) -> (r: CellLook)
    ensures
        r == cell_look(canvas_active, editing_cell, *l),
{
    let hl = if editing_cell { Hue::Blue } else { Hue::DarkGray };
    if l.cursor {
        CellLook { ch: '█', look: Look::fg(Hue::Yellow) }
    } else if let Some(w) = l.welcome {
        match w {
            Some((c, t)) => CellLook {
                ch: c,
                look: Look::fg(if canvas_active { tone_color(t) } else { Hue::DarkGray }),
            },
            None => CellLook { ch: ' ', look: Look::plain() },
        }
    } else if let Some(c) = l.selection_box {
        CellLook { ch: c, look: Look::fg(Hue::DarkGray) }
    } else if let Some(c) = l.preview {
        CellLook { ch: c, look: Look::fg(Hue::DarkGray) }
    } else if let Some(c) = l.edit {
        CellLook { ch: c, look: Look { fg: Some(Hue::White), bg: Some(Hue::Blue), bold: false } }
    } else if let Some((c, selected)) = l.element {
        let fg = if !canvas_active { Hue::DarkGray } else if selected { Hue::Yellow } else { Hue::White };
        CellLook {
            ch: c,
            look: Look { fg: Some(fg), bg: if l.highlighted { Some(hl) } else { None }, bold: false },
        }
    } else if l.highlighted {
        CellLook { ch: ' ', look: Look { fg: None, bg: Some(hl), bold: false } }
    } else {
        CellLook { ch: ' ', look: Look::plain() }
    }
}

/// The index of the last of the first `n` points that lands on `(x, y)` when
/// shifted by `(dx, dy)`.
pub open spec fn last_point_at(ps: Seq<RenderPoint>, dx: int, dy: int, x: int, y: int, n: nat) -> Option<int>
    decreases n,
{
    if n == 0 {
        None
    } else if ps[n - 1].0 + dx == x && ps[n - 1].1 + dy == y {
        Some(n - 1)
    } else {
        last_point_at(ps, dx, dy, x, y, (n - 1) as nat)
    }
}

/// How far an element is drawn from its place: by the move offset while the
/// selection it belongs to is being moved, not at all otherwise.
pub open spec fn shift_for(e: Element, selected: Seq<usize>, offset: Option<(i32, i32)>) -> (int, int) {
    match offset {
        Some(o) => if selected.contains(e.spec_id()) { (o.0 as int, o.1 as int) } else { (0, 0) },
        None => (0, 0),
    }
}

/// Among the first `n` elements, the topmost one drawn at `(x, y)` and the
/// index of its last point there.
pub open spec fn top_element_at(
    elems: Seq<Element>,
    rs: Seq<Seq<RenderPoint>>,
    selected: Seq<usize>,
    offset: Option<(i32, i32)>,
    x: int,
    y: int,
    n: nat,
) -> Option<(int, int)>
    decreases n,
{
    if n == 0 {
        None
    } else {
        let k = n - 1;
        let (dx, dy) = shift_for(elems[k], selected, offset);
        match last_point_at(rs[k], dx, dy, x, y, rs[k].len()) {
            Some(i) => Some((k, i)),
            None => top_element_at(elems, rs, selected, offset, x, y, (n - 1) as nat),
        }
    }
}

/// The element layer at `(x, y)`: the character of the topmost element drawn
/// there and whether that element is selected.
pub open spec fn element_layer(
    elems: Seq<Element>,
    rs: Seq<Seq<RenderPoint>>,
    selected: Seq<usize>,
    offset: Option<(i32, i32)>,
    x: int,
    y: int,
) -> Option<(char, bool)> {
    match top_element_at(elems, rs, selected, offset, x, y, elems.len()) {
        Some((k, i)) => Some((rs[k][i].2, selected.contains(elems[k].spec_id()))),
        None => None,
    }
}

/// The character of the last of `ps` at `(x, y)`.
pub open spec fn points_layer(ps: Seq<RenderPoint>, x: int, y: int) -> Option<char> {
    match last_point_at(ps, 0, 0, x, y, ps.len()) {
        Some(i) => Some(ps[i].2),
        None => None,
    }
}

/// The index of the last of the first `n` welcome cells at `(x, y)`.
pub open spec fn last_welcome_at(ws: Seq<(usize, usize, char, WelcomeTone)>, x: int, y: int, n: nat) -> Option<int>
    decreases n,
{
    if n == 0 {
        None
    } else if ws[n - 1].0 == x && ws[n - 1].1 == y {
        Some(n - 1)
    } else {
        last_welcome_at(ws, x, y, (n - 1) as nat)
    }
}

/// Whether one of the first `n` highlighted cells is `(x, y)`.
pub open spec fn highlight_at(hl: Seq<(i32, i32)>, x: int, y: int, n: nat) -> bool
    decreases n,
{
    if n == 0 {
        false
    } else {
        (hl[n - 1].0 == x && hl[n - 1].1 == y) || highlight_at(hl, x, y, (n - 1) as nat)
    }
}

/// The index of the last of the first `n` edit buffer cells at `(x, y)`.
pub open spec fn last_edit_at(ed: Seq<(i32, i32, char, bool)>, x: int, y: int, n: nat) -> Option<int>
    decreases n,
{
    if n == 0 {
        None
    } else if ed[n - 1].0 == x && ed[n - 1].1 == y {
        Some(n - 1)
    } else {
        last_edit_at(ed, x, y, (n - 1) as nat)
    }
}

/// The cursor block shows at `(x, y)`: it is the cursor's cell, the canvas is
/// active, nothing is being drawn, dragged or moved, and the select tool does
/// not hover over a selected element there.
pub open spec fn cursor_shown(s: AppState, x: int, y: int) -> bool {
    let ids = s.selection_state.selected_ids@;
    &&& x == s.cursor_x && y == s.cursor_y
    &&& s.active_panel == Panel::Canvas
    &&& !s.tool.spec_is_drawing()
    &&& s.selection_state.mode != SelectionMode::Selecting
    &&& s.selection_state.mode != SelectionMode::Moving
    &&& !(s.tool.selected_tool == Tool::Select && ids.len() > 0
        && hits_any(s.canvas.spec_elements(), ids, ids.len(), x, y))
}

/// The move offset while the selection is being moved.
pub open spec fn move_offset_of(s: AppState) -> Option<(i32, i32)> {
    if s.selection_state.mode == SelectionMode::Moving { Some(s.selection_state.move_offset) } else { None }
}

/// The layers at canvas cell `(x, y)`, given the elements' drawings `rs`, the
/// preview `pv`, the drag box `bx`, the welcome cells `ws` and the table
/// editing overlays `hl` and `ed`.
pub open spec fn layers_at(
    s: AppState,
    rs: Seq<Seq<RenderPoint>>,
    pv: Seq<RenderPoint>,
    bx: Seq<RenderPoint>,
    ws: Seq<(usize, usize, char, WelcomeTone)>,
    hl: Seq<(i32, i32)>,
    ed: Seq<(i32, i32, char, bool)>,
    x: int,
    y: int,
) -> CellLayers {
    CellLayers {
        cursor: cursor_shown(s, x, y),
        welcome: if !s.has_user_action && s.canvas.spec_elements().len() == 0 {
            Some(match last_welcome_at(ws, x, y, ws.len()) {
                Some(i) => Some((ws[i].2, ws[i].3)),
                None => None,
            })
        } else {
            None
        },
        selection_box: points_layer(bx, x, y),
        preview: points_layer(pv, x, y),
        edit: match last_edit_at(ed, x, y, ed.len()) {
            Some(i) => Some(ed[i].2),
            None => None,
        },
        element: element_layer(s.canvas.spec_elements(), rs, s.selection_state.selected_ids@, move_offset_of(s), x, y),
        highlighted: highlight_at(hl, x, y, hl.len()),
    }
}

/// The canvas panel's inner width and height.
pub open spec fn inner_size(s: AppState) -> (int, int) {
    (minus(s.layout.canvas.width as int, 2), minus(s.layout.canvas.height as int, 2))
}

/// `pv` is what the drawing tool previews in `s`.
pub open spec fn preview_of(s: AppState, pv: Seq<RenderPoint>) -> bool {
    match s.tool.active_tool {
        Some(a) => a.shows_preview(pv),
        None => pv.len() == 0,
    }
}

/// The drag box of `s`.
pub open spec fn box_of(s: AppState) -> Seq<RenderPoint> {
    let sel = s.selection_state;
    if sel.mode == SelectionMode::Selecting && sel.select_start is Some && sel.select_current is Some {
        crate::state::selection::drag_box(sel.select_start->0, sel.select_current->0)
    } else {
        Seq::empty()
    }
}

/// The cells `rows` are the canvas of `s` as drawn with the given layers.
pub open spec fn frame_with(
    s: AppState,
    rows: Seq<Seq<CellLook>>,
    rs: Seq<Seq<RenderPoint>>,
    pv: Seq<RenderPoint>,
    hl: Seq<(i32, i32)>,
    ed: Seq<(i32, i32, char, bool)>,
) -> bool {
    let (w, h) = inner_size(s);
    let ws = welcome_cells(w, h, 9);
    let editing = s.editing_table matches Some(e) && e.editing_cell;
    &&& rows.len() == h
    &&& forall|y: int| 0 <= y < h ==> (#[trigger] rows[y]).len() == w
    &&& forall|y: int, x: int| 0 <= y < h && 0 <= x < w ==> #[trigger] rows[y][x]
        == cell_look(s.active_panel == Panel::Canvas, editing, layers_at(s, rs, pv, box_of(s), ws, hl, ed, x, y))
}

/// `rows` is the canvas of `s`: for some drawing of each element and of the
/// preview, every cell shows what its layers give.
pub open spec fn is_canvas_frame(s: AppState, rows: Seq<Seq<CellLook>>) -> bool {
    exists|rs: Seq<Seq<RenderPoint>>, pv: Seq<RenderPoint>, hl: Seq<(i32, i32)>, ed: Seq<(i32, i32, char, bool)>|
        renderings_of(s.canvas.spec_elements(), rs) && preview_of(s, pv) && overlays_for(s, hl, ed)
            && #[trigger] frame_with(s, rows, rs, pv, hl, ed)
}

/// The rows as sequences.
pub open spec fn rows_view(rows: Seq<Vec<CellLook>>) -> Seq<Seq<CellLook>> {
    rows.map_values(|r: Vec<CellLook>| r@)
}

fn find_point(ps: &Vec<RenderPoint>, dx: i64, dy: i64, x: i64, y: i64) -> (r: Option<usize>)
    requires
        -0x1_0000_0000 <= dx <= 0x1_0000_0000,
        -0x1_0000_0000 <= dy <= 0x1_0000_0000,
    ensures
        match r {
            Some(i) => i < ps@.len() && last_point_at(ps@, dx as int, dy as int, x as int, y as int, ps@.len()) == Some(i as int),
            None => last_point_at(ps@, dx as int, dy as int, x as int, y as int, ps@.len()) is None,
        },
{
    let mut n: usize = ps.len();
    while n > 0
        invariant
            n <= ps@.len(),
            -0x1_0000_0000 <= dx <= 0x1_0000_0000,
            -0x1_0000_0000 <= dy <= 0x1_0000_0000,
            last_point_at(ps@, dx as int, dy as int, x as int, y as int, ps@.len())
                == last_point_at(ps@, dx as int, dy as int, x as int, y as int, n as nat),
        decreases n,
    {
        let p = ps[n - 1];
        if p.0 as i64 + dx == x && p.1 as i64 + dy == y {
            return Some(n - 1);
        }
        n = n - 1;
    }
    None
}

fn find_welcome(ws: &Vec<(usize, usize, char, WelcomeTone)>, x: usize, y: usize) -> (r: Option<(char, WelcomeTone)>)
    ensures
        r == (match last_welcome_at(ws@, x as int, y as int, ws@.len()) {
            Some(i) => Some((ws@[i].2, ws@[i].3)),
            None => None,
        }),
{
    let mut n: usize = ws.len();
    while n > 0
        invariant
            n <= ws@.len(),
            last_welcome_at(ws@, x as int, y as int, ws@.len()) == last_welcome_at(ws@, x as int, y as int, n as nat),
        decreases n,
    {
        let w = ws[n - 1];
        if w.0 == x && w.1 == y {
            return Some((w.2, w.3));
        }
        n = n - 1;
    }
    None
}

fn find_edit(ed: &Vec<(i32, i32, char, bool)>, x: i32, y: i32) -> (r: Option<char>)
    ensures
        r == (match last_edit_at(ed@, x as int, y as int, ed@.len()) {
            Some(i) => Some(ed@[i].2),
            None => None,
        }),
{
    let mut n: usize = ed.len();
    while n > 0
        invariant
            n <= ed@.len(),
            last_edit_at(ed@, x as int, y as int, ed@.len()) == last_edit_at(ed@, x as int, y as int, n as nat),
        decreases n,
    {
        let e = ed[n - 1];
        if e.0 == x && e.1 == y {
            return Some(e.2);
        }
        n = n - 1;
    }
    None
}

fn is_highlighted(hl: &Vec<(i32, i32)>, x: i32, y: i32) -> (r: bool)
    ensures
        r == highlight_at(hl@, x as int, y as int, hl@.len()),
{
    let mut n: usize = hl.len();
    while n > 0
        invariant
            n <= hl@.len(),
            highlight_at(hl@, x as int, y as int, hl@.len()) == highlight_at(hl@, x as int, y as int, n as nat),
        decreases n,
    {
        if hl[n - 1].0 == x && hl[n - 1].1 == y {
            return true;
        }
        n = n - 1;
    }
    false
}

fn points_at(ps: &Vec<RenderPoint>, x: i32, y: i32) -> (r: Option<char>)
    ensures
        r == points_layer(ps@, x as int, y as int),
{
    match find_point(ps, 0, 0, x as i64, y as i64) {
        Some(i) => Some(ps[i].2),
        None => None,
    }
}

fn contains_id(ids: &[usize], id: usize) -> (r: bool)
    ensures
        r == ids@.contains(id),
{
    let mut i: usize = 0;
    while i < ids.len()
        invariant
            i <= ids@.len(),
            forall|j: int| 0 <= j < i ==> ids@[j] != id,
        decreases ids.len() - i,
    {
        if ids[i] == id {
            return true;
        }
        i = i + 1;
    }
    false
}

fn element_at(
    elems: &[Element],
    rs: &Vec<Vec<RenderPoint>>,
    selected: &[usize],
    offset: Option<(i32, i32)>,
    x: i32,
    y: i32,
) -> (r: Option<(char, bool)>)
    requires
        rs@.len() == elems@.len(),
    ensures
        r == element_layer(elems@, rs@.map_values(|v: Vec<RenderPoint>| v@), selected@, offset, x as int, y as int),
{
    let ghost rv = rs@.map_values(|v: Vec<RenderPoint>| v@);
    let mut n: usize = elems.len();
    while n > 0
        invariant
            n <= elems@.len(),
            rs@.len() == elems@.len(),
            rv == rs@.map_values(|v: Vec<RenderPoint>| v@),
            top_element_at(elems@, rv, selected@, offset, x as int, y as int, elems@.len())
                == top_element_at(elems@, rv, selected@, offset, x as int, y as int, n as nat),
        decreases n,
    {
        let k = n - 1;
        let id = elems[k].id();
        let sel = contains_id(selected, id);
        let (dx, dy): (i64, i64) = match offset {
            Some((ox, oy)) => if sel { (ox as i64, oy as i64) } else { (0, 0) },
            None => (0, 0),
        };
        assert(rv[k as int] == rs@[k as int]@);
        match find_point(&rs[k], dx, dy, x as i64, y as i64) {
            Some(i) => {
                return Some((rs[k][i].2, sel));
            },
            None => {},
        }
        n = n - 1;
    }
    None
}

impl CanvasComponent {
    /// The overlays of table editing: the highlighted cell and the edit buffer.
    pub fn build_edit_table_overlays(&self, state: &AppState) -> (r: (Vec<(i32, i32)>, Vec<(i32, i32, char, bool)>))
        requires
            state.editing_table matches Some(e) ==> edit_ready(e),
            state.editing_table matches Some(e) ==> forall|k: int| 0 <= k < state.canvas.spec_elements().len()
                && state.canvas.spec_elements()[k] is Table ==> overlay_fits(state.canvas.spec_elements()[k]->Table_0,
                    e.selected_row, e.selected_col),
        ensures
            overlays_for(*state, r.0@, r.1@),
    {
        build_edit_table_overlays(state)
    }

    /// The canvas panel's cells, row by row, inside its border: elements (moved
    /// ones at their offset), previews, the drag box, table editing overlays, the
    /// welcome text and the cursor, each cell as its layers give it.
    pub fn draw(&self, state: &AppState) -> (rows: Vec<Vec<CellLook>>)
        requires
            all_renderable(state.canvas.spec_elements()),
            state.tool.active_tool matches Some(a) ==> a.preview_fits(),
            state.editing_table matches Some(e) ==> edit_ready(e),
            state.editing_table matches Some(e) ==> forall|k: int| 0 <= k < state.canvas.spec_elements().len()
                && state.canvas.spec_elements()[k] is Table ==> overlay_fits(state.canvas.spec_elements()[k]->Table_0,
                    e.selected_row, e.selected_col),
        ensures
            is_canvas_frame(*state, rows_view(rows@)),
    {
        let area = state.layout.canvas;
        let preview = state.get_preview_points();
        let bx = state.get_selection_box_points();
        let selected = state.get_selected_element_ids();
        let offset = state.get_move_offset();
        let elems = state.canvas.elements();
        let mut rs: Vec<Vec<RenderPoint>> = Vec::new();
        let mut i: usize = 0;
        while i < elems.len()
            invariant
                i <= elems@.len(),
                elems@ == state.canvas.spec_elements(),
                all_renderable(elems@),
                rs@.len() == i,
                forall|k: int| 0 <= k < i ==> #[trigger] elems@[k].is_rendering(rs@[k]@),
            decreases elems.len() - i,
        {
            let pts = elems[i].render_points();
            rs.push(pts);
            i = i + 1;
        }
        let ghost rv = rs@.map_values(|v: Vec<RenderPoint>| v@);
        assert(renderings_of(state.canvas.spec_elements(), rv)) by {
            assert forall|k: int| 0 <= k < elems@.len() implies #[trigger] elems@[k].is_rendering(rv[k]) by {
                assert(rv[k] == rs@[k]@);
            }
        }
        let (hl, ed) = self.build_edit_table_overlays(state);
        let editing = match &state.editing_table {
            Some(e) => e.editing_cell,
            None => false,
        };
        let active = state.active_panel == Panel::Canvas;
        let welcome_on = state.should_show_welcome();
        let ws = self.get_welcome_text_map(&area);
        let w = area.width.saturating_sub(2);
        let h = area.height.saturating_sub(2);
        let drawing = state.is_drawing();
        let busy = state.selection_state.mode == SelectionMode::Selecting
            || state.selection_state.mode == SelectionMode::Moving;
        let select_tool = state.is_select_tool();
        let ghost s = *state;
        let ghost wsv = welcome_cells(minus(area.width as int, 2), minus(area.height as int, 2), 9);
        let mut rows: Vec<Vec<CellLook>> = Vec::new();
        let mut y: u16 = 0;
        while y < h
            invariant
                s == *state,
                w as int == inner_size(s).0,
                h as int == inner_size(s).1,
                ws@ == wsv,
                wsv == welcome_cells(inner_size(s).0, inner_size(s).1, 9),
                rv == rs@.map_values(|v: Vec<RenderPoint>| v@),
                rs@.len() == elems@.len(),
                elems@ == s.canvas.spec_elements(),
                selected@ == s.selection_state.selected_ids@,
                offset == move_offset_of(s),
                preview_of(s, preview@),
                bx@ == box_of(s),
                editing == (s.editing_table matches Some(e) && e.editing_cell),
                active == (s.active_panel == Panel::Canvas),
                welcome_on == (!s.has_user_action && s.canvas.spec_elements().len() == 0),
                drawing == s.tool.spec_is_drawing(),
                busy == (s.selection_state.mode == SelectionMode::Selecting
                    || s.selection_state.mode == SelectionMode::Moving),
                select_tool == (s.tool.selected_tool == Tool::Select),
                y <= h,
                rows@.len() == y,
                forall|j: int| 0 <= j < y ==> (#[trigger] rows@[j])@.len() == w,
                forall|j: int, x: int| 0 <= j < y && 0 <= x < w ==> #[trigger] rows@[j]@[x]
                    == cell_look(active, editing, layers_at(s, rv, preview@, bx@, wsv, hl@, ed@, x, j)),
            decreases h - y,
        {
            let mut row: Vec<CellLook> = Vec::new();
            let mut x: u16 = 0;
            while x < w
                invariant
                    s == *state,
                    w as int == inner_size(s).0,
                    ws@ == wsv,
                    rv == rs@.map_values(|v: Vec<RenderPoint>| v@),
                    rs@.len() == elems@.len(),
                    elems@ == s.canvas.spec_elements(),
                    selected@ == s.selection_state.selected_ids@,
                    offset == move_offset_of(s),
                    bx@ == box_of(s),
                    active == (s.active_panel == Panel::Canvas),
                    welcome_on == (!s.has_user_action && s.canvas.spec_elements().len() == 0),
                    drawing == s.tool.spec_is_drawing(),
                    busy == (s.selection_state.mode == SelectionMode::Selecting
                        || s.selection_state.mode == SelectionMode::Moving),
                    select_tool == (s.tool.selected_tool == Tool::Select),
                    x <= w,
                    row@.len() == x,
                    forall|i: int| 0 <= i < x ==> #[trigger] row@[i]
                        == cell_look(active, editing, layers_at(s, rv, preview@, bx@, wsv, hl@, ed@, i, y as int)),
                decreases w - x,
            {
                let cursor = x == state.cursor_x && y == state.cursor_y && active && !drawing && !busy
                    && !(select_tool && selected.len() > 0 && any_hit(selected, &state.canvas, x, y));
                let welcome = if welcome_on { Some(find_welcome(&ws, x as usize, y as usize)) } else { None };
                let layers = CellLayers {
                    cursor,
                    welcome,
                    selection_box: points_at(&bx, x as i32, y as i32),
                    preview: points_at(&preview, x as i32, y as i32),
                    edit: find_edit(&ed, x as i32, y as i32),
                    element: element_at(elems, &rs, selected, offset, x as i32, y as i32),
                    highlighted: is_highlighted(&hl, x as i32, y as i32),
                };
                assert(layers == layers_at(s, rv, preview@, bx@, wsv, hl@, ed@, x as int, y as int));
                row.push(pick_look(active, editing, &layers));
                x = x + 1;
            }
            rows.push(row);
            y = y + 1;
        }
        proof {
            let rws = rows_view(rows@);
            assert(frame_with(s, rws, rv, preview@, hl@, ed@)) by {
                assert forall|j: int| 0 <= j < h implies (#[trigger] rws[j]).len() == w by {
                    assert(rws[j] == rows@[j]@);
                }
                assert forall|j: int, x: int| 0 <= j < h && 0 <= x < w implies #[trigger] rws[j][x]
                    == cell_look(active, editing, layers_at(s, rv, preview@, box_of(s), wsv, hl@, ed@, x, j)) by {
                    assert(rws[j] == rows@[j]@);
                    assert(rows@[j]@[x] == cell_look(active, editing, layers_at(s, rv, preview@, bx@, wsv, hl@, ed@, x, j)));
                }
            }
        }
        rows
    }
}

/// What drawing the canvas needs of the state: every element and the
/// preview stay inside the `i32` range, and while a table is edited its
/// cursor is inside the text and its overlay fits on every table.
pub open spec fn drawable(state: AppState) -> bool {
    &&& all_renderable(state.canvas.spec_elements())
    &&& state.tool.active_tool matches Some(a) ==> a.preview_fits()
    &&& state.editing_table matches Some(e) ==> edit_ready(e)
    &&& state.editing_table matches Some(e) ==> forall|k: int| 0 <= k < state.canvas.spec_elements().len()
        && state.canvas.spec_elements()[k] is Table ==> overlay_fits(state.canvas.spec_elements()[k]->Table_0,
            e.selected_row, e.selected_col)
}

/// Whether the canvas can be drawn for `state` (see `drawable`).
pub fn can_draw(state: &AppState) -> (b: bool)
    ensures
        b == drawable(*state),
{
    if !state.canvas.is_renderable() {
        return false;
    }
    if let Some(a) = &state.tool.active_tool {
        if !a.fits_preview() {
            return false;
        }
    }
    match &state.editing_table {
        None => true,
        Some(e) => {
            if !is_edit_ready(e) {
                return false;
            }
            let elems = state.canvas.elements();
            let mut i: usize = 0;
            while i < elems.len()
                invariant
                    elems@ == state.canvas.spec_elements(),
                    state.editing_table == Some(*e),
                    i <= elems@.len(),
                    forall|k: int| 0 <= k < i && elems@[k] is Table ==> overlay_fits(elems@[k]->Table_0,
                        e.selected_row, e.selected_col),
                decreases elems.len() - i,
            {
                if let Element::Table(t) = &elems[i] {
                    if !fits_overlay(t, e.selected_row, e.selected_col) {
                        assert(elems@[i as int] is Table && elems@[i as int]->Table_0 == *t);
                        return false;
                    }
                }
                i = i + 1;
            }
            true
        },
    }
}

/// Whether `n` can be what `Path::file_name` finds in `path`: a non-empty
/// piece of the path holding no `/`.
pub open spec fn file_name_ok(n: Seq<char>, path: Seq<char>) -> bool {
    &&& n.len() > 0
    &&& !n.contains('/')
    &&& exists|i: int| 0 <= i && i + n.len() <= path.len() && #[trigger] path.subrange(i, i + n.len()) == n
}

/// The text after the last `/` of `path` (all of it when it has no `/`).
pub open spec fn last_piece(path: Seq<char>) -> Seq<char>
    decreases path.len(),
{
    if path.len() == 0 {
        path
    } else if path.last() == '/' {
        Seq::empty()
    } else {
        last_piece(path.drop_last()).push(path.last())
    }
}

/// A path whose file name is its last `/`-separated piece on every
/// platform: it holds no `\` and no drive colon, does not start with `//`,
/// does not end in `/`, and its last piece is neither `.` nor `..`.
pub open spec fn named_by_last_piece(path: Seq<char>) -> bool {
    &&& !path.contains('\\')
    &&& !path.contains(':')
    &&& !(path.len() >= 2 && path[0] == '/' && path[1] == '/')
    &&& path.len() > 0
    &&& path.last() != '/'
    &&& last_piece(path) != "."@
    &&& last_piece(path) != ".."@
}

/// The last component of `path` (`Path::file_name`), as text.
///
/// Claimed: a name it finds is a non-empty piece of the path holding no `/`;
/// on a path named by its last piece (see `named_by_last_piece`) the name is
/// that piece, the final component. On other paths which component is found
/// depends on the platform's path rules (Windows also splits on `\\`, after a
/// drive prefix and on `//server` roots), so that is left unsaid.
#[verifier::external_body]
fn file_name_of(path: &str) -> (r: Option<String>)
    ensures
        r matches Some(n) ==> file_name_ok(n@, path@),
        r is None ==> !named_by_last_piece(path@),
        r matches Some(n) ==> (named_by_last_piece(path@) ==> n@ == last_piece(path@)),
{
    std::path::Path::new(path).file_name().and_then(|n| n.to_str()).map(|n| n.to_string())
}

/// The canvas panel's title for a file named `name`.
pub open spec fn titled(name: Seq<char>) -> Seq<char> {
    "Canvas ─── "@ + name + " ───"@
}

/// The title shows `r` for the file `path`: its file name, which is the
/// last piece of a path named by its last piece; on other paths a file name
/// found in it, or the whole path when it has none.
pub open spec fn title_of_file(r: Seq<char>, path: Seq<char>) -> bool {
    if named_by_last_piece(path) {
        r == titled(last_piece(path))
    } else {
        (exists|n: Seq<char>| file_name_ok(n, path) && r == #[trigger] titled(n)) || r == titled(path)
    }
}

/// The canvas panel's title for the file name `name`.
pub fn title_for(name: &str) -> (r: String)
    ensures
        r@ == titled(name@),
{
    let mut r = String::from_str("Canvas ─── ");
    crate::text::push_str(&mut r, name);
    crate::text::push_str(&mut r, " ───");
    proof {
        reveal_strlit("Canvas ─── ");
        reveal_strlit(" ───");
    }
    r
}

impl CanvasComponent {
    /// The panel's title: "Canvas", followed by the open file's name when there is one.
    pub fn title(&self, state: &AppState) -> (r: String)
        ensures
            match state.file.current_file {
                None => r@ == "Canvas"@,
                Some(p) => title_of_file(r@, p@),
            },
    {
        match &state.file.current_file {
            None => String::from_str("Canvas"),
            Some(p) => match file_name_of(p.as_str()) {
                Some(n) => {
                    let r = title_for(n.as_str());
                    assert(titled(n@) == r@);
                    r
                },
                None => {
                    let r = title_for(p.as_str());
                    assert(titled(p@) == r@);
                    r
                },
            },
        }
    }

    /// The panel border's look: green while the canvas is active without the
    /// help over it, grey while another panel is active, plain otherwise.
    pub fn border_look(&self, state: &AppState) -> (l: Look)
        ensures
            l == (if !state.show_help && state.active_panel == Panel::Canvas {
                fg_look(Hue::Green)
            } else if state.active_panel != Panel::Canvas {
                fg_look(Hue::DarkGray)
            } else {
                plain_look()
            }),
    {
        if !state.show_help && state.active_panel == Panel::Canvas {
            Look::fg(Hue::Green)
        } else if state.active_panel != Panel::Canvas {
            Look::fg(Hue::DarkGray)
        } else {
            Look::plain()
        }
    }
}

} // verus!
