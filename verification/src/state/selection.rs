use vstd::prelude::*;
use crate::elements::borders::{border_chars, BorderChars, BorderStyle};
use crate::elements::line::RenderPoint;
use crate::elements::Element;
use crate::geometry::{box_cells, push_box};
use crate::state::canvas::{
    index_of_id, lemma_index_of_id, move_all, remove_all, topmost_at, ids_inside, views, CanvasState,
};
use crate::types::SelectionMode;

verus! {

/// Whether the element with id `id` (its first one) has `(x, y)` in its box.
pub open spec fn hits(elems: Seq<Element>, id: usize, x: int, y: int) -> bool {
    index_of_id(elems, id) matches Some(k) && elems[k].spec_point_in_bounds(x, y)
}

/// Whether one of the first `n` ids names an element whose box holds `(x, y)`.
pub open spec fn hits_any(elems: Seq<Element>, ids: Seq<usize>, n: nat, x: int, y: int) -> bool
    decreases n,
{
    if n == 0 {
        false
    } else {
        hits_any(elems, ids, (n - 1) as nat, x, y) || hits(elems, ids[n - 1], x, y)
    }
}

/// The ids after toggling `id`: its first occurrence leaves, or it joins at the end.
pub open spec fn toggled(ids: Seq<usize>, id: usize) -> Seq<usize> {
    if exists|k: int| 0 <= k < ids.len() && ids[k] == id {
        ids.remove(choose|k: int| 0 <= k < ids.len() && ids[k] == id && forall|j: int| 0 <= j < k ==> ids[j] != id)
    } else {
        ids.push(id)
    }
}

/// The smaller and the larger of two values.
pub open spec fn ordered(a: u16, b: u16) -> (u16, u16) {
    if a <= b { (a, b) } else { (b, a) }
}

/// The rounded box between the drag start and the pointer.
pub open spec fn drag_box(start: (u16, u16), current: (u16, u16)) -> Seq<RenderPoint> {
    let (left, right) = ordered(start.0, current.0);
    let (top, bottom) = ordered(start.1, current.1);
    box_cells(left as int, top as int, right as int, bottom as int, border_chars(BorderStyle::Rounded))
}

/// `after` is `before` once a drag-select ends at `(x, y)` over `elems`: a
/// click (no drag, or back at the start) selects the topmost element there, a
/// drag selects every element whose box lies in the dragged rectangle;
/// finding nothing leaves the mode idle and the ids as they were.
pub open spec fn selection_finished(before: SelectionState, after: SelectionState, elems: Seq<Element>, x: u16, y: u16) -> bool {
    &&& after.select_start is None
    &&& after.select_current is None
    &&& !after.has_dragged
    &&& after.move_start == before.move_start
    &&& after.move_offset == before.move_offset
    &&& match before.select_start {
        None => after.mode == before.mode && after.selected_ids@ == before.selected_ids@,
        Some((sx, sy)) => if !before.has_dragged || (sx == x && sy == y) {
            match topmost_at(elems, elems.len(), x as int, y as int) {
                Some(id) => after.mode == SelectionMode::Selected && after.selected_ids@ == seq![id],
                None => after.mode == SelectionMode::Idle && after.selected_ids@ == before.selected_ids@,
            }
        } else {
            let (left, right) = ordered(sx, x);
            let (top, bottom) = ordered(sy, y);
            let found = ids_inside(elems, elems.len(), left as int, top as int, right as int, bottom as int);
            if found.len() > 0 {
                after.mode == SelectionMode::Selected && after.selected_ids@ == found
            } else {
                after.mode == SelectionMode::Idle && after.selected_ids@ == before.selected_ids@
            }
        },
    }
}

/// The select tool's state: what is selected, the drag-select box and a move
/// in progress.
pub struct SelectionState {
    pub mode: SelectionMode,
    pub selected_ids: Vec<usize>,
    pub select_start: Option<(u16, u16)>,
    pub select_current: Option<(u16, u16)>,
    pub has_dragged: bool,
    pub move_start: Option<(u16, u16)>,
    pub move_offset: (i32, i32),
}

impl SelectionState {
    /// Nothing selected, nothing in progress.
    pub open spec fn is_cleared(&self) -> bool {
        &&& self.mode == SelectionMode::Idle
        &&& self.selected_ids@.len() == 0
        &&& self.select_start is None
        &&& self.select_current is None
        &&& !self.has_dragged
        &&& self.move_start is None
        &&& self.move_offset == (0i32, 0i32)
    }

    /// Nothing selected.
    pub fn new() -> (s: Self)
        ensures
            s.is_cleared(),
    {
        SelectionState {
            mode: SelectionMode::Idle,
            selected_ids: Vec::new(),
            select_start: None,
            select_current: None,
            has_dragged: false,
            move_start: None,
            move_offset: (0, 0),
        }
    }

    /// Drops the selection and anything in progress.
    pub fn reset(&mut self)
        ensures
            final(self).is_cleared(),
    {
        self.mode = SelectionMode::Idle;
        self.selected_ids.clear();
        self.select_start = None;
        self.select_current = None;
        self.has_dragged = false;
        self.move_start = None;
        self.move_offset = (0, 0);
    }

    /// The rounded drag-select box while selecting; nothing otherwise.
    pub fn get_selection_box_points(&self) -> (r: Vec<RenderPoint>)
        ensures
            r@ == (if self.mode == SelectionMode::Selecting && self.select_start is Some && self.select_current is Some {
                drag_box(self.select_start->0, self.select_current->0)
            } else {
                Seq::empty()
            }),
    {
        let mut points: Vec<RenderPoint> = Vec::new();
        if self.mode == SelectionMode::Selecting {
            if let (Some((sx, sy)), Some((cx, cy))) = (self.select_start, self.select_current) {
                let (left, right) = if sx <= cx { (sx, cx) } else { (cx, sx) };
                let (top, bottom) = if sy <= cy { (sy, cy) } else { (cy, sy) };
                let rounded = BorderStyle::Rounded.chars();
                push_box(&mut points, left as i32, top as i32, right as i32, bottom as i32, rounded);
                assert(points@ =~= drag_box((sx, sy), (cx, cy)));
            }
        }
        points
    }

    /// The selected ids, in selection order.
    pub fn get_selected_element_ids(&self) -> (r: &[usize])
        ensures
            r@ == self.selected_ids@,
    {
        self.selected_ids.as_slice()
    }

    /// The offset of a move in progress.
    pub fn get_move_offset(&self) -> (r: Option<(i32, i32)>)
        ensures
            r == (if self.mode == SelectionMode::Moving { Some(self.move_offset) } else { None }),
    {
        if self.mode == SelectionMode::Moving { Some(self.move_offset) } else { None }
    }

    /// Whether anything is selected or in progress.
    pub fn is_in_selection_mode(&self) -> (r: bool)
        ensures
            r == (self.mode != SelectionMode::Idle),
    {
        self.mode != SelectionMode::Idle
    }

    /// Starts a drag-select at `(x, y)`.
    pub fn start_selection(&mut self, x: u16, y: u16)
        ensures
            final(self).mode == SelectionMode::Selecting,
            final(self).select_start == Some((x, y)),
            final(self).select_current == Some((x, y)),
            !final(self).has_dragged,
            final(self).selected_ids@ == old(self).selected_ids@,
            final(self).move_start == old(self).move_start,
            final(self).move_offset == old(self).move_offset,
    {
        self.mode = SelectionMode::Selecting;
        self.select_start = Some((x, y));
        self.select_current = Some((x, y));
        self.has_dragged = false;
    }

    /// Moves the drag-select corner to `(x, y)`.
    pub fn update_selection(&mut self, x: u16, y: u16)
        ensures
            final(self).select_current == Some((x, y)),
            final(self).has_dragged,
            final(self).mode == old(self).mode,
            final(self).select_start == old(self).select_start,
            final(self).selected_ids@ == old(self).selected_ids@,
            final(self).move_start == old(self).move_start,
            final(self).move_offset == old(self).move_offset,
    {
        self.select_current = Some((x, y));
        self.has_dragged = true;
    }

    /// Sets the move offset to the distance from where the move started.
    pub fn update_move_selection(&mut self, x: u16, y: u16)
        ensures
            final(self).move_offset == (match old(self).move_start {
                Some((sx, sy)) => ((x - sx) as i32, (y - sy) as i32),
                None => old(self).move_offset,
            }),
            final(self).mode == old(self).mode,
            final(self).selected_ids@ == old(self).selected_ids@,
            final(self).select_start == old(self).select_start,
            final(self).select_current == old(self).select_current,
            final(self).has_dragged == old(self).has_dragged,
            final(self).move_start == old(self).move_start,
    {
        if let Some((sx, sy)) = self.move_start {
            self.move_offset = (x as i32 - sx as i32, y as i32 - sy as i32);
        }
    }

    /// Drops the selection.
    pub fn deselect(&mut self)
        ensures
            final(self).is_cleared(),
    {
        self.reset();
    }

    /// Ends a drag-select at `(x, y)`: a click (no drag, or back at the start)
    /// selects the topmost element there, a drag selects every element whose
    /// box lies in the dragged rectangle; finding nothing leaves the mode idle.
    pub fn finish_selection(&mut self, x: u16, y: u16, canvas: &CanvasState)
        ensures
            selection_finished(*old(self), *final(self), canvas.spec_elements(), x, y),
    {
        if let Some((sx, sy)) = self.select_start {
            if !self.has_dragged || (sx == x && sy == y) {
                self.select_element_at(x as i32, y as i32, canvas);
            } else {
                self.select_rectangle(sx, sy, x, y, canvas);
            }
        }
        self.select_start = None;
        self.select_current = None;
        self.has_dragged = false;
    }

    fn select_element_at(&mut self, x: i32, y: i32, canvas: &CanvasState)
        ensures
            match topmost_at(canvas.spec_elements(), canvas.spec_elements().len(), x as int, y as int) {
                Some(id) => final(self).mode == SelectionMode::Selected && final(self).selected_ids@ == seq![id],
                None => final(self).mode == SelectionMode::Idle && final(self).selected_ids@ == old(self).selected_ids@,
            },
            final(self).select_start == old(self).select_start,
            final(self).select_current == old(self).select_current,
            final(self).has_dragged == old(self).has_dragged,
            final(self).move_start == old(self).move_start,
            final(self).move_offset == old(self).move_offset,
    {
        match canvas.find_element_at(x, y) {
            Some(id) => {
                self.selected_ids.clear();
                self.selected_ids.push(id);
                assert(self.selected_ids@ =~= seq![id]);
                self.mode = SelectionMode::Selected;
            },
            None => {
                self.mode = SelectionMode::Idle;
            },
        }
    }

    fn select_rectangle(&mut self, x1: u16, y1: u16, x2: u16, y2: u16, canvas: &CanvasState)
        ensures
            ({
                let (left, right) = ordered(x1, x2);
                let (top, bottom) = ordered(y1, y2);
                let found = ids_inside(canvas.spec_elements(), canvas.spec_elements().len(),
                    left as int, top as int, right as int, bottom as int);
                if found.len() > 0 {
                    final(self).mode == SelectionMode::Selected && final(self).selected_ids@ == found
                } else {
                    final(self).mode == SelectionMode::Idle && final(self).selected_ids@ == old(self).selected_ids@
                }
            }),
            final(self).select_start == old(self).select_start,
            final(self).select_current == old(self).select_current,
            final(self).has_dragged == old(self).has_dragged,
            final(self).move_start == old(self).move_start,
            final(self).move_offset == old(self).move_offset,
    {
        let (left, right) = if x1 <= x2 { (x1, x2) } else { (x2, x1) };
        let (top, bottom) = if y1 <= y2 { (y1, y2) } else { (y2, y1) };
        let element_ids = canvas.find_elements_fully_inside_rect(left as i32, top as i32, right as i32, bottom as i32);
        if element_ids.len() > 0 {
            self.selected_ids = element_ids;
            self.mode = SelectionMode::Selected;
        } else {
            self.mode = SelectionMode::Idle;
        }
    }

    /// Shift+click: the topmost element at `(x, y)` leaves the selection if
    /// selected and joins it otherwise; an empty selection leaves the mode idle.
    pub fn toggle_selection_at(&mut self, x: i32, y: i32, canvas: &CanvasState)
        ensures
            match topmost_at(canvas.spec_elements(), canvas.spec_elements().len(), x as int, y as int) {
                Some(id) => {
                    &&& final(self).selected_ids@ == toggled(old(self).selected_ids@, id)
                    &&& final(self).mode == (if final(self).selected_ids@.len() == 0 {
                        SelectionMode::Idle
                    } else {
                        SelectionMode::Selected
                    })
                },
                None => final(self).selected_ids@ == old(self).selected_ids@ && final(self).mode == old(self).mode,
            },
            final(self).select_start == old(self).select_start,
            final(self).select_current == old(self).select_current,
            final(self).has_dragged == old(self).has_dragged,
            final(self).move_start == old(self).move_start,
            final(self).move_offset == old(self).move_offset,
    {
        if let Some(element_id) = canvas.find_element_at(x, y) {
            let mut pos: usize = 0;
            let mut found = false;
            while pos < self.selected_ids.len()
                invariant_except_break
                    !found,
                invariant
                    self.selected_ids@ == old(self).selected_ids@,
                    pos <= self.selected_ids@.len(),
                    forall|j: int| 0 <= j < pos ==> self.selected_ids@[j] != element_id,
                ensures
                    found ==> pos < self.selected_ids@.len() && self.selected_ids@[pos as int] == element_id
                        && forall|j: int| 0 <= j < pos ==> self.selected_ids@[j] != element_id,
                    !found ==> forall|j: int| 0 <= j < self.selected_ids@.len() ==> self.selected_ids@[j] != element_id,
                decreases self.selected_ids.len() - pos,
            {
                if self.selected_ids[pos] == element_id {
                    found = true;
                    break;
                }
                pos = pos + 1;
            }
            let ghost before = self.selected_ids@;
            if found {
                proof {
                    let k = choose|k: int| 0 <= k < before.len() && before[k] == element_id
                        && forall|j: int| 0 <= j < k ==> before[j] != element_id;
                    assert(0 <= pos < before.len() && before[pos as int] == element_id);
                    assert(k == pos as int) by {
                        if k < pos { assert(before[k] != element_id); }
                        if k > pos { assert(before[pos as int] != element_id); }
                    }
                }
                self.selected_ids.remove(pos);
            } else {
                self.selected_ids.push(element_id);
            }
            if self.selected_ids.len() == 0 {
                self.mode = SelectionMode::Idle;
            } else {
                self.mode = SelectionMode::Selected;
            }
        }
    }

    /// Starts moving when `(x, y)` lies in the box of a selected element.
    pub fn start_move_selection(&mut self, x: u16, y: u16, canvas: &CanvasState)
        ensures
            if hits_any(canvas.spec_elements(), old(self).selected_ids@, old(self).selected_ids@.len(), x as int, y as int) {
                &&& final(self).mode == SelectionMode::Moving
                &&& final(self).move_start == Some((x, y))
                &&& final(self).move_offset == (0i32, 0i32)
                &&& final(self).selected_ids@ == old(self).selected_ids@
                &&& final(self).select_start == old(self).select_start
                &&& final(self).select_current == old(self).select_current
                &&& final(self).has_dragged == old(self).has_dragged
            } else {
                *final(self) == *old(self)
            },
    {
        if any_hit(self.selected_ids.as_slice(), canvas, x, y) {
            self.mode = SelectionMode::Moving;
            self.move_start = Some((x, y));
            self.move_offset = (0, 0);
        }
    }

    /// Ends a move: every selected element moves by the offset, the selection stays.
    pub fn finish_move_selection(&mut self, canvas: &mut CanvasState)
        ensures
            views(final(canvas).spec_elements()) == move_all(views(old(canvas).spec_elements()),
                old(self).selected_ids@, old(self).move_offset.0, old(self).move_offset.1),
            final(canvas).spec_next_id() == old(canvas).spec_next_id(),
            final(self).mode == SelectionMode::Selected,
            final(self).move_start is None,
            final(self).move_offset == (0i32, 0i32),
            final(self).selected_ids@ == old(self).selected_ids@,
            final(self).select_start == old(self).select_start,
            final(self).select_current == old(self).select_current,
            final(self).has_dragged == old(self).has_dragged,
    {
        let dx = self.move_offset.0;
        let dy = self.move_offset.1;
        move_elements(&self.selected_ids, dx, dy, canvas);
        self.mode = SelectionMode::Selected;
        self.move_start = None;
        self.move_offset = (0, 0);
    }

    /// Moves every selected element by `(dx, dy)` (arrow keys).
    pub fn move_selected_elements(&mut self, dx: i32, dy: i32, canvas: &mut CanvasState)
        ensures
            views(final(canvas).spec_elements()) == move_all(views(old(canvas).spec_elements()), old(self).selected_ids@, dx, dy),
            final(canvas).spec_next_id() == old(canvas).spec_next_id(),
            *final(self) == *old(self),
    {
        if self.selected_ids.len() == 0 {
            assert(old(self).selected_ids@ =~= Seq::<usize>::empty());
            return;
        }
        move_elements(&self.selected_ids, dx, dy, canvas);
    }

    /// Removes every selected element from the canvas and drops the selection.
    pub fn delete_selected_elements(&mut self, canvas: &mut CanvasState)
        ensures
            views(final(canvas).spec_elements()) == remove_all(views(old(canvas).spec_elements()), old(self).selected_ids@),
            final(canvas).spec_next_id() == old(canvas).spec_next_id(),
            old(self).selected_ids@.len() == 0 ==> *final(self) == *old(self),
            old(self).selected_ids@.len() > 0 ==> final(self).is_cleared(),
    {
        if self.selected_ids.len() == 0 {
            assert(old(self).selected_ids@ =~= Seq::<usize>::empty());
            return;
        }
        let mut i: usize = 0;
        while i < self.selected_ids.len()
            invariant
                i <= self.selected_ids@.len(),
                self.selected_ids@ == old(self).selected_ids@,
                canvas.spec_next_id() == old(canvas).spec_next_id(),
                views(canvas.spec_elements()) == remove_all(views(old(canvas).spec_elements()), self.selected_ids@.take(i as int)),
            decreases self.selected_ids.len() - i,
        {
            let id = self.selected_ids[i];
            let ghost before = canvas.spec_elements();
            let _ = canvas.remove_element(id);
            proof {
                CanvasState::lemma_remove_views(before, canvas.spec_elements(), id);
                assert(self.selected_ids@.take(i + 1).drop_last() =~= self.selected_ids@.take(i as int));
            }
            i = i + 1;
        }
        assert(self.selected_ids@.take(i as int) =~= self.selected_ids@);
        self.reset();
    }
}

/// Moves, for each id in turn, its first element by `(dx, dy)`.
fn move_elements(ids: &Vec<usize>, dx: i32, dy: i32, canvas: &mut CanvasState)
    ensures
        views(final(canvas).spec_elements()) == move_all(views(old(canvas).spec_elements()), ids@, dx, dy),
        final(canvas).spec_next_id() == old(canvas).spec_next_id(),
{
    let mut i: usize = 0;
    while i < ids.len()
        invariant
            i <= ids@.len(),
            canvas.spec_next_id() == old(canvas).spec_next_id(),
            views(canvas.spec_elements()) == move_all(views(old(canvas).spec_elements()), ids@.take(i as int), dx, dy),
        decreases ids.len() - i,
    {
        let _ = canvas.translate_element(ids[i], dx, dy);
        proof {
            assert(ids@.take(i + 1).drop_last() =~= ids@.take(i as int));
        }
        i = i + 1;
    }
    assert(ids@.take(i as int) =~= ids@);
}

/// Whether the element with id `id` has `(x, y)` in its box.
fn element_hit(canvas: &CanvasState, id: usize, x: i32, y: i32) -> (r: bool)
    ensures
        r == hits(canvas.spec_elements(), id, x as int, y as int),
{
    let found = canvas.get_element(id);
    match found {
        Some(element) => element.point_in_bounds(x, y),
        None => false,
    }
}

/// Whether `(x, y)` lies in the box of an element named in `ids`.
pub fn any_hit(ids: &[usize], canvas: &CanvasState, x: u16, y: u16) -> (r: bool)
    ensures
        r == hits_any(canvas.spec_elements(), ids@, ids@.len(), x as int, y as int),
{
    let mut i: usize = 0;
    while i < ids.len()
        invariant
            i <= ids@.len(),
            !hits_any(canvas.spec_elements(), ids@, i as nat, x as int, y as int),
        decreases ids.len() - i,
    {
        if element_hit(canvas, ids[i], x as i32, y as i32) {
            proof { lemma_hits_any_grows(canvas.spec_elements(), ids@, (i + 1) as nat, ids@.len(), x as int, y as int); }
            return true;
        }
        i = i + 1;
    }
    false
}

/// Once one of the first `n` ids hits, so do the first `m >= n`.
proof fn lemma_hits_any_grows(elems: Seq<Element>, ids: Seq<usize>, n: nat, m: nat, x: int, y: int)
    requires
        n <= m,
        n > 0,
        hits(elems, ids[n - 1], x, y),
    ensures
        hits_any(elems, ids, m, x, y),
    decreases m,
{
    if m > n {
        lemma_hits_any_grows(elems, ids, n, (m - 1) as nat, x, y);
    }
}

impl Default for SelectionState {
    fn default() -> (s: Self)
        ensures
            s.is_cleared(),
    {
        SelectionState::new()
    }
}

/// Toggling an element that is not selected, and then toggling it again,
/// gives back the selection.
pub proof fn lemma_toggle_twice(ids: Seq<usize>, id: usize)
    requires
        !ids.contains(id),
    ensures
        toggled(toggled(ids, id), id) == ids,
{
    assert(!(exists|k: int| 0 <= k < ids.len() && ids[k] == id));
    let once = ids.push(id);
    assert(toggled(ids, id) == once);
    assert(once[ids.len() as int] == id);
    let k = choose|k: int| 0 <= k < once.len() && once[k] == id && forall|j: int| 0 <= j < k ==> once[j] != id;
    assert(k == ids.len() as int) by {
        if k < ids.len() {
            assert(once[k] == ids[k]);
            assert(ids.contains(id));
        }
    }
    assert(once.remove(k) =~= ids);
}

} // verus!
