use vstd::prelude::*;
use crate::elements::{lemma_translate_back, moves_within, property_set, translated_view, with_cell, Element, ElementView};
use crate::elements::properties::{PropertyError, PropertyValue};
use crate::elements::line::RenderPoint;
use crate::grid::{paint, CharGrid};
use crate::text::string_push;
use crate::file::DiagramFile;

verus! {

/// The values of the elements, in order.
pub open spec fn views(elems: Seq<Element>) -> Seq<ElementView> {
    elems.map_values(|e: Element| e@)
}

/// The index of the first value with id `id`, if any.
pub open spec fn first_with_id(vs: Seq<ElementView>, id: usize) -> Option<int> {
    if exists|i: int| 0 <= i < vs.len() && vs[i].id() == id {
        Some(choose|i: int| 0 <= i < vs.len() && vs[i].id() == id
            && forall|j: int| 0 <= j < i ==> vs[j].id() != id)
    } else {
        None
    }
}

/// The index of the first element with id `id`, if any.
pub open spec fn index_of_id(elems: Seq<Element>, id: usize) -> Option<int> {
    first_with_id(views(elems), id)
}

/// An element's id is the id of its value.
pub proof fn lemma_view_id(e: Element)
    ensures
        e.spec_id() == e@.id(),
{
}

/// What `first_with_id` finds is a value with that id, the first one.
pub proof fn lemma_first_with_id(vs: Seq<ElementView>, id: usize)
    ensures
        match first_with_id(vs, id) {
            Some(i) => 0 <= i < vs.len() && vs[i].id() == id
                && forall|j: int| 0 <= j < i ==> vs[j].id() != id,
            None => forall|j: int| 0 <= j < vs.len() ==> vs[j].id() != id,
        },
{
    if exists|i: int| 0 <= i < vs.len() && vs[i].id() == id {
        let w = choose|i: int| 0 <= i < vs.len() && vs[i].id() == id;
        lemma_first_exists(vs, id, w);
    }
}

/// What `index_of_id` finds is an element with that id, the first one.
pub proof fn lemma_index_of_id(elems: Seq<Element>, id: usize)
    ensures
        match index_of_id(elems, id) {
            Some(i) => 0 <= i < elems.len() && elems[i].spec_id() == id
                && forall|j: int| 0 <= j < i ==> elems[j].spec_id() != id,
            None => forall|j: int| 0 <= j < elems.len() ==> elems[j].spec_id() != id,
        },
{
    lemma_first_with_id(views(elems), id);
    assert forall|j: int| 0 <= j < elems.len() implies #[trigger] elems[j].spec_id() == views(elems)[j].id() by {
        lemma_view_id(elems[j]);
    }
}

proof fn lemma_first_exists(vs: Seq<ElementView>, id: usize, w: int)
    requires
        0 <= w < vs.len(),
        vs[w].id() == id,
    ensures
        exists|i: int| 0 <= i < vs.len() && vs[i].id() == id
            && forall|j: int| 0 <= j < i ==> vs[j].id() != id,
    decreases w,
{
    if exists|j: int| 0 <= j < w && vs[j].id() == id {
        let j = choose|j: int| 0 <= j < w && vs[j].id() == id;
        lemma_first_exists(vs, id, j);
    } else {
        assert(forall|j: int| 0 <= j < w ==> vs[j].id() != id);
    }
}

/// The id of the topmost of the first `n` elements whose box holds `(x, y)`;
/// later elements lie on top of earlier ones.
pub open spec fn topmost_at(elems: Seq<Element>, n: nat, x: int, y: int) -> Option<usize>
    decreases n,
{
    if n == 0 {
        None
    } else if elems[n - 1].spec_point_in_bounds(x, y) {
        Some(elems[n - 1].spec_id())
    } else {
        topmost_at(elems, (n - 1) as nat, x, y)
    }
}

/// The ids of the first `n` elements whose boxes lie in the rectangle, in order.
pub open spec fn ids_inside(elems: Seq<Element>, n: nat, x1: int, y1: int, x2: int, y2: int) -> Seq<usize>
    decreases n,
{
    if n == 0 {
        Seq::empty()
    } else {
        let prev = ids_inside(elems, (n - 1) as nat, x1, y1, x2, y2);
        if elems[n - 1].spec_inside_rect(x1, y1, x2, y2) { prev.push(elems[n - 1].spec_id()) } else { prev }
    }
}

/// The ids of the first `n` elements whose boxes meet the rectangle, in order.
pub open spec fn ids_meeting(elems: Seq<Element>, n: nat, x1: int, y1: int, x2: int, y2: int) -> Seq<usize>
    decreases n,
{
    if n == 0 {
        Seq::empty()
    } else {
        let prev = ids_meeting(elems, (n - 1) as nat, x1, y1, x2, y2);
        if elems[n - 1].spec_intersects_rect(x1, y1, x2, y2) { prev.push(elems[n - 1].spec_id()) } else { prev }
    }
}

/// `(min_x, min_y, max_x, max_y)` over the boxes of the first `n` elements (`n >= 1`).
pub open spec fn extent_upto(elems: Seq<Element>, n: nat) -> (int, int, int, int)
    decreases n,
{
    let b = elems[n - 1].spec_bounds();
    if n <= 1 {
        (b.min.x as int, b.min.y as int, b.max.x as int, b.max.y as int)
    } else {
        let p = extent_upto(elems, (n - 1) as nat);
        (
            if p.0 <= b.min.x { p.0 } else { b.min.x as int },
            if p.1 <= b.min.y { p.1 } else { b.min.y as int },
            if p.2 >= b.max.x { p.2 } else { b.max.x as int },
            if p.3 >= b.max.y { p.3 } else { b.max.y as int },
        )
    }
}

/// The box around all elements; all zeros without elements.
pub open spec fn extent(elems: Seq<Element>) -> (int, int, int, int) {
    if elems.len() == 0 { (0, 0, 0, 0) } else { extent_upto(elems, elems.len()) }
}

/// The drawing: its elements, bottom to top, and the next id to hand out.
pub struct CanvasState {
    elements: Vec<Element>,
    next_id: usize,
}

/// The element canvas under its earlier name.
pub type Canvas = CanvasState;

impl CanvasState {
    /// The elements, bottom to top.
    pub closed spec fn spec_elements(&self) -> Seq<Element> {
        self.elements@
    }

    /// The id the next element will get.
    pub closed spec fn spec_next_id(&self) -> usize {
        self.next_id
    }

    /// An empty canvas whose first id is 0.
    pub fn new() -> (c: Self)
        ensures
            c.spec_elements() == Seq::<Element>::empty(),
            c.spec_next_id() == 0,
    {
        CanvasState { elements: Vec::new(), next_id: 0 }
    }

    /// A canvas holding the given elements and next id.
    pub fn from_parts(elements: Vec<Element>, next_id: usize) -> (c: Self)
        ensures
            c.spec_elements() == elements@,
            c.spec_next_id() == next_id,
    {
        CanvasState { elements, next_id }
    }

    /// Puts `element` on top of the others and returns its id.
    pub fn add_element(&mut self, element: Element) -> (id: usize)
        ensures
            id == element.spec_id(),
            final(self).spec_elements() == old(self).spec_elements().push(element),
            final(self).spec_next_id() == old(self).spec_next_id(),
    {
        let id = element.id();
        self.elements.push(element);
        id
    }

    /// The id of the topmost element whose box holds `(x, y)`.
    pub fn find_element_at(&self, x: i32, y: i32) -> (r: Option<usize>)
        ensures
            r == topmost_at(self.spec_elements(), self.spec_elements().len(), x as int, y as int),
    {
        let mut i = self.elements.len();
        while i > 0
            invariant
                i <= self.elements@.len(),
                topmost_at(self.elements@, self.elements@.len(), x as int, y as int)
                    == topmost_at(self.elements@, i as nat, x as int, y as int),
            decreases i,
        {
            if self.elements[i - 1].contains_point(x, y) {
                return Some(self.elements[i - 1].id());
            }
            i = i - 1;
        }
        None
    }

    /// The ids of the elements whose boxes lie in the rectangle, bottom to top.
    pub fn find_elements_fully_inside_rect(&self, x1: i32, y1: i32, x2: i32, y2: i32) -> (r: Vec<usize>)
        ensures
            r@ == ids_inside(self.spec_elements(), self.spec_elements().len(), x1 as int, y1 as int, x2 as int, y2 as int),
    {
        let mut r: Vec<usize> = Vec::new();
        let mut i: usize = 0;
        while i < self.elements.len()
            invariant
                i <= self.elements@.len(),
                r@ == ids_inside(self.elements@, i as nat, x1 as int, y1 as int, x2 as int, y2 as int),
            decreases self.elements.len() - i,
        {
            if self.elements[i].is_fully_inside_rect(x1, y1, x2, y2) {
                r.push(self.elements[i].id());
            }
            i = i + 1;
        }
        r
    }

    /// The ids of the elements whose boxes meet the rectangle, bottom to top.
    pub fn find_elements_in_rect(&self, x1: i32, y1: i32, x2: i32, y2: i32) -> (r: Vec<usize>)
        ensures
            r@ == ids_meeting(self.spec_elements(), self.spec_elements().len(), x1 as int, y1 as int, x2 as int, y2 as int),
    {
        let mut r: Vec<usize> = Vec::new();
        let mut i: usize = 0;
        while i < self.elements.len()
            invariant
                i <= self.elements@.len(),
                r@ == ids_meeting(self.elements@, i as nat, x1 as int, y1 as int, x2 as int, y2 as int),
            decreases self.elements.len() - i,
        {
            if self.elements[i].intersects_rect(x1, y1, x2, y2) {
                r.push(self.elements[i].id());
            }
            i = i + 1;
        }
        r
    }

    /// The position of the first element with id `id`.
    pub fn position_of(&self, id: usize) -> (r: Option<usize>)
        ensures
            match index_of_id(self.spec_elements(), id) {
                Some(i) => r == Some(i as usize),
                None => r is None,
            },
            r is Some ==> r->0 < self.spec_elements().len() && self.spec_elements()[r->0 as int].spec_id() == id,
    {
        let mut i: usize = 0;
        while i < self.elements.len()
            invariant
                i <= self.elements@.len(),
                forall|j: int| 0 <= j < i ==> self.elements@[j].spec_id() != id,
            decreases self.elements.len() - i,
        {
            if self.elements[i].id() == id {
                proof {
                    let e = self.elements@;
                    let vs = views(e);
                    lemma_index_of_id(e, id);
                    lemma_first_with_id(vs, id);
                    assert(vs[i as int].id() == id) by { lemma_view_id(e[i as int]); }
                    let c = index_of_id(e, id)->0;
                    assert(c == i as int) by {
                        if c < i { assert(e[c].spec_id() != id); }
                        if c > i { assert(vs[i as int].id() != id); }
                    }
                }
                return Some(i);
            }
            i = i + 1;
        }
        None
    }

    /// The first element with id `id`.
    pub fn get_element(&self, id: usize) -> (r: Option<&Element>)
        ensures
            match index_of_id(self.spec_elements(), id) {
                Some(i) => r == Some(&self.spec_elements()[i]),
                None => r is None,
            },
    {
        proof { lemma_index_of_id(self.elements@, id); }
        match self.position_of(id) {
            Some(i) => Some(&self.elements[i]),
            None => None,
        }
    }

    /// The first element with id `id`, to change in place.
    pub fn get_element_mut(&mut self, id: usize) -> (r: Option<&mut Element>)
        ensures
            match index_of_id(old(self).spec_elements(), id) {
                Some(i) => r is Some && *r->0 == old(self).spec_elements()[i]
                    && final(self).spec_elements() == old(self).spec_elements().update(i, *final(r->0)),
                None => r is None && final(self).spec_elements() == old(self).spec_elements(),
            },
            final(self).spec_next_id() == old(self).spec_next_id(),
    {
        proof { lemma_index_of_id(self.elements@, id); }
        match self.position_of(id) {
            Some(i) => Some(&mut self.elements[i]),
            None => None,
        }
    }

    /// Removes the first element with id `id` and returns it.
    pub fn remove_element(&mut self, id: usize) -> (r: Option<Element>)
        ensures
            match index_of_id(old(self).spec_elements(), id) {
                Some(i) => r == Some(old(self).spec_elements()[i])
                    && final(self).spec_elements() == old(self).spec_elements().remove(i),
                None => r is None && final(self).spec_elements() == old(self).spec_elements(),
            },
            final(self).spec_next_id() == old(self).spec_next_id(),
    {
        proof { lemma_index_of_id(self.elements@, id); }
        match self.position_of(id) {
            Some(i) => Some(self.elements.remove(i)),
            None => None,
        }
    }

    /// Whether every element can be drawn (see `all_renderable`).
    pub fn is_renderable(&self) -> (r: bool)
        ensures
            r == all_renderable(self.spec_elements()),
    {
        let mut i: usize = 0;
        while i < self.elements.len()
            invariant
                i <= self.elements@.len(),
                forall|k: int| 0 <= k < i ==> #[trigger] self.elements@[k].renderable(),
            decreases self.elements.len() - i,
        {
            if !self.elements[i].is_renderable() {
                return false;
            }
            i = i + 1;
        }
        true
    }

    /// The elements, bottom to top.
    pub fn elements(&self) -> (r: &[Element])
        ensures
            r@ == self.spec_elements(),
    {
        self.elements.as_slice()
    }

    /// The id the next element will get.
    pub fn next_id(&self) -> (r: usize)
        ensures
            r == self.spec_next_id(),
    {
        self.next_id
    }

    /// Hands out the next id.
    pub fn get_next_id(&mut self) -> (id: usize)
        requires
            old(self).spec_next_id() < usize::MAX,
        ensures
            id == old(self).spec_next_id(),
            final(self).spec_next_id() == old(self).spec_next_id() + 1,
            final(self).spec_elements() == old(self).spec_elements(),
    {
        let id = self.next_id;
        self.next_id = self.next_id + 1;
        id
    }

    /// Whether the canvas has no element.
    pub fn is_empty(&self) -> (r: bool)
        ensures
            r == (self.spec_elements().len() == 0),
    {
        self.elements.len() == 0
    }

    /// Removes every element; ids keep counting.
    pub fn clear(&mut self)
        ensures
            final(self).spec_elements() == Seq::<Element>::empty(),
            final(self).spec_next_id() == old(self).spec_next_id(),
    {
        self.elements.clear();
    }

    /// `(min_x, min_y, max_x, max_y)` around all elements' boxes; zeros when empty.
    pub fn bounds(&self) -> (r: (i32, i32, i32, i32))
        ensures
            (r.0 as int, r.1 as int, r.2 as int, r.3 as int) == extent(self.spec_elements()),
    {
        if self.elements.len() == 0 {
            return (0, 0, 0, 0);
        }
        let mut min_x: i32 = i32::MAX;
        let mut min_y: i32 = i32::MAX;
        let mut max_x: i32 = i32::MIN;
        let mut max_y: i32 = i32::MIN;
        let mut i: usize = 0;
        while i < self.elements.len()
            invariant
                i <= self.elements@.len(),
                self.elements@.len() > 0,
                i == 0 ==> min_x == i32::MAX && min_y == i32::MAX && max_x == i32::MIN && max_y == i32::MIN,
                i > 0 ==> (min_x as int, min_y as int, max_x as int, max_y as int) == extent_upto(self.elements@, i as nat),
            decreases self.elements.len() - i,
        {
            let b = self.elements[i].bounds();
            let bx0 = b.min.x as i32;
            let by0 = b.min.y as i32;
            let bx1 = b.max.x as i32;
            let by1 = b.max.y as i32;
            min_x = if min_x <= bx0 { min_x } else { bx0 };
            min_y = if min_y <= by0 { min_y } else { by0 };
            max_x = if max_x >= bx1 { max_x } else { bx1 };
            max_y = if max_y >= by1 { max_y } else { by1 };
            i = i + 1;
        }
        (min_x, min_y, max_x, max_y)
    }

    /// Replaces the whole drawing, as when a file is opened.
    pub fn load_diagram(&mut self, elements: Vec<Element>, next_id: usize)
        ensures
            final(self).spec_elements() == elements@,
            final(self).spec_next_id() == next_id,
    {
        self.elements = elements;
        self.next_id = next_id;
    }

    /// What saving writes: the elements and the next id, in the current format.
    pub fn save_to_file(&self) -> (d: DiagramFile)
        ensures
            d.version@ == "0.1.0"@,
            views(d.elements@) == views(self.spec_elements()),
            d.next_id == self.spec_next_id(),
    {
        let mut copies: Vec<Element> = Vec::new();
        let mut i: usize = 0;
        while i < self.elements.len()
            invariant
                i <= self.elements.len(),
                copies@.len() == i,
                forall|k: int| 0 <= k < i ==> #[trigger] copies@[k]@ == self.elements@[k]@,
            decreases self.elements.len() - i,
        {
            copies.push(self.elements[i].duplicate());
            i = i + 1;
        }
        assert(views(copies@) =~= views(self.spec_elements()));
        DiagramFile::new(copies, self.next_id)
    }

    /// Takes over a diagram that was read from a file.
    pub fn load_from_file(&mut self, file: DiagramFile)
        ensures
            final(self).spec_elements() == file.elements@,
            final(self).spec_next_id() == file.next_id,
    {
        self.load_diagram(file.elements, file.next_id);
    }
}

impl Default for CanvasState {
    fn default() -> (c: Self)
        ensures
            c.spec_elements() == Seq::<Element>::empty(),
            c.spec_next_id() == 0,
    {
        CanvasState::new()
    }
}

} // verus!

verus! {

/// `after` is `before` with one element on top whose value is `v`.
pub open spec fn adds(before: Seq<Element>, after: Seq<Element>, v: ElementView) -> bool {
    &&& after.len() == before.len() + 1
    &&& after.drop_last() == before
    &&& after.last()@ == v
}

/// The values after moving the first element with id `id` by `(dx, dy)`.
pub open spec fn move_one(vs: Seq<ElementView>, id: usize, dx: i32, dy: i32) -> Seq<ElementView> {
    match first_with_id(vs, id) {
        Some(i) => vs.update(i, translated_view(vs[i], dx, dy)),
        None => vs,
    }
}

/// The values after moving, for each id in turn, its first element by `(dx, dy)`.
pub open spec fn move_all(vs: Seq<ElementView>, ids: Seq<usize>, dx: i32, dy: i32) -> Seq<ElementView>
    decreases ids.len(),
{
    if ids.len() == 0 {
        vs
    } else {
        move_one(move_all(vs, ids.drop_last(), dx, dy), ids.last(), dx, dy)
    }
}

/// The values after removing the first element with id `id`.
pub open spec fn remove_one(vs: Seq<ElementView>, id: usize) -> Seq<ElementView> {
    match first_with_id(vs, id) {
        Some(i) => vs.remove(i),
        None => vs,
    }
}

/// The values after removing, for each id in turn, its first element.
pub open spec fn remove_all(vs: Seq<ElementView>, ids: Seq<usize>) -> Seq<ElementView>
    decreases ids.len(),
{
    if ids.len() == 0 {
        vs
    } else {
        remove_one(remove_all(vs, ids.drop_last()), ids.last())
    }
}

impl CanvasState {
    /// Moves the first element with id `id` by `(dx, dy)`; tells whether there was one.
    pub fn translate_element(&mut self, id: usize, dx: i32, dy: i32) -> (found: bool)
        ensures
            views(final(self).spec_elements()) == move_one(views(old(self).spec_elements()), id, dx, dy),
            found == index_of_id(old(self).spec_elements(), id) is Some,
            final(self).spec_next_id() == old(self).spec_next_id(),
    {
        let ghost before = self.spec_elements();
        proof { lemma_index_of_id(before, id); }
        match self.position_of(id) {
            Some(i) => {
                self.elements[i].translate(dx, dy);
                proof {
                    assert(views(self.spec_elements()) =~= views(before).update(i as int, translated_view(views(before)[i as int], dx, dy)));
                }
                true
            },
            None => false,
        }
    }

    /// Puts `content` in cell `(row, col)` of the first element with id `id`
    /// when it is a table with that cell, resizing the table to its texts.
    #[verifier::spinoff_prover]
    #[verifier::rlimit(30)]
    pub fn set_table_cell(&mut self, id: usize, row: usize, col: usize, content: String)
        ensures
            views(final(self).spec_elements()) == match first_with_id(views(old(self).spec_elements()), id) {
                Some(i) => views(old(self).spec_elements()).update(i,
                    with_cell(views(old(self).spec_elements())[i], row as int, col as int, content@)),
                None => views(old(self).spec_elements()),
            },
            final(self).spec_next_id() == old(self).spec_next_id(),
    {
        let ghost before = self.spec_elements();
        proof { lemma_index_of_id(before, id); }
        match self.position_of(id) {
            Some(i) => {
                let ghost e0 = self.elements@[i as int];
                match &mut self.elements[i] {
                    Element::Table(t) => {
                        if t.set_cell(row, col, content) {
                            let _ = t.resize_to_content();
                        }
                    },
                    _ => {},
                }
                proof {
                    assert(self.spec_elements()[i as int]@ == with_cell(e0@, row as int, col as int, content@));
                    assert(views(self.spec_elements()) =~= views(before).update(i as int,
                        with_cell(views(before)[i as int], row as int, col as int, content@)));
                }
            },
            None => {},
        }
    }

    /// Removes the first element with id `id`, by values.
    pub proof fn lemma_remove_views(before: Seq<Element>, after: Seq<Element>, id: usize)
        requires
            match index_of_id(before, id) {
                Some(i) => after == before.remove(i),
                None => after == before,
            },
        ensures
            views(after) == remove_one(views(before), id),
    {
        match index_of_id(before, id) {
            Some(i) => {
                lemma_first_with_id(views(before), id);
                assert(views(after) =~= views(before).remove(i));
            },
            None => {},
        }
    }
}

/// The map after drawing each rendering in `rs` in turn over `m`.
pub open spec fn paint_layers(m: Map<(i32, i32), char>, rs: Seq<Seq<RenderPoint>>) -> Map<(i32, i32), char>
    decreases rs.len(),
{
    if rs.len() == 0 { m } else { paint(paint_layers(m, rs.drop_last()), rs.last()) }
}

/// `rs` holds, for each element, what it draws.
pub open spec fn renderings_of(elems: Seq<Element>, rs: Seq<Seq<RenderPoint>>) -> bool {
    rs.len() == elems.len() && forall|k: int| 0 <= k < elems.len() ==> #[trigger] elems[k].is_rendering(rs[k])
}

/// Every element can be drawn within the `i32` range.
pub open spec fn all_renderable(elems: Seq<Element>) -> bool {
    forall|k: int| 0 <= k < elems.len() ==> #[trigger] elems[k].renderable()
}

/// `m` is the canvas as drawn: each element over the ones before it.
pub open spec fn is_canvas_picture(elems: Seq<Element>, m: Map<(i32, i32), char>) -> bool {
    exists|rs: Seq<Seq<RenderPoint>>| renderings_of(elems, rs) && m == paint_layers(Map::empty(), rs)
}

impl Element {
    /// The element's characters by cell; where it draws a cell twice the later one stays.
    pub fn points(&self) -> (g: CharGrid)
        requires
            self.renderable(),
        ensures
            g.wf(),
            exists|r: Seq<RenderPoint>| self.is_rendering(r) && g.spec_map() == paint(Map::empty(), r),
    {
        let pts = self.render_points();
        let mut g = CharGrid::new();
        g.paint_all(&pts);
        g
    }
}

impl CanvasState {
    /// The picture of the canvas: every element drawn bottom to top, later
    /// characters over earlier ones.
    pub fn build_render_map(&self) -> (g: CharGrid)
        requires
            all_renderable(self.spec_elements()),
        ensures
            g.wf(),
            is_canvas_picture(self.spec_elements(), g.spec_map()),
    {
        let mut g = CharGrid::new();
        let ghost mut rs: Seq<Seq<RenderPoint>> = Seq::empty();
        let mut i: usize = 0;
        while i < self.elements.len()
            invariant
                i <= self.elements@.len(),
                all_renderable(self.elements@),
                g.wf(),
                renderings_of(self.elements@.subrange(0, i as int), rs),
                g.spec_map() == paint_layers(Map::empty(), rs),
            decreases self.elements.len() - i,
        {
            let pts = self.elements[i].render_points();
            g.paint_all(&pts);
            proof {
                let rs2 = rs.push(pts@);
                assert(rs2.drop_last() =~= rs);
                assert forall|k: int| 0 <= k < i + 1 implies #[trigger] self.elements@.subrange(0, i + 1)[k].is_rendering(rs2[k]) by {
                    if k < i {
                        assert(self.elements@.subrange(0, i + 1)[k] == self.elements@.subrange(0, i as int)[k]);
                    }
                }
                rs = rs2;
            }
            i = i + 1;
        }
        assert(self.elements@.subrange(0, i as int) =~= self.elements@);
        g
    }

    /// The character the canvas shows at `(x, y)`, if any.
    pub fn get(&self, x: i32, y: i32) -> (r: Option<char>)
        requires
            all_renderable(self.spec_elements()),
        ensures
            exists|m: Map<(i32, i32), char>| is_canvas_picture(self.spec_elements(), m)
                && r == (if m.dom().contains((x, y)) { Some(m[(x, y)]) } else { None }),
    {
        let g = self.build_render_map();
        g.get(x, y)
    }
}

/// The character shown at a cell of a picture, a blank where nothing is drawn.
pub open spec fn shown_at(m: Map<(i32, i32), char>, x: int, y: int) -> char {
    if m.dom().contains((x as i32, y as i32)) { m[(x as i32, y as i32)] } else { ' ' }
}

/// How many whole numbers run from `a` to `b` (none when `b` is below `a`).
pub open spec fn span(a: int, b: int) -> nat {
    if a <= b { (b - a + 1) as nat } else { 0 }
}

/// One text row of a picture: columns `x0` to `x1` of row `y`, then a line break.
pub open spec fn picture_row(m: Map<(i32, i32), char>, y: int, x0: int, x1: int) -> Seq<char> {
    Seq::new(span(x0, x1), |i: int| shown_at(m, x0 + i, y)).push('\n')
}

/// The first `n` text rows of a picture from row `y0`.
pub open spec fn picture_rows(m: Map<(i32, i32), char>, y0: int, x0: int, x1: int, n: nat) -> Seq<char>
    decreases n,
{
    if n == 0 { Seq::empty() } else { picture_rows(m, y0, x0, x1, (n - 1) as nat) + picture_row(m, y0 + n - 1, x0, x1) }
}

/// A canvas as text: its picture over the box around all elements, or a note when it is empty.
pub open spec fn canvas_text(elems: Seq<Element>, m: Map<(i32, i32), char>) -> Seq<char> {
    if elems.len() == 0 {
        "(empty diagram)\n"@
    } else {
        let (x0, y0, x1, y1) = extent(elems);
        picture_rows(m, y0, x0, x1, span(y0, y1))
    }
}

proof fn lemma_extent_range(elems: Seq<Element>, n: nat)
    requires
        1 <= n <= elems.len(),
    ensures
        0 <= extent_upto(elems, n).0 <= 65535,
        0 <= extent_upto(elems, n).1 <= 65535,
        0 <= extent_upto(elems, n).2 <= 65535,
        0 <= extent_upto(elems, n).3 <= 65535,
    decreases n,
{
    if n > 1 {
        lemma_extent_range(elems, (n - 1) as nat);
    }
}

impl CanvasState {
    /// The canvas as text, for printing: every row of the box around all
    /// elements, blanks where nothing is drawn; a note for an empty canvas.
    pub fn render_text(&self) -> (r: String)
        requires
            all_renderable(self.spec_elements()),
        ensures
            exists|m: Map<(i32, i32), char>| is_canvas_picture(self.spec_elements(), m)
                && r@ == canvas_text(self.spec_elements(), m),
    {
        if self.is_empty() {
            let r = String::from_str("(empty diagram)\n");
            proof {
                let rs = Seq::<Seq<RenderPoint>>::empty();
                assert(renderings_of(self.spec_elements(), rs));
                assert(is_canvas_picture(self.spec_elements(), paint_layers(Map::empty(), rs)));
            }
            return r;
        }
        let g = self.build_render_map();
        let (min_x, min_y, max_x, max_y) = self.bounds();
        proof { lemma_extent_range(self.spec_elements(), self.spec_elements().len()); }
        let ghost m = g.spec_map();
        let mut out = String::new();
        let mut y: i32 = min_y;
        while y <= max_y
            invariant
                g.wf(),
                m == g.spec_map(),
                0 <= min_x <= 65535 && 0 <= max_x <= 65535,
                0 <= min_y <= 65535 && 0 <= max_y <= 65535,
                min_y <= y,
                y <= max_y + 1 || y == min_y,
                out@ == picture_rows(m, min_y as int, min_x as int, max_x as int, (y - min_y) as nat),
            decreases max_y + 1 - y,
        {
            let ghost before = out@;
            let mut x: i32 = min_x;
            while x <= max_x
                invariant
                    g.wf(),
                    m == g.spec_map(),
                    0 <= min_x <= 65535 && 0 <= max_x <= 65535,
                    0 <= y <= 65535,
                    min_x <= x,
                    x <= max_x + 1 || x == min_x,
                    out@ == before + Seq::new((x - min_x) as nat, |i: int| shown_at(m, min_x + i, y as int)),
                decreases max_x + 1 - x,
            {
                let c = match g.get(x, y) {
                    Some(c) => c,
                    None => ' ',
                };
                string_push(&mut out, c);
                assert(out@ =~= before + Seq::new((x + 1 - min_x) as nat, |i: int| shown_at(m, min_x + i, y as int)));
                x = x + 1;
            }
            assert((x - min_x) as nat == span(min_x as int, max_x as int));
            string_push(&mut out, '\n');
            assert(out@ =~= picture_rows(m, min_y as int, min_x as int, max_x as int, (y + 1 - min_y) as nat));
            y = y + 1;
        }
        assert((y - min_y) as nat == span(min_y as int, max_y as int));
        out
    }
}

impl CanvasState {
    /// Sets a property of the first element with id `id`, when there is one
    /// and its properties can be set; the element's own result comes back.
    pub fn set_element_property(&mut self, id: usize, name: &str, value: PropertyValue) -> (r: Option<Result<(), PropertyError>>)
        ensures
            final(self).spec_next_id() == old(self).spec_next_id(),
            final(self).spec_elements().len() == old(self).spec_elements().len(),
            match index_of_id(old(self).spec_elements(), id) {
                Some(i) => if old(self).spec_elements()[i].settable(name@) {
                    &&& r is Some
                    &&& property_set(old(self).spec_elements()[i], final(self).spec_elements()[i], name@, value@, r->0)
                    &&& forall|k: int| 0 <= k < old(self).spec_elements().len() && k != i ==>
                        final(self).spec_elements()[k] == old(self).spec_elements()[k]
                } else {
                    r is None && final(self).spec_elements() == old(self).spec_elements()
                },
                None => r is None && final(self).spec_elements() == old(self).spec_elements(),
            },
    {
        proof { lemma_index_of_id(self.elements@, id); }
        match self.position_of(id) {
            Some(i) => {
                if self.elements[i].is_settable(name) {
                    let r = self.elements[i].set_property(name, value);
                    Some(r)
                } else {
                    None
                }
            },
            None => None,
        }
    }
}

/// An element added with an id no other element has is the one found under that id.
pub proof fn lemma_add_then_find(elems: Seq<Element>, e: Element)
    requires
        forall|k: int| 0 <= k < elems.len() ==> (#[trigger] elems[k]).spec_id() != e.spec_id(),
    ensures
        index_of_id(elems.push(e), e.spec_id()) == Some(elems.len() as int),
{
    let after = elems.push(e);
    lemma_index_of_id(after, e.spec_id());
    match index_of_id(after, e.spec_id()) {
        Some(i) => {
            if i < elems.len() {
                assert(after[i] == elems[i]);
            }
        },
        None => {
            assert(after[elems.len() as int] == e);
        },
    }
}

/// Removing by id an element just added under a fresh id gives back the canvas as it was.
pub proof fn lemma_add_then_remove(elems: Seq<Element>, e: Element)
    requires
        forall|k: int| 0 <= k < elems.len() ==> (#[trigger] elems[k]).spec_id() != e.spec_id(),
    ensures
        match index_of_id(elems.push(e), e.spec_id()) {
            Some(i) => elems.push(e).remove(i) == elems,
            None => false,
        },
{
    lemma_add_then_find(elems, e);
    assert(elems.push(e).remove(elems.len() as int) =~= elems);
}

/// Loading the file that saving wrote gives back a canvas with the same
/// elements, in the same order, and the same next id.
pub proof fn lemma_save_then_load(before: CanvasState, file: DiagramFile, after: CanvasState)
    requires
        views(file.elements@) == views(before.spec_elements()),
        file.next_id == before.spec_next_id(),
        after.spec_elements() == file.elements@,
        after.spec_next_id() == file.next_id,
    ensures
        views(after.spec_elements()) == views(before.spec_elements()),
        after.spec_elements().len() == before.spec_elements().len(),
        after.spec_next_id() == before.spec_next_id(),
{
    assert(views(after.spec_elements()).len() == views(before.spec_elements()).len());
}

/// Two value sequences with the same ids in the same places find the same first index for every id.
proof fn lemma_first_same_ids(a: Seq<ElementView>, b: Seq<ElementView>, id: usize)
    requires
        a.len() == b.len(),
        forall|k: int| 0 <= k < a.len() ==> (#[trigger] a[k]).id() == b[k].id(),
    ensures
        first_with_id(a, id) == first_with_id(b, id),
{
    lemma_first_with_id(a, id);
    lemma_first_with_id(b, id);
    match (first_with_id(a, id), first_with_id(b, id)) {
        (Some(i), Some(j)) => {
            if i < j {
                assert(a[i].id() == b[i].id());
            } else if j < i {
                assert(a[j].id() == b[j].id());
            }
        },
        (Some(i), None) => {
            assert(a[i].id() == b[i].id());
        },
        (None, Some(j)) => {
            assert(a[j].id() == b[j].id());
        },
        (None, None) => {},
    }
}

/// Moving keeps every value's id and the number of values.
proof fn lemma_move_one_ids(vs: Seq<ElementView>, id: usize, dx: i32, dy: i32)
    ensures
        move_one(vs, id, dx, dy).len() == vs.len(),
        forall|k: int| 0 <= k < vs.len() ==> (#[trigger] move_one(vs, id, dx, dy)[k]).id() == vs[k].id(),
{
    lemma_first_with_id(vs, id);
}

/// Moving the first element with id `a` and that with id `b` can be done in either order.
proof fn lemma_move_one_commutes(vs: Seq<ElementView>, a: usize, b: usize, d: (i32, i32), e: (i32, i32))
    requires
        a != b,
    ensures
        move_one(move_one(vs, a, d.0, d.1), b, e.0, e.1) == move_one(move_one(vs, b, e.0, e.1), a, d.0, d.1),
{
    let va = move_one(vs, a, d.0, d.1);
    let vb = move_one(vs, b, e.0, e.1);
    lemma_move_one_ids(vs, a, d.0, d.1);
    lemma_move_one_ids(vs, b, e.0, e.1);
    lemma_first_same_ids(va, vs, b);
    lemma_first_same_ids(vb, vs, a);
    lemma_first_with_id(vs, a);
    lemma_first_with_id(vs, b);
    let lhs = move_one(va, b, e.0, e.1);
    let rhs = move_one(vb, a, d.0, d.1);
    assert(lhs =~= rhs);
}

/// Moving all of `ids` after first moving `a` (not among them) equals moving `a` last.
proof fn lemma_move_all_then_one(vs: Seq<ElementView>, ids: Seq<usize>, a: usize, d: (i32, i32), e: (i32, i32))
    requires
        !ids.contains(a),
    ensures
        move_all(move_one(vs, a, d.0, d.1), ids, e.0, e.1) == move_one(move_all(vs, ids, e.0, e.1), a, d.0, d.1),
    decreases ids.len(),
{
    if ids.len() > 0 {
        let rest = ids.drop_last();
        assert(!rest.contains(a)) by {
            if rest.contains(a) {
                let k = choose|k: int| 0 <= k < rest.len() && rest[k] == a;
                assert(ids[k] == a);
            }
        }
        assert(ids.last() != a) by {
            assert(ids[ids.len() - 1] == ids.last());
        }
        lemma_move_all_then_one(vs, rest, a, d, e);
        lemma_move_one_commutes(move_all(vs, rest, e.0, e.1), a, ids.last(), d, e);
    }
}

/// Moving the first element with id `a` by `(dx, dy)` and back gives the values
/// back, when that element stays in range.
proof fn lemma_move_one_back(vs: Seq<ElementView>, a: usize, dx: i32, dy: i32, bx: i32, by: i32)
    requires
        bx == -dx,
        by == -dy,
        first_with_id(vs, a) matches Some(i) ==> moves_within(vs[i], dx, dy),
    ensures
        move_one(move_one(vs, a, dx, dy), a, bx, by) == vs,
{
    let m = move_one(vs, a, dx, dy);
    lemma_move_one_ids(vs, a, dx, dy);
    lemma_first_same_ids(m, vs, a);
    lemma_first_with_id(vs, a);
    match first_with_id(vs, a) {
        Some(i) => {
            lemma_translate_back(vs[i], dx, dy, bx, by);
            assert(move_one(m, a, bx, by) =~= vs);
        },
        None => {},
    }
}

/// Moving a selection by `(dx, dy)` and then by `(-dx, -dy)` gives the
/// drawing back, when no id is listed twice and no moved element leaves the
/// coordinate range on the way.
pub proof fn lemma_move_back(vs: Seq<ElementView>, ids: Seq<usize>, dx: i32, dy: i32, bx: i32, by: i32)
    requires
        bx == -dx,
        by == -dy,
        ids.no_duplicates(),
        forall|k: int| 0 <= k < ids.len() ==> (first_with_id(vs, #[trigger] ids[k]) matches Some(i) ==> moves_within(vs[i], dx, dy)),
    ensures
        move_all(move_all(vs, ids, dx, dy), ids, bx, by) == vs,
    decreases ids.len(),
{
    if ids.len() > 0 {
        let rest = ids.drop_last();
        let a = ids.last();
        assert(!rest.contains(a)) by {
            if rest.contains(a) {
                let k = choose|k: int| 0 <= k < rest.len() && rest[k] == a;
                assert(ids[k] == ids[ids.len() - 1]);
            }
        }
        assert(rest.no_duplicates()) by {
            assert forall|i: int, j: int| 0 <= i < rest.len() && 0 <= j < rest.len() && i != j implies rest[i] != rest[j] by {
                assert(ids[i] == rest[i] && ids[j] == rest[j]);
            }
        }
        assert forall|k: int| 0 <= k < rest.len() implies (first_with_id(vs, #[trigger] rest[k]) matches Some(i) ==> moves_within(vs[i], dx, dy)) by {
            assert(rest[k] == ids[k]);
        }
        let w = move_all(vs, rest, dx, dy);
        // move_all(vs, ids, d) == move_one(w, a, d); moving back all of `rest` first:
        lemma_move_all_then_one(w, rest, a, (dx, dy), (bx, by));
        lemma_move_back(vs, rest, dx, dy, bx, by);
        assert(first_with_id(vs, ids[ids.len() - 1]) matches Some(i) ==> moves_within(vs[i], dx, dy));
        lemma_move_one_back(vs, a, dx, dy, bx, by);
    }
}

/// The box around all elements holds every element's box.
pub proof fn lemma_extent_covers(elems: Seq<Element>, k: int)
    requires
        0 <= k < elems.len(),
    ensures
        extent(elems).0 <= elems[k].spec_bounds().min.x,
        extent(elems).1 <= elems[k].spec_bounds().min.y,
        extent(elems).2 >= elems[k].spec_bounds().max.x,
        extent(elems).3 >= elems[k].spec_bounds().max.y,
{
    lemma_extent_upto_covers(elems, elems.len(), k);
}

proof fn lemma_extent_upto_covers(elems: Seq<Element>, n: nat, k: int)
    requires
        0 <= k < n <= elems.len(),
    ensures
        extent_upto(elems, n).0 <= elems[k].spec_bounds().min.x,
        extent_upto(elems, n).1 <= elems[k].spec_bounds().min.y,
        extent_upto(elems, n).2 >= elems[k].spec_bounds().max.x,
        extent_upto(elems, n).3 >= elems[k].spec_bounds().max.y,
    decreases n,
{
    if k < n - 1 {
        lemma_extent_upto_covers(elems, (n - 1) as nat, k);
    }
}

} // verus!
