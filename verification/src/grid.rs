use vstd::prelude::*;
use crate::elements::line::RenderPoint;

verus! {

/// The character map after drawing `ps` in order over `m`: a later character
/// at a cell replaces an earlier one.
pub open spec fn paint(m: Map<(i32, i32), char>, ps: Seq<RenderPoint>) -> Map<(i32, i32), char>
    decreases ps.len(),
{
    if ps.len() == 0 {
        m
    } else {
        paint(m, ps.drop_last()).insert((ps.last().0, ps.last().1), ps.last().2)
    }
}

/// A sparse grid of characters: at most one per cell.
pub struct CharGrid {
    cells: Vec<RenderPoint>,
}

impl CharGrid {
    /// No two entries share a cell.
    pub closed spec fn wf(&self) -> bool {
        forall|i: int, j: int| 0 <= i < j < self.cells@.len() ==>
            (#[trigger] self.cells@[i]).0 != (#[trigger] self.cells@[j]).0 || self.cells@[i].1 != self.cells@[j].1
    }

    /// The grid as a map from cells to characters.
    pub closed spec fn spec_map(&self) -> Map<(i32, i32), char> {
        Map::new(
            |p: (i32, i32)| exists|i: int| 0 <= i < self.cells@.len() && self.cells@[i].0 == p.0 && self.cells@[i].1 == p.1,
            |p: (i32, i32)| self.cells@[choose|i: int| 0 <= i < self.cells@.len() && self.cells@[i].0 == p.0 && self.cells@[i].1 == p.1].2,
        )
    }

    /// An empty grid.
    pub fn new() -> (g: Self)
        ensures
            g.wf(),
            g.spec_map() == Map::<(i32, i32), char>::empty(),
    {
        let g = CharGrid { cells: Vec::new() };
        assert(g.spec_map() =~= Map::<(i32, i32), char>::empty());
        g
    }

    fn find(&self, x: i32, y: i32) -> (r: Option<usize>)
        requires
            self.wf(),
        ensures
            match r {
                Some(i) => i < self.cells@.len() && self.cells@[i as int].0 == x && self.cells@[i as int].1 == y,
                None => forall|i: int| 0 <= i < self.cells@.len() ==> !(self.cells@[i].0 == x && self.cells@[i].1 == y),
            },
    {
        let mut i: usize = 0;
        while i < self.cells.len()
            invariant
                i <= self.cells@.len(),
                forall|j: int| 0 <= j < i ==> !(self.cells@[j].0 == x && self.cells@[j].1 == y),
            decreases self.cells.len() - i,
        {
            if self.cells[i].0 == x && self.cells[i].1 == y {
                return Some(i);
            }
            i = i + 1;
        }
        None
    }

    /// The character at `(x, y)`, if any.
    pub fn get(&self, x: i32, y: i32) -> (r: Option<char>)
        requires
            self.wf(),
        ensures
            r == (if self.spec_map().dom().contains((x, y)) { Some(self.spec_map()[(x, y)]) } else { None }),
    {
        match self.find(x, y) {
            Some(i) => {
                proof {
                    let c = choose|k: int| 0 <= k < self.cells@.len() && self.cells@[k].0 == x && self.cells@[k].1 == y;
                    assert(self.spec_map().dom().contains((x, y)));
                    assert(c == i as int) by {
                        if c != i as int {
                            if c < i as int {
                                assert(self.cells@[c].0 != self.cells@[i as int].0 || self.cells@[c].1 != self.cells@[i as int].1);
                            } else {
                                assert(self.cells@[i as int].0 != self.cells@[c].0 || self.cells@[i as int].1 != self.cells@[c].1);
                            }
                        }
                    }
                }
                Some(self.cells[i].2)
            },
            None => {
                assert(!self.spec_map().dom().contains((x, y)));
                None
            },
        }
    }

    /// Puts `c` at `(x, y)`, replacing what was there.
    pub fn set(&mut self, x: i32, y: i32, c: char)
        requires
            old(self).wf(),
        ensures
            final(self).wf(),
            final(self).spec_map() == old(self).spec_map().insert((x, y), c),
    {
        let ghost before = self.spec_map();
        match self.find(x, y) {
            Some(i) => {
                self.cells.set(i, (x, y, c));
                proof {
                    assert forall|p: (i32, i32)| #![trigger self.spec_map().dom().contains(p)]
                        self.spec_map().dom().contains(p) <==> before.insert((x, y), c).dom().contains(p) by {
                        if p != (x, y) {
                            if before.dom().contains(p) {
                                let k = choose|k: int| 0 <= k < old(self).cells@.len() && old(self).cells@[k].0 == p.0 && old(self).cells@[k].1 == p.1;
                                assert(self.cells@[k].0 == p.0 && self.cells@[k].1 == p.1);
                            }
                        } else {
                            assert(self.cells@[i as int].0 == x && self.cells@[i as int].1 == y);
                        }
                    }
                    assert forall|p: (i32, i32)| self.spec_map().dom().contains(p) implies
                        #[trigger] self.spec_map()[p] == before.insert((x, y), c)[p] by {
                        let k = choose|k: int| 0 <= k < self.cells@.len() && self.cells@[k].0 == p.0 && self.cells@[k].1 == p.1;
                        if p == (x, y) {
                            if k != i as int {
                                assert(self.cells@[k].0 != self.cells@[i as int].0 || self.cells@[k].1 != self.cells@[i as int].1);
                            }
                        } else {
                            let k0 = choose|k: int| 0 <= k < old(self).cells@.len() && old(self).cells@[k].0 == p.0 && old(self).cells@[k].1 == p.1;
                            if k0 != k {
                                assert(old(self).cells@[k0].0 != old(self).cells@[k].0 || old(self).cells@[k0].1 != old(self).cells@[k].1);
                            }
                        }
                    }
                    assert(self.spec_map() =~= before.insert((x, y), c));
                }
            },
            None => {
                self.cells.push((x, y, c));
                proof {
                    let n = old(self).cells@.len() as int;
                    assert forall|p: (i32, i32)| #![trigger self.spec_map().dom().contains(p)]
                        self.spec_map().dom().contains(p) <==> before.insert((x, y), c).dom().contains(p) by {
                        if p != (x, y) {
                            if before.dom().contains(p) {
                                let k = choose|k: int| 0 <= k < old(self).cells@.len() && old(self).cells@[k].0 == p.0 && old(self).cells@[k].1 == p.1;
                                assert(self.cells@[k].0 == p.0 && self.cells@[k].1 == p.1);
                            }
                        } else {
                            assert(self.cells@[n].0 == x && self.cells@[n].1 == y);
                        }
                    }
                    assert forall|p: (i32, i32)| self.spec_map().dom().contains(p) implies
                        #[trigger] self.spec_map()[p] == before.insert((x, y), c)[p] by {
                        let k = choose|k: int| 0 <= k < self.cells@.len() && self.cells@[k].0 == p.0 && self.cells@[k].1 == p.1;
                        if p == (x, y) {
                            assert(k == n);
                        } else {
                            assert(k != n);
                            let k0 = choose|k: int| 0 <= k < old(self).cells@.len() && old(self).cells@[k].0 == p.0 && old(self).cells@[k].1 == p.1;
                            if k0 != k {
                                assert(old(self).cells@[k0].0 != old(self).cells@[k].0 || old(self).cells@[k0].1 != old(self).cells@[k].1);
                            }
                        }
                    }
                    assert(self.spec_map() =~= before.insert((x, y), c));
                }
            },
        }
    }

    /// Draws `points` in order.
    pub fn paint_all(&mut self, points: &Vec<RenderPoint>)
        requires
            old(self).wf(),
        ensures
            final(self).wf(),
            final(self).spec_map() == paint(old(self).spec_map(), points@),
    {
        let mut i: usize = 0;
        while i < points.len()
            invariant
                i <= points@.len(),
                self.wf(),
                self.spec_map() == paint(old(self).spec_map(), points@.subrange(0, i as int)),
            decreases points.len() - i,
        {
            let (x, y, c) = points[i];
            self.set(x, y, c);
            assert(points@.subrange(0, i + 1).drop_last() =~= points@.subrange(0, i as int));
            i = i + 1;
        }
        assert(points@.subrange(0, points@.len() as int) =~= points@);
    }

    /// The cells and their characters, each cell once.
    pub fn entries(&self) -> (r: &[RenderPoint])
        ensures
            forall|i: int| 0 <= i < r@.len() ==> self.spec_map().dom().contains((r@[i].0, r@[i].1)),
            forall|p: (i32, i32)| self.spec_map().dom().contains(p) ==>
                exists|i: int| 0 <= i < r@.len() && r@[i].0 == p.0 && r@[i].1 == p.1,
    {
        self.cells.as_slice()
    }
}

} // verus!
