use vstd::prelude::*;
use crate::elements::line::RenderPoint;
use crate::types::{clamp_u16, Bounds, Coord};

verus! {

/// The byte length of a string.
pub open spec fn byte_len(s: Seq<char>) -> usize {
    vstd::utf8::encode_utf8(s).len() as usize
}

/// The bounds of a text: from its position across as many cells as the text
/// has bytes, clamped at the edge of the range.
pub open spec fn text_bounds(position: Coord, bytes: usize) -> Bounds {
    Bounds {
        min: position,
        max: Coord { x: clamp_u16(position.x + (bytes as u16)), y: position.y },
    }
}

/// The cells of a text: one character per column from the position.
pub open spec fn text_cells(position: Coord, text: Seq<char>) -> Seq<RenderPoint> {
    Seq::new(text.len(), |i: int| ((position.x + i) as i32, position.y as i32, text[i]))
}

/// A single line of text placed on the canvas.
#[derive(Debug, Clone)]
pub struct TextElement {
    pub id: usize,
    pub name: String,
    pub position: Coord,
    pub text: String,
    pub bounds: Bounds,
}

impl TextElement {
    /// A text named "Text <id + 1>".
    pub fn new(id: usize, position: Coord, text: String) -> (t: Self)
        requires
            id < usize::MAX,
        ensures
            t.id == id,
            t.name@ == "Text "@ + crate::text::decimal((id + 1) as nat),
            t.position == position,
            t.text@ == text@,
            t.bounds == text_bounds(position, byte_len(text@)),
    {
        let name = crate::text::numbered("Text ", id + 1);
        let width = text.as_str().len() as u16;
        let bounds = Bounds {
            min: position,
            max: Coord { x: position.x.saturating_add(width), y: position.y },
        };
        TextElement { id, name, position, text, bounds }
    }

    /// Moves the position and the bounds by `(dx, dy)`.
    pub fn translate(&mut self, dx: i32, dy: i32)
        ensures
            final(self).position == (Coord {
                x: clamp_u16(old(self).position.x + dx),
                y: clamp_u16(old(self).position.y + dy),
            }),
            final(self).bounds == crate::elements::segment::bounds_translated(old(self).bounds, dx, dy),
            final(self).id == old(self).id,
            final(self).name == old(self).name,
            final(self).text == old(self).text,
    {
        self.position.translate(dx, dy);
        self.bounds.translate(dx, dy);
    }

    /// The characters of the text, one per column from the position.
    pub fn render_points(&self) -> (r: Vec<RenderPoint>)
        requires
            self.position.x + self.text@.len() <= i32::MAX,
        ensures
            r@ == text_cells(self.position, self.text@),
    {
        let chars = crate::text::chars_of(self.text.as_str());
        let x = self.position.x as i32;
        let y = self.position.y as i32;
        let mut points: Vec<RenderPoint> = Vec::new();
        let mut i: usize = 0;
        while i < chars.len()
            invariant
                chars@ == self.text@,
                i <= chars@.len(),
                self.position.x + chars@.len() <= i32::MAX,
                x == self.position.x,
                y == self.position.y,
                points@ == Seq::new(i as nat, |j: int| ((self.position.x + j) as i32, self.position.y as i32, self.text@[j])),
            decreases chars.len() - i,
        {
            points.push((x + i as i32, y, chars[i]));
            assert(points@ =~= Seq::new((i + 1) as nat, |j: int|
                ((self.position.x + j) as i32, self.position.y as i32, self.text@[j])));
            i = i + 1;
        }
        points
    }
}

} // verus!
