use vstd::prelude::*;
use crate::elements::line::RenderPoint;
use crate::elements::text::{byte_len, text_cells, TextElement};
use crate::elements::Element;
use crate::events::types::{KeyCode, KeyEvent, MouseEvent};
use crate::events::{ActionType, EventResult};
use crate::state::canvas::{adds, CanvasState};
use crate::text::{string_pop, string_push};
use crate::tools::{pair_coord, text_view};
use crate::types::Coord;

verus! {

/// The text tool: click to place, type, and commit.
pub struct TextTool {
    position: Option<(u16, u16)>,
    text: String,
}

/// The text tool's preview: the typed characters from the position, then a
/// cursor block right after the text's bytes.
pub open spec fn text_preview(position: (u16, u16), text: Seq<char>) -> Seq<RenderPoint> {
    text_cells(pair_coord(position), text).push(((position.0 + byte_len(text)) as i32, position.1 as i32, '█'))
}

impl TextTool {
    /// Where the text goes, once placed.
    pub closed spec fn spec_position(&self) -> Option<(u16, u16)> {
        self.position
    }

    /// What has been typed.
    pub closed spec fn spec_text(&self) -> Seq<char> {
        self.text@
    }

    /// Whether the tool holds nothing.
    pub open spec fn is_reset(&self) -> bool {
        self.spec_position() is None && self.spec_text().len() == 0
    }

    /// Whether `r` is what the tool shows while drawing.
    pub open spec fn shows_preview(self, r: Seq<RenderPoint>) -> bool {
        &&& match self.spec_position() {
            Some(p) => r == text_preview(p, self.spec_text()),
            None => r.len() == 0
        }
    }

    /// What a mouse press does to the tool and the canvas.
    pub open spec fn down_step(self, after: Self, cb: CanvasState, ca: CanvasState, ev: MouseEvent, r: EventResult) -> bool {
        &&& r == EventResult::Consumed
        &&& ca == cb
        &&& after.spec_position() == Some((ev.column, ev.row))
        &&& after.spec_text().len() == 0
    }

    /// What a mouse move does to the tool and the canvas.
    pub open spec fn moved_step(self, after: Self, cb: CanvasState, ca: CanvasState, ev: MouseEvent, r: EventResult) -> bool {
        &&& r == EventResult::Ignored
        &&& ca == cb
        &&& after == self
    }

    /// What a mouse drag does to the tool and the canvas.
    pub open spec fn drag_step(self, after: Self, cb: CanvasState, ca: CanvasState, ev: MouseEvent, r: EventResult) -> bool {
        &&& r == EventResult::Ignored
        &&& ca == cb
        &&& after == self
    }

    /// What a mouse release does to the tool and the canvas.
    pub open spec fn up_step(self, after: Self, cb: CanvasState, ca: CanvasState, ev: MouseEvent, r: EventResult) -> bool {
        &&& r == EventResult::Consumed
        &&& after.is_reset()
        &&& match self.spec_position() {
            Some(p) => if self.spec_text().len() > 0 {
                &&& ca.spec_next_id() == cb.spec_next_id() + 1
                &&& adds(cb.spec_elements(), ca.spec_elements(),
                    text_view(cb.spec_next_id(), pair_coord(p), self.spec_text()))
            } else {
                ca == cb
            },
            None => ca == cb
        }
    }

    /// Whether the preview's columns fit in an `i32`.
    pub open spec fn preview_fits(&self) -> bool {
        self.spec_position() is Some ==> {
            let p = pair_coord(self.spec_position()->0);
            &&& p.x + self.spec_text().len() <= i32::MAX
            &&& p.x + byte_len(self.spec_text()) <= i32::MAX
        }
    }

    /// A tool with nothing placed.
    pub fn new() -> (t: Self)
        ensures
            t.is_reset(),
    {
        TextTool { position: None, text: String::new() }
    }

    /// Types one character.
    pub fn add_char(&mut self, c: char)
        ensures
            final(self).spec_text() == old(self).spec_text().push(c),
            final(self).spec_position() == old(self).spec_position(),
    {
        string_push(&mut self.text, c);
    }

    /// Deletes the last typed character, if any.
    pub fn backspace(&mut self)
        ensures
            final(self).spec_text() == (if old(self).spec_text().len() == 0 {
                old(self).spec_text()
            } else {
                old(self).spec_text().drop_last()
            }),
            final(self).spec_position() == old(self).spec_position(),
    {
        let _ = string_pop(&mut self.text);
    }

    /// What has been typed.
    pub fn get_text(&self) -> (r: &str)
        ensures
            r@ == self.spec_text(),
    {
        self.text.as_str()
    }

    fn clear(&mut self)
        ensures
            final(self).is_reset(),
    {
        self.position = None;
        self.text = String::new();
    }

    /// Adds the typed text at its position, unless nothing was typed; then
    /// the tool holds nothing.
    fn commit(&mut self, state: &mut CanvasState)
        requires
            old(state).spec_next_id() < usize::MAX,
        ensures
            final(self).is_reset(),
            match old(self).spec_position() {
                Some(p) => if old(self).spec_text().len() > 0 {
                    &&& final(state).spec_next_id() == old(state).spec_next_id() + 1
                    &&& adds(old(state).spec_elements(), final(state).spec_elements(),
                        text_view(old(state).spec_next_id(), pair_coord(p), old(self).spec_text()))
                } else {
                    *final(state) == *old(state)
                },
                None => *final(state) == *old(state),
            },
    {
        if let Some((px, py)) = self.position {
            if self.text.as_str().unicode_len() > 0 {
                let id = state.get_next_id();
                let text = self.text.clone();
                let elem = TextElement::new(id, Coord { x: px, y: py }, text);
                state.add_element(Element::Text(elem));
                assert(final(state).spec_elements().drop_last() =~= old(state).spec_elements());
            }
        }
        self.clear();
    }

    /// Mouse press: places the text here and starts it empty.
    pub fn handle_mouse_down(&mut self, state: &mut CanvasState, mouse_event: &MouseEvent) -> (r: EventResult)
        ensures
            old(self).down_step(*final(self), *old(state), *final(state), *mouse_event, r),
    {
        self.position = Some((mouse_event.column, mouse_event.row));
        self.text = String::new();
        EventResult::Consumed
    }

    /// Mouse drag: the text tool does not drag.
    pub fn handle_mouse_drag(&mut self, state: &mut CanvasState, mouse_event: &MouseEvent) -> (r: EventResult)
        ensures
            old(self).drag_step(*final(self), *old(state), *final(state), *mouse_event, r),
    {
        EventResult::Ignored
    }

    /// Mouse move: the text tool does not follow the pointer.
    pub fn handle_mouse_moved(&mut self, state: &mut CanvasState, mouse_event: &MouseEvent) -> (r: EventResult)
        ensures
            old(self).moved_step(*final(self), *old(state), *final(state), *mouse_event, r),
    {
        EventResult::Ignored
    }

    /// Commit: adds the typed text as a text element, unless it is empty.
    pub fn handle_mouse_up(&mut self, state: &mut CanvasState, mouse_event: &MouseEvent) -> (r: EventResult)
        requires
            old(state).spec_next_id() < usize::MAX,
        ensures
            old(self).up_step(*final(self), *old(state), *final(state), *mouse_event, r),
    {
        self.commit(state);
        EventResult::Consumed
    }

    /// What a key does while text is typed: characters are added, Backspace
    /// removes the last one, Enter commits the text and Esc drops it; other keys
    /// are swallowed. Without text in progress keys pass on.
    pub open spec fn key_step(self, after: Self, cb: CanvasState, ca: CanvasState, key: KeyEvent, r: EventResult) -> bool {
        if self.spec_position() is None {
            r == EventResult::Ignored && after == self && ca == cb
        } else {
            match key.code {
                KeyCode::Char(c) => r == EventResult::Consumed && ca == cb
                    && after.spec_text() == self.spec_text().push(c) && after.spec_position() == self.spec_position(),
                KeyCode::Backspace => r == EventResult::Consumed && ca == cb
                    && after.spec_position() == self.spec_position()
                    && after.spec_text() == (if self.spec_text().len() == 0 { self.spec_text() } else { self.spec_text().drop_last() }),
                KeyCode::Enter => {
                    &&& after.is_reset()
                    &&& if self.spec_text().len() > 0 {
                        &&& r == EventResult::Action(ActionType::FinishedDrawing)
                        &&& ca.spec_next_id() == cb.spec_next_id() + 1
                        &&& adds(cb.spec_elements(), ca.spec_elements(),
                            text_view(cb.spec_next_id(), pair_coord(self.spec_position()->0), self.spec_text()))
                    } else {
                        r == EventResult::Consumed && ca == cb
                    }
                },
                KeyCode::Esc => r == EventResult::Consumed && after.is_reset() && ca == cb,
                _ => r == EventResult::Consumed && after == self && ca == cb,
            }
        }
    }

    /// Handles a key while text is typed.
    pub fn handle_key_event(&mut self, state: &mut CanvasState, key_event: &KeyEvent) -> (r: EventResult)
        requires
            old(state).spec_next_id() < usize::MAX,
        ensures
            old(self).key_step(*final(self), *old(state), *final(state), *key_event, r),
    {
        if self.position.is_none() {
            return EventResult::Ignored;
        }
        match key_event.code {
            KeyCode::Char(c) => {
                self.add_char(c);
                EventResult::Consumed
            },
            KeyCode::Backspace => {
                self.backspace();
                EventResult::Consumed
            },
            KeyCode::Enter => {
                let had_text = self.text.as_str().unicode_len() > 0;
                self.commit(state);
                if had_text { EventResult::Action(ActionType::FinishedDrawing) } else { EventResult::Consumed }
            },
            KeyCode::Esc => {
                self.clear();
                EventResult::Consumed
            },
            _ => EventResult::Consumed,
        }
    }

    /// Whether the preview stays inside the `i32` range (see `preview_fits`).
    pub fn fits_preview(&self) -> (r: bool)
        ensures
            r == self.preview_fits(),
    {
        match self.position {
            Some((px, _)) => {
                let chars = self.text.as_str().unicode_len() as u128;
                let bytes = self.text.as_str().len() as u128;
                (px as u128) + chars <= 0x7fff_ffff && (px as u128) + bytes <= 0x7fff_ffff
            },
            None => true,
        }
    }

    /// The typed text with a cursor block after it.
    pub fn preview_points(&self) -> (r: Vec<RenderPoint>)
        requires
            self.preview_fits(),
        ensures
            self.shows_preview(r@),
    {
        match self.position {
            Some((px, py)) => {
                let chars = crate::text::chars_of(self.text.as_str());
                let x = px as i32;
                let y = py as i32;
                let mut points: Vec<RenderPoint> = Vec::new();
                let mut i: usize = 0;
                while i < chars.len()
                    invariant
                        chars@ == self.text@,
                        i <= chars@.len(),
                        px + chars@.len() <= i32::MAX,
                        x == px,
                        y == py,
                        points@ == text_cells(Coord { x: px, y: py }, self.text@).subrange(0, i as int),
                    decreases chars.len() - i,
                {
                    points.push((x + i as i32, y, chars[i]));
                    assert(points@ =~= text_cells(Coord { x: px, y: py }, self.text@).subrange(0, i + 1));
                    i = i + 1;
                }
                assert(points@ =~= text_cells(Coord { x: px, y: py }, self.text@));
                let bytes = self.text.as_str().len() as i32;
                points.push((x + bytes, y, '█'));
                points
            },
            None => Vec::new(),
        }
    }

    /// Commits the typed text, as a release does.
    pub fn finish(&mut self, state: &mut CanvasState)
        requires
            old(state).spec_next_id() < usize::MAX,
        ensures
            final(self).is_reset(),
            match old(self).spec_position() {
                Some(p) => if old(self).spec_text().len() > 0 {
                    &&& final(state).spec_next_id() == old(state).spec_next_id() + 1
                    &&& adds(old(state).spec_elements(), final(state).spec_elements(),
                        text_view(old(state).spec_next_id(), pair_coord(p), old(self).spec_text()))
                } else {
                    *final(state) == *old(state)
                },
                None => *final(state) == *old(state),
            },
    {
        self.commit(state);
    }

    /// Drops the text without drawing it.
    pub fn cancel(&mut self)
        ensures
            final(self).is_reset(),
    {
        self.clear();
    }

    /// Whether text is being typed.
    pub fn is_drawing(&self) -> (r: bool)
        ensures
            r == self.spec_position() is Some,
    {
        self.position.is_some()
    }
}

impl Default for TextTool {
    fn default() -> (t: Self)
        ensures
            t.is_reset(),
    {
        TextTool::new()
    }
}

} // verus!
