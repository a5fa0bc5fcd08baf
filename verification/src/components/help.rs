use vstd::prelude::*;
use crate::components::help_line::HELP_LINE_COUNT;
use crate::events::types::{KeyCode, KeyEvent, MouseEvent, MouseEventKind};
use crate::events::EventResult;
use crate::state::help::{sat_sub, spec_max_scroll};
use crate::state::AppState;
use crate::types::Rect;
use ratatui::layout::{Constraint, Layout, Rect as TuiRect};

verus! {

/// The middle of the three areas ratatui's `Layout` gives when it splits `r`
/// top to bottom by the percentages `a`, `b` and `c` of its height.
pub uninterp spec fn vertical_middle(r: Rect, a: u16, b: u16, c: u16) -> Rect;

/// The middle of the three areas ratatui's `Layout` gives when it splits `r`
/// left to right by the percentages `a`, `b` and `c` of its width.
pub uninterp spec fn horizontal_middle(r: Rect, a: u16, b: u16, c: u16) -> Rect;

/// `Layout::vertical` with three `Constraint::Percentage`s, `split`, middle area.
///
/// Claimed: that area is a function of `r` and the percentages alone, named
/// `vertical_middle`; the layout solver's rounding is not written out.
#[verifier::external_body]
fn split_vertical(r: Rect, a: u16, b: u16, c: u16) -> (m: Rect)
    ensures
        m == vertical_middle(r, a, b, c),
{
    let v = Layout::vertical([Constraint::Percentage(a), Constraint::Percentage(b), Constraint::Percentage(c)])
        .split(TuiRect { x: r.x, y: r.y, width: r.width, height: r.height });
    Rect { x: v[1].x, y: v[1].y, width: v[1].width, height: v[1].height }
}

/// `Layout::horizontal` with three `Constraint::Percentage`s, `split`, middle area.
///
/// Claimed: that area is a function of `r` and the percentages alone, named
/// `horizontal_middle`; the layout solver's rounding is not written out.
#[verifier::external_body]
fn split_horizontal(r: Rect, a: u16, b: u16, c: u16) -> (m: Rect)
    ensures
        m == horizontal_middle(r, a, b, c),
{
    let v = Layout::horizontal([Constraint::Percentage(a), Constraint::Percentage(b), Constraint::Percentage(c)])
        .split(TuiRect { x: r.x, y: r.y, width: r.width, height: r.height });
    Rect { x: v[1].x, y: v[1].y, width: v[1].width, height: v[1].height }
}

/// The area `percent_x` wide and `percent_y` high (in percent of `r`) in the
/// middle of `r`: the middle of three bands each way, the outer two sharing
/// what is left.
pub open spec fn centered_in(percent_x: u16, percent_y: u16, r: Rect) -> Rect {
    let side_y = ((100 - percent_y) / 2) as u16;
    let side_x = ((100 - percent_x) / 2) as u16;
    horizontal_middle(vertical_middle(r, side_y, percent_y, side_y), side_x, percent_x, side_x)
}

/// The help modal's scroll position over the help text.
pub struct HelpModal {
    scroll: u16,
}

/// The modal's viewport: 60% of the canvas height.
pub open spec fn help_viewport(state: AppState) -> u16 {
    ((state.layout.canvas.height * 60) / 100) as u16
}

/// The scroll offset after one step down, capped at the last full page.
pub open spec fn scrolled_down(scroll: u16, viewport: u16) -> u16 {
    let next = if scroll < u16::MAX { (scroll + 1) as u16 } else { scroll };
    let max = spec_max_scroll(viewport, 40);
    if next <= max { next } else { max }
}

impl HelpModal {
    /// The scroll offset.
    pub closed spec fn spec_scroll(&self) -> u16 {
        self.scroll
    }

    /// At the top.
    pub fn new() -> (m: Self)
        ensures
            m.spec_scroll() == 0,
    {
        HelpModal { scroll: 0 }
    }

    /// The scroll offset.
    pub fn scroll(&self) -> (r: u16)
        ensures
            r == self.spec_scroll(),
    {
        self.scroll
    }

    fn scroll_up(&mut self)
        ensures
            final(self).spec_scroll() == sat_sub(old(self).spec_scroll(), 1),
    {
        self.scroll = self.scroll.saturating_sub(1);
    }

    fn scroll_down(&mut self, viewport_height: u16)
        ensures
            final(self).spec_scroll() == scrolled_down(old(self).spec_scroll(), viewport_height),
    {
        let max_scroll = self.max_scroll_for_viewport(viewport_height);
        let next = self.scroll.saturating_add(1);
        self.scroll = if next <= max_scroll { next } else { max_scroll };
    }

    /// Where the scrollbar goes in the modal's `area`: the rightmost column,
    /// inside the top and bottom border.
    pub fn scrollbar_area(area: Rect) -> (r: Rect)
        requires
            1 <= area.x + area.width <= u16::MAX,
            area.y < u16::MAX,
        ensures
            r == (Rect {
                x: (area.x + area.width - 1) as u16,
                y: (area.y + 1) as u16,
                width: 1,
                height: if area.height >= 2 { (area.height - 2) as u16 } else { 0 },
            }),
    {
        Rect { x: area.x + area.width - 1, y: area.y + 1, width: 1, height: area.height.saturating_sub(2) }
    }

    /// The modal's area in `r` (see `centered_in`).
    pub fn centered_rect(percent_x: u16, percent_y: u16, r: Rect) -> (c: Rect)
        requires
            percent_x <= 100,
            percent_y <= 100,
        ensures
            c == centered_in(percent_x, percent_y, r),
    {
        let side_y = (100 - percent_y) / 2;
        let band = split_vertical(r, side_y, percent_y, side_y);
        let side_x = (100 - percent_x) / 2;
        split_horizontal(band, side_x, percent_x, side_x)
    }

    /// The largest scroll offset for a viewport of `viewport_height` rows.
    pub fn max_scroll_for_viewport(&self, viewport_height: u16) -> (r: u16)
        ensures
            r == spec_max_scroll(viewport_height, 40),
    {
        let visible_lines = viewport_height.saturating_sub(2);
        HELP_LINE_COUNT.saturating_sub(visible_lines)
    }

    /// What a key does to the help modal and the state, `c0`/`s0` to `c1`/`s1`, with result `r`.
    pub open spec fn key_done(c0: Self, c1: Self, s0: AppState, s1: AppState, ev: KeyEvent, r: EventResult) -> bool {
        &&& (s1 == s0)
        &&& (!s0.show_help ==> r == EventResult::Ignored && c1.spec_scroll() == c0.spec_scroll())
        &&& (s0.show_help ==> match ev.code {
            KeyCode::Up => r == EventResult::Consumed && c1.spec_scroll() == sat_sub(c0.spec_scroll(), 1),
            KeyCode::Down => r == EventResult::Consumed
                && c1.spec_scroll() == scrolled_down(c0.spec_scroll(), help_viewport(s0)),
            KeyCode::Char(c) => if c == 'k' {
                r == EventResult::Consumed && c1.spec_scroll() == sat_sub(c0.spec_scroll(), 1)
            } else if c == 'j' {
                r == EventResult::Consumed
                    && c1.spec_scroll() == scrolled_down(c0.spec_scroll(), help_viewport(s0))
            } else {
                r == EventResult::Ignored && c1.spec_scroll() == c0.spec_scroll()
            },
            _ => r == EventResult::Ignored && c1.spec_scroll() == c0.spec_scroll(),
        })
    }

    /// While the help shows, Up/`k` and Down/`j` scroll it.
    pub fn handle_key_event(&mut self, state: &mut AppState, key_event: &KeyEvent) -> (r: EventResult)
        requires
            old(state).layout.canvas.height * 60 <= u16::MAX,
        ensures
            Self::key_done(*old(self), *final(self), *old(state), *final(state), *key_event, r),
    {
        if !state.show_help {
            return EventResult::Ignored;
        }
        let up = match key_event.code {
            KeyCode::Up => Some(true),
            KeyCode::Down => Some(false),
            KeyCode::Char(c) => if c == 'k' { Some(true) } else if c == 'j' { Some(false) } else { None },
            _ => None,
        };
        match up {
            Some(true) => {
                self.scroll_up();
                EventResult::Consumed
            },
            Some(false) => {
                let viewport_height = (state.layout.canvas.height * 60) / 100;
                self.scroll_down(viewport_height);
                EventResult::Consumed
            },
            None => EventResult::Ignored,
        }
    }

    /// What a scroll does to the help modal and the state.
    pub open spec fn scroll_done(c0: Self, c1: Self, s0: AppState, s1: AppState, ev: MouseEvent, r: EventResult) -> bool {
        &&& (s1 == s0)
        &&& (!s0.show_help ==> r == EventResult::Ignored && c1.spec_scroll() == c0.spec_scroll())
        &&& (s0.show_help ==> match ev.kind {
            MouseEventKind::ScrollUp => r == EventResult::Consumed
                && c1.spec_scroll() == sat_sub(c0.spec_scroll(), 1),
            MouseEventKind::ScrollDown => r == EventResult::Consumed
                && c1.spec_scroll() == scrolled_down(c0.spec_scroll(), help_viewport(s0)),
            _ => r == EventResult::Ignored && c1.spec_scroll() == c0.spec_scroll(),
        })
    }

    /// While the help shows, the wheel scrolls it.
    pub fn handle_mouse_scroll(&mut self, state: &mut AppState, mouse_event: &MouseEvent) -> (r: EventResult)
        requires
            old(state).layout.canvas.height * 60 <= u16::MAX,
        ensures
            Self::scroll_done(*old(self), *final(self), *old(state), *final(state), *mouse_event, r),
    {
        if !state.show_help {
            return EventResult::Ignored;
        }
        match mouse_event.kind {
            MouseEventKind::ScrollUp => {
                self.scroll_up();
                EventResult::Consumed
            },
            MouseEventKind::ScrollDown => {
                let viewport_height = (state.layout.canvas.height * 60) / 100;
                self.scroll_down(viewport_height);
                EventResult::Consumed
            },
            _ => EventResult::Ignored,
        }
    }
}

} // verus!
