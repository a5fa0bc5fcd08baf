use vstd::prelude::*;
use crate::types::UILayout;

verus! {

/// `a - b`, or zero when `b` is larger.
pub open spec fn sat_sub(a: u16, b: u16) -> u16 {
    if a >= b { (a - b) as u16 } else { 0 }
}

/// The largest scroll offset that still fills a viewport of `viewport_height`
/// rows (two of them are borders) with `total_lines` lines.
pub open spec fn spec_max_scroll(viewport_height: u16, total_lines: u16) -> u16 {
    sat_sub(total_lines, sat_sub(viewport_height, 2))
}

/// The help modal's visibility and scroll offset.
pub struct HelpState {
    pub show: bool,
    pub scroll: u16,
}

impl HelpState {
    /// Hidden, at the top.
    pub fn new() -> (h: Self)
        ensures
            !h.show,
            h.scroll == 0,
    {
        HelpState { show: false, scroll: 0 }
    }

    /// Shows or hides the help; showing starts at the top.
    pub fn toggle(&mut self)
        ensures
            final(self).show == !old(self).show,
            final(self).scroll == (if final(self).show { 0 } else { old(self).scroll }),
    {
        self.show = !self.show;
        if self.show {
            self.scroll = 0;
        }
    }

    /// Scrolls one line up, stopping at the top.
    pub fn scroll_up(&mut self)
        ensures
            final(self).scroll == sat_sub(old(self).scroll, 1),
            final(self).show == old(self).show,
    {
        self.scroll = self.scroll.saturating_sub(1);
    }

    /// Scrolls one line down, stopping where the last line shows in a modal
    /// 60% as tall as the canvas.
    pub fn scroll_down(&mut self, layout: &UILayout, total_lines: u16)
        requires
            layout.canvas.height * 60 <= u16::MAX,
        ensures
            final(self).show == old(self).show,
            final(self).scroll == ({
                let max = spec_max_scroll(((layout.canvas.height * 60) / 100) as u16, total_lines);
                let next = if old(self).scroll < u16::MAX { (old(self).scroll + 1) as u16 } else { old(self).scroll };
                if next <= max { next } else { max }
            }),
    {
        let terminal_height = layout.canvas.height;
        let modal_height = (terminal_height * 60) / 100;
        let max_scroll = self.max_scroll(modal_height, total_lines);
        let next = self.scroll.saturating_add(1);
        self.scroll = if next <= max_scroll { next } else { max_scroll };
    }

    /// The largest scroll offset for the viewport and content.
    pub fn max_scroll(&self, viewport_height: u16, total_lines: u16) -> (r: u16)
        ensures
            r == spec_max_scroll(viewport_height, total_lines),
    {
        let visible_lines = viewport_height.saturating_sub(2);
        total_lines.saturating_sub(visible_lines)
    }
}

impl Default for HelpState {
    fn default() -> (h: Self)
        ensures
            !h.show,
            h.scroll == 0,
    {
        HelpState::new()
    }
}

/// Scrolling down never goes past the last full page.
pub proof fn lemma_scroll_down_bounded(scroll: u16, viewport: u16, total: u16)
    ensures
        ({
            let next = if scroll < u16::MAX { (scroll + 1) as u16 } else { scroll };
            let max = spec_max_scroll(viewport, total);
            (if next <= max { next } else { max }) <= max
        }),
{
}

} // verus!
