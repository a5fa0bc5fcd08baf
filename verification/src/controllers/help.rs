use vstd::prelude::*;
use crate::state::help::{sat_sub, spec_max_scroll, HelpState};
use crate::types::UILayout;

verus! {

/// Shows or hides the help; showing starts at the top.
pub fn toggle(help: &mut HelpState)
    ensures
        final(help).show == !old(help).show,
        final(help).scroll == (if final(help).show { 0 } else { old(help).scroll }),
{
    help.show = !help.show;
    if help.show {
        help.scroll = 0;
    }
}

/// Scrolls the help one line up.
pub fn scroll_up(help: &mut HelpState)
    ensures
        final(help).scroll == sat_sub(old(help).scroll, 1),
        final(help).show == old(help).show,
{
    help.scroll = help.scroll.saturating_sub(1);
}

/// Scrolls the help one line down within the help text in a modal 60% as tall as the canvas.
pub fn scroll_down(help: &mut HelpState, layout: &UILayout)
    requires
        layout.canvas.height * 60 <= u16::MAX,
    ensures
        final(help).show == old(help).show,
        final(help).scroll == ({
            let max = spec_max_scroll(((layout.canvas.height * 60) / 100) as u16, 40);
            let next = if old(help).scroll < u16::MAX { (old(help).scroll + 1) as u16 } else { old(help).scroll };
            if next <= max { next } else { max }
        }),
{
    help.scroll_down(layout, crate::components::help_line::HELP_LINE_COUNT);
}

} // verus!
