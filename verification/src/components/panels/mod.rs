pub mod tools;
pub mod properties;

use vstd::prelude::*;
use crate::state::AppState;
use crate::styles::{fg_look, plain_look, Hue, Look};
use crate::types::Panel;

verus! {

/// A panel's title and border look: green while it is the active panel and
/// the help is not shown, plain otherwise.
pub fn create_panel_block(title: &str, panel: Panel, state: &AppState) -> (r: (String, Look))
    ensures
        r.0@ == title@,
        r.1 == (if !state.show_help && panel == state.active_panel { fg_look(Hue::Green) } else { plain_look() }),
{
    let look = if !state.show_help && panel == state.active_panel { Look::fg(Hue::Green) } else { Look::plain() };
    (String::from_str(title), look)
}

} // verus!
