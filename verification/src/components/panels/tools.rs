use vstd::prelude::*;
use crate::events::types::{KeyCode, KeyEvent, MouseEvent};
use crate::events::EventResult;
use crate::state::{same_but_tool, tool_selected, AppState};
use crate::state::tool::fresh_for;
use crate::tools::{tool_for_key, tool_index, tool_order, Tool};
use crate::types::Panel;
use crate::utils::{bottom_left_rect, ModalArea};
use crate::styles::{fg_look, plain_look, runs_view, spaces, styled, Hue, Look, Styled};
use crate::text::{push_str, string_push};
use crate::tools::{tool_key, tool_name};

verus! {

/// The tools modal's width.
pub const MODAL_WIDTH: u16 = 25;

/// The tools modal's height.
pub const MODAL_HEIGHT: u16 = 13;

/// The tools modal for a canvas area.
pub fn get_modal_area(canvas_area: crate::types::Rect) -> (m: ModalArea)
    ensures
        m.area == bottom_left_rect(canvas_area, 25, 13),
{
    ModalArea::bottom_left(canvas_area, MODAL_WIDTH, MODAL_HEIGHT)
}

/// The tool listed on content row `row`.
pub fn detect_tool_click(row: usize) -> (r: Option<Tool>)
    ensures
        r == (if row < 5 { Some(tool_order()[row as int]) } else { None }),
{
    let tools = Tool::all();
    if row < tools.len() { Some(tools[row]) } else { None }
}

/// Whether content row `row` is the lock line (after the tools, a blank line
/// and a separator).
pub fn is_lock_click(row: usize) -> (r: bool)
    ensures
        r == (row == 7),
{
    row == Tool::all().len() + 2
}

/// `after` is `before` with the tool at `idx` chosen, fresh, by moving
/// through the list; nothing else changes.
pub open spec fn tool_moved(before: AppState, after: AppState, idx: usize) -> bool {
    &&& after.tool.tool_index == idx
    &&& after.tool.selected_tool == tool_order()[idx as int]
    &&& fresh_for(after.tool.active_tool, after.tool.selected_tool)
    &&& after.tool.tool_locked == before.tool.tool_locked
    &&& same_but_tool(before, after)
}

/// `after` is `before` with the tool lock flipped; nothing else changes.
pub open spec fn lock_toggled(before: AppState, after: AppState) -> bool {
    &&& after.tool.tool_locked == !before.tool.tool_locked
    &&& after.tool.selected_tool == before.tool.selected_tool
    &&& after.tool.tool_index == before.tool.tool_index
    &&& after.tool.active_tool == before.tool.active_tool
    &&& same_but_tool(before, after)
}

/// What a key does to the tools modal, `before` to `after`: only while the
/// modal is shown and active. Esc or Space closes it and returns to the
/// canvas, Enter closes it, Up/`k` and Down/`j` move through the tools
/// (wrapping), Tab/`x` toggles the lock, a tool's key chooses that tool.
/// The chosen tool is kept when the modal closes; keys not taken change nothing.
pub open spec fn tools_key_done(before: AppState, after: AppState, key: KeyEvent, r: EventResult) -> bool {
    let prev: usize = if before.tool.tool_index == 0 { 4 } else { (before.tool.tool_index - 1) as usize };
    let next: usize = ((before.tool.tool_index + 1) % 5) as usize;
    let closed = AppState { show_tools_modal: false, active_panel: Panel::Canvas, ..before };
    if !before.show_tools_modal || before.active_panel != Panel::Tools {
        r == EventResult::Ignored && after == before
    } else {
        match key.code {
            KeyCode::Esc => r == EventResult::Consumed && after == closed,
            KeyCode::Up => r == EventResult::Consumed && tool_moved(before, after, prev),
            KeyCode::Down => r == EventResult::Consumed && tool_moved(before, after, next),
            KeyCode::Enter => r == EventResult::Consumed && after == (AppState { show_tools_modal: false, ..before }),
            KeyCode::Tab => r == EventResult::Consumed && lock_toggled(before, after),
            KeyCode::Char(c) => if c == ' ' {
                r == EventResult::Consumed && after == closed
            } else if c == 'k' {
                r == EventResult::Consumed && tool_moved(before, after, prev)
            } else if c == 'j' {
                r == EventResult::Consumed && tool_moved(before, after, next)
            } else if c == 'x' {
                r == EventResult::Consumed && lock_toggled(before, after)
            } else if tool_for_key(c) is Some {
                r == EventResult::Consumed && tool_selected(before, after, tool_for_key(c)->0)
            } else {
                r == EventResult::Ignored && after == before
            },
            _ => r == EventResult::Ignored && after == before,
        }
    }
}

/// The tools modal: choose a tool, lock it.
pub struct ToolsPanel;

impl ToolsPanel {
    /// The panel.
    pub fn new() -> (p: Self)
        ensures
            p == ToolsPanel,
    {
        ToolsPanel
    }

    /// Keys while the modal is shown and active: Esc or Space closes it (and
    /// returns to the canvas), Up/`k` and Down/`j` move through the tools,
    /// Enter closes it, Tab/`x` toggles the lock, a tool's key chooses it.
    pub fn handle_key_event(&mut self, state: &mut AppState, key_event: &KeyEvent) -> (r: EventResult)
        requires
            old(state).tool.wf(),
        ensures
            tools_key_done(*old(state), *final(state), *key_event, r),
    {
        if !state.show_tools_modal || state.active_panel != Panel::Tools {
            return EventResult::Ignored;
        }
        match key_event.code {
            KeyCode::Esc => {
                state.toggle_tools_modal();
                if !state.show_tools_modal {
                    state.switch_panel(Panel::Canvas);
                }
                EventResult::Consumed
            },
            KeyCode::Up => {
                state.select_prev_tool();
                EventResult::Consumed
            },
            KeyCode::Down => {
                state.select_next_tool();
                EventResult::Consumed
            },
            KeyCode::Enter => {
                state.toggle_tools_modal();
                EventResult::Consumed
            },
            KeyCode::Tab => {
                state.toggle_tool_lock();
                EventResult::Consumed
            },
            KeyCode::Char(c) => {
                if c == ' ' {
                    state.toggle_tools_modal();
                    if !state.show_tools_modal {
                        state.switch_panel(Panel::Canvas);
                    }
                    EventResult::Consumed
                } else if c == 'k' {
                    state.select_prev_tool();
                    EventResult::Consumed
                } else if c == 'j' {
                    state.select_next_tool();
                    EventResult::Consumed
                } else if c == 'x' {
                    state.toggle_tool_lock();
                    EventResult::Consumed
                } else {
                    match Tool::from_key(c) {
                        Some(tool) => {
                            state.select_tool(tool);
                            EventResult::Consumed
                        },
                        None => EventResult::Ignored,
                    }
                }
            },
            _ => EventResult::Ignored,
        }
    }

    /// What a press does to the tools modal and the state.
    pub open spec fn down_done(c0: Self, c1: Self, s0: AppState, s1: AppState, ev: MouseEvent, r: EventResult) -> bool {
        &&& (({
            let m = bottom_left_rect(s0.layout.canvas, 25, 13);
            if !s0.show_tools_modal || !m.spec_contains(ev.column as int, ev.row as int) {
                r == EventResult::Ignored && s1 == s0
            } else {
                let row = if ev.row >= m.y + 1 { ev.row - m.y - 1 } else { 0 };
                let activated = AppState { active_panel: Panel::Tools, ..s0 };
                if row == 7 {
                    r == EventResult::Consumed && lock_toggled(activated, s1)
                } else if row < 5 {
                    r == EventResult::Consumed && tool_selected(activated, s1, tool_order()[row as int])
                } else {
                    r == EventResult::Ignored && s1 == activated
                }
            }
        }))
    }

    /// A press on the shown modal activates the tools panel; on the lock line
    /// it toggles the lock, on a tool's line it chooses the tool.
    pub fn handle_mouse_down(&mut self, state: &mut AppState, mouse_event: &MouseEvent) -> (r: EventResult)
        ensures
            Self::down_done(*old(self), *final(self), *old(state), *final(state), *mouse_event, r),
    {
        if !state.show_tools_modal {
            return EventResult::Ignored;
        }
        let modal_area = get_modal_area(state.layout.canvas);
        if !modal_area.contains(mouse_event.column, mouse_event.row) {
            return EventResult::Ignored;
        }
        state.switch_panel(Panel::Tools);
        let content_row = modal_area.content_relative_y(mouse_event.row) as usize;
        if is_lock_click(content_row) {
            state.toggle_tool_lock();
            return EventResult::Consumed;
        }
        if let Some(tool) = detect_tool_click(content_row) {
            state.select_tool(tool);
            return EventResult::Consumed;
        }
        EventResult::Ignored
    }
}

/// The runs of one line of the modal.
pub open spec fn lines_view(lines: Seq<Vec<Styled>>) -> Seq<Seq<(Seq<char>, Look)>> {
    lines.map_values(|l: Vec<Styled>| runs_view(l@))
}

/// A tool's line: its key in a four-column cell, its name, and blanks to the
/// modal's inner width; the chosen tool on a grey band with a yellow name.
pub open spec fn tool_line(tool: Tool, selected: bool) -> Seq<(Seq<char>, Look)> {
    let key = tool_key(tool);
    let shown_key = if key == '\0' { spaces(4) } else { "  "@ + seq![key] + " "@ };
    let name = tool_name(tool);
    let grey = Look { fg: None, bg: Some(Hue::DarkGray), bold: false };
    seq![
        (shown_key, if selected { Look { fg: Some(Hue::Cyan), bg: Some(Hue::DarkGray), bold: false } } else { fg_look(Hue::Cyan) }),
        (name, if selected { Look { fg: Some(Hue::Yellow), bg: Some(Hue::DarkGray), bold: false } } else { plain_look() }),
        (spaces(25 - (4 + name.len() + 2)), if selected { grey } else { plain_look() }),
    ]
}

/// The lock line: a box, ticked and green when the tool is locked.
pub open spec fn lock_line(locked: bool) -> Seq<(Seq<char>, Look)> {
    seq![
        (if locked { "[x]"@ } else { "[ ]"@ }, if locked { fg_look(Hue::Green) } else { plain_look() }),
        (" Lock tool"@, plain_look()),
    ]
}

/// An empty line.
pub open spec fn empty_line() -> Seq<(Seq<char>, Look)> {
    seq![(Seq::<char>::empty(), plain_look())]
}

/// `n` box-drawing dashes.
pub open spec fn dashes(n: nat) -> Seq<char> {
    Seq::new(n, |i: int| '─')
}

/// The modal's lines: a blank, one line per tool, a blank, a rule, the lock.
pub open spec fn tools_lines(selected: Tool, locked: bool) -> Seq<Seq<(Seq<char>, Look)>> {
    seq![empty_line()]
        + Seq::new(5, |i: int| tool_line(tool_order()[i], tool_order()[i] == selected))
        + seq![empty_line(), seq![(dashes(23), plain_look())], lock_line(locked)]
}

fn push_spaces(s: &mut String, n: usize)
    ensures
        final(s)@ == old(s)@ + spaces(n as int),
{
    let mut i: usize = 0;
    while i < n
        invariant
            i <= n,
            s@ == old(s)@ + spaces(i as int),
        decreases n - i,
    {
        string_push(s, ' ');
        i = i + 1;
    }
}

/// One tool's line of the modal.
pub fn render_tool_line(tool: Tool, is_selected: bool) -> (r: Vec<Styled>)
    ensures
        runs_view(r@) == tool_line(tool, is_selected),
{
    let key = tool.key();
    let name = tool.name();
    let mut shown = String::new();
    if key == '\0' {
        push_spaces(&mut shown, 4);
    } else {
        push_str(&mut shown, "  ");
        string_push(&mut shown, key);
        string_push(&mut shown, ' ');
    }
    let (key_look, name_look, band) = if is_selected {
        (
            Look { fg: Some(Hue::Cyan), bg: Some(Hue::DarkGray), bold: false },
            Look { fg: Some(Hue::Yellow), bg: Some(Hue::DarkGray), bold: false },
            Look { fg: None, bg: Some(Hue::DarkGray), bold: false },
        )
    } else {
        (Look::fg(Hue::Cyan), Look::plain(), Look::plain())
    };
    proof {
        reveal_strlit("Select");
        reveal_strlit("Line");
        reveal_strlit("Rectangle");
        reveal_strlit("Arrow");
        reveal_strlit("Text");
    }
    let width = 4 + name.unicode_len();
    let pad = (MODAL_WIDTH as usize).saturating_sub(width + 2);
    let mut blanks = String::new();
    push_spaces(&mut blanks, pad);
    let mut r: Vec<Styled> = Vec::new();
    r.push(styled(shown, key_look));
    r.push(styled(String::from_str(name), name_look));
    r.push(styled(blanks, band));
    proof {
        reveal_strlit("  ");
        reveal_strlit(" ");
        reveal_strlit("Select");
        reveal_strlit("Line");
        reveal_strlit("Rectangle");
        reveal_strlit("Arrow");
        reveal_strlit("Text");
        assert(spaces(4) =~= spaces(4));
    }
    assert(key != '\0' ==> shown@ =~= "  "@ + seq![key] + " "@);
    assert(r@[0].text@ == (if key == '\0' { spaces(4) } else { "  "@ + seq![key] + " "@ }));
    assert(r@[1].text@ == tool_name(tool));
    assert(r@[2].text@ == spaces(25 - (4 + tool_name(tool).len() + 2)));
    assert(runs_view(r@) =~= tool_line(tool, is_selected));
    r
}

/// The lock line of the modal.
pub fn render_lock_line(is_locked: bool) -> (r: Vec<Styled>)
    ensures
        runs_view(r@) == lock_line(is_locked),
{
    let mut r: Vec<Styled> = Vec::new();
    if is_locked {
        r.push(styled(String::from_str("[x]"), Look::fg(Hue::Green)));
    } else {
        r.push(styled(String::from_str("[ ]"), Look::plain()));
    }
    r.push(styled(String::from_str(" Lock tool"), Look::plain()));
    assert(runs_view(r@) =~= lock_line(is_locked));
    r
}

fn render_empty_line() -> (r: Vec<Styled>)
    ensures
        runs_view(r@) == empty_line(),
{
    let mut r: Vec<Styled> = Vec::new();
    r.push(styled(String::new(), Look::plain()));
    assert(runs_view(r@) =~= empty_line());
    r
}

impl ToolsPanel {
    /// The modal while it is shown: where it stands, its lines and its
    /// border's look (green while the tools panel is active, grey otherwise).
    pub fn draw(&self, state: &AppState) -> (r: Option<(ModalArea, Vec<Vec<Styled>>, Look)>)
        ensures
            match r {
                None => !state.show_tools_modal,
                Some((m, lines, border)) => {
                    &&& state.show_tools_modal
                    &&& m.area == bottom_left_rect(state.layout.canvas, 25, 13)
                    &&& lines_view(lines@) == tools_lines(state.tool.selected_tool, state.tool.tool_locked)
                    &&& border == fg_look(if state.active_panel == Panel::Tools { Hue::Green } else { Hue::DarkGray })
                },
            },
    {
        if !state.show_tools_modal {
            return None;
        }
        let area = get_modal_area(state.layout.canvas);
        let mut lines: Vec<Vec<Styled>> = Vec::new();
        lines.push(render_empty_line());
        let tools = Tool::all();
        let mut i: usize = 0;
        while i < tools.len()
            invariant
                tools@ == tool_order(),
                i <= 5,
                lines_view(lines@) == seq![empty_line()]
                    + Seq::new(i as nat, |k: int| tool_line(tool_order()[k], tool_order()[k] == state.tool.selected_tool)),
            decreases tools.len() - i,
        {
            let t = tools[i];
            let line = render_tool_line(t, state.tool.selected_tool == t);
            let ghost prev = lines@;
            lines.push(line);
            proof {
                assert(lines@ == prev.push(line));
                assert(lines_view(prev.push(line)) =~= lines_view(prev).push(runs_view(line@)));
                let f = |k: int| tool_line(tool_order()[k], tool_order()[k] == state.tool.selected_tool);
                assert(Seq::new((i + 1) as nat, f) =~= Seq::new(i as nat, f).push(f(i as int)));
                assert(seq![empty_line()] + Seq::new((i + 1) as nat, f) =~= (seq![empty_line()] + Seq::new(i as nat, f)).push(f(i as int)));
            }
            i = i + 1;
        }
        let ghost before_tail = lines@;
        let blank = render_empty_line();
        lines.push(blank);
        let mut rule = String::new();
        let mut k: usize = 0;
        while k < (MODAL_WIDTH - 2) as usize
            invariant
                k <= 23,
                rule@ == dashes(k as nat),
            decreases 23 - k,
        {
            string_push(&mut rule, '─');
            assert(rule@ =~= dashes((k + 1) as nat));
            k = k + 1;
        }
        let mut rule_line: Vec<Styled> = Vec::new();
        rule_line.push(styled(rule, Look::plain()));
        let lock = render_lock_line(state.tool.tool_locked);
        assert(runs_view(rule_line@) =~= seq![(dashes(23), plain_look())]);
        lines.push(rule_line);
        lines.push(lock);
        proof {
            assert(lines@ == before_tail.push(blank).push(rule_line).push(lock));
            assert(lines_view(lines@) =~= lines_view(before_tail).push(runs_view(blank@)).push(runs_view(rule_line@)).push(runs_view(lock@)));
        }
        assert(lines_view(lines@) =~= tools_lines(state.tool.selected_tool, state.tool.tool_locked));
        let border = Look::fg(if state.active_panel == Panel::Tools { Hue::Green } else { Hue::DarkGray });
        Some((area, lines, border))
    }
}

} // verus!
