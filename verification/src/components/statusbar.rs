use vstd::prelude::*;
use crate::state::AppState;
use crate::text::{chars_of, decimal, push_decimal, push_str, string_from_chars, string_push};
use crate::state::command::CommandState;
use crate::styles::{plain_look, runs_view, styled, Look, Styled};
use crate::components::panels::create_panel_block;
use crate::types::Panel;
use crate::tools::{tool_name, Tool};

verus! {

/// `n` blanks.
pub open spec fn blanks(n: nat) -> Seq<char> {
    Seq::new(n, |i: int| ' ')
}

/// `text` centred in `width` columns (left gets the smaller half of the
/// padding); text at least as wide stays as it is.
pub open spec fn centered(text: Seq<char>, width: nat) -> Seq<char> {
    if text.len() >= width {
        text
    } else {
        let pad = (width - text.len()) as nat;
        blanks(pad / 2) + text + blanks((pad - pad / 2) as nat)
    }
}

/// What the status bar's mode badge shows.
#[derive(Debug, Clone, Copy, PartialEq, Eq, Structural)]
pub enum BadgeKind {
    Select,
    Draw,
    EditTable,
}

/// The badge's text and kind: the table-editing mode or the chosen tool,
/// centred in the width of the longest tool name and set off by blanks.
pub open spec fn badge(editing_table: bool, tool: Tool) -> (Seq<char>, BadgeKind) {
    if editing_table {
        (seq![' '] + centered("EDIT TABLE"@, 9) + seq![' '], BadgeKind::EditTable)
    } else {
        (seq![' '] + centered(tool_name(tool), 9) + seq![' '],
            if tool == Tool::Select { BadgeKind::Select } else { BadgeKind::Draw })
    }
}

fn push_blanks(s: &mut String, n: usize)
    ensures
        final(s)@ == old(s)@ + blanks(n as nat),
{
    let mut i: usize = 0;
    while i < n
        invariant
            i <= n,
            s@ == old(s)@ + blanks(i as nat),
        decreases n - i,
    {
        string_push(s, ' ');
        assert(s@ =~= old(s)@ + blanks((i + 1) as nat));
        i = i + 1;
    }
}

/// `text` centred in `width` columns.
pub fn center(text: &str, width: usize) -> (r: String)
    ensures
        r@ == centered(text@, width as nat),
{
    let len = text.unicode_len();
    let mut s = String::new();
    if len >= width {
        push_str(&mut s, text);
        return s;
    }
    let pad = width - len;
    push_blanks(&mut s, pad / 2);
    push_str(&mut s, text);
    push_blanks(&mut s, pad - pad / 2);
    s
}

/// The status bar.
pub struct StatusBar;

impl StatusBar {
    /// The status bar.
    pub fn new() -> (b: Self)
        ensures
            b == StatusBar,
    {
        StatusBar
    }
}

/// The mode badge for the current state.
pub fn get_mode_badge(state: &AppState) -> (r: (String, BadgeKind))
    ensures
        r.0@ == badge(state.editing_table is Some, state.tool.selected_tool).0,
        r.1 == badge(state.editing_table is Some, state.tool.selected_tool).1,
{
    let width = Tool::max_name_len();
    let mut s = String::new();
    string_push(&mut s, ' ');
    if state.is_editing_table() {
        let c = center("EDIT TABLE", width);
        push_str(&mut s, c.as_str());
        string_push(&mut s, ' ');
        (s, BadgeKind::EditTable)
    } else {
        let tool = state.tool.selected_tool;
        let c = center(tool.name(), width);
        push_str(&mut s, c.as_str());
        string_push(&mut s, ' ');
        (s, if tool == Tool::Select { BadgeKind::Select } else { BadgeKind::Draw })
    }
}

/// The elements panel.
pub struct ElementsPanel;

impl ElementsPanel {
    /// The elements panel.
    pub fn new() -> (p: Self)
        ensures
            p == ElementsPanel,
    {
        ElementsPanel
    }
}

/// The role of a run of status bar text; the front end picks its colours.
#[derive(Debug, Clone, Copy, PartialEq, Eq, Structural)]
pub enum StatusTone {
    Plain,
    Command,
    Cursor,
    Error,
    Success,
    Count,
    Hint,
    Separator,
    Badge(BadgeKind),
}

/// A run of status bar text.
pub struct StatusRun {
    pub text: String,
    pub tone: StatusTone,
}

/// The text and role of each run.
pub open spec fn status_view(v: Seq<StatusRun>) -> Seq<(Seq<char>, StatusTone)> {
    v.map_values(|r: StatusRun| (r.text@, r.tone))
}

/// The index of the first blank in `s`, if any.
pub open spec fn first_blank(s: Seq<char>, n: nat) -> Option<int>
    decreases n,
{
    if n == 0 {
        None
    } else {
        match first_blank(s, (n - 1) as nat) {
            Some(i) => Some(i),
            None => if s[n - 1] == ' ' { Some(n - 1) } else { None },
        }
    }
}

/// The command line: the command in the command colour after a colon, its
/// arguments (from the first blank on) plain, then the cursor block.
pub open spec fn command_runs(buffer: Seq<char>) -> Seq<(Seq<char>, StatusTone)> {
    match first_blank(buffer, buffer.len()) {
        Some(i) => seq![
            (" "@, StatusTone::Plain),
            (":"@ + buffer.subrange(0, i), StatusTone::Command),
            (buffer.subrange(i, buffer.len() as int), StatusTone::Plain),
            ("█"@, StatusTone::Cursor),
        ],
        None => seq![
            (" "@, StatusTone::Plain),
            (":"@ + buffer, StatusTone::Command),
            ("█"@, StatusTone::Cursor),
        ],
    }
}

/// A message: errors (starting with "Error") in the error colour, others in the success colour.
pub open spec fn message_runs(m: Seq<char>) -> Seq<(Seq<char>, StatusTone)> {
    seq![(" "@ + m, if m.len() >= 5 && m.subrange(0, 5) == "Error"@ { StatusTone::Error } else { StatusTone::Success })]
}

/// A hint: a separator, the label with a colon, the key.
pub open spec fn hint_runs(label: Seq<char>, key: Seq<char>) -> Seq<(Seq<char>, StatusTone)> {
    seq![(Seq::<char>::empty(), StatusTone::Separator), (label + ": "@, StatusTone::Plain), (key, StatusTone::Hint)]
}

/// The hints about a selection of `n` elements (none when nothing is selected).
pub open spec fn selection_runs(n: nat) -> Seq<(Seq<char>, StatusTone)> {
    if n == 0 {
        Seq::empty()
    } else {
        seq![
            (Seq::<char>::empty(), StatusTone::Separator),
            ("Selected: "@, StatusTone::Plain),
            (decimal(n), StatusTone::Count),
        ] + (if n == 1 { hint_runs("Properties"@, "p"@) } else { Seq::empty() })
            + hint_runs("Move"@, "←↑↓→"@) + hint_runs("Delete"@, "⌫"@)
    }
}

/// The left part of the usual status line: the mode badge, the selection
/// hints while the select tool is used outside table editing, and the keys
/// for tools, help and quitting.
pub open spec fn default_runs(state: AppState) -> Seq<(Seq<char>, StatusTone)> {
    let (text, kind) = badge(state.editing_table is Some, state.tool.selected_tool);
    seq![(" "@, StatusTone::Plain), (text, StatusTone::Badge(kind))]
        + (if state.editing_table is None && state.tool.selected_tool == Tool::Select {
            selection_runs(state.selection_state.selected_ids@.len())
        } else {
            Seq::empty()
        })
        + hint_runs("Tools"@, "Space"@) + hint_runs("Help"@, "?"@) + hint_runs("Quit"@, "q"@)
}

/// The cursor position shown on the right.
pub open spec fn cursor_text(x: u16, y: u16) -> Seq<char> {
    "Cursor: ("@ + decimal(x as nat) + ", "@ + decimal(y as nat) + ") "@
}

/// The status bar: the command line in command mode, else the message if
/// there is one, else the usual line with the cursor position on the right.
pub open spec fn status_runs(state: AppState) -> (Seq<(Seq<char>, StatusTone)>, Seq<(Seq<char>, StatusTone)>) {
    if state.command.active {
        (command_runs(state.command.buffer@), Seq::empty())
    } else if state.file.status_message is Some {
        (message_runs(state.file.status_message->0@), Seq::empty())
    } else {
        (default_runs(state), seq![(cursor_text(state.cursor_x, state.cursor_y), StatusTone::Plain)])
    }
}

fn run(text: String, tone: StatusTone) -> (r: StatusRun)
    ensures
        r.text@ == text@,
        r.tone == tone,
{
    StatusRun { text, tone }
}

fn add_hint(runs: &mut Vec<StatusRun>, label: &str, key: &str)
    ensures
        status_view(final(runs)@) == status_view(old(runs)@) + hint_runs(label@, key@),
{
    let mut l = String::from_str(label);
    push_str(&mut l, ": ");
    runs.push(run(String::new(), StatusTone::Separator));
    runs.push(run(l, StatusTone::Plain));
    runs.push(run(String::from_str(key), StatusTone::Hint));
    proof { reveal_strlit(": "); }
    assert(status_view(runs@) =~= status_view(old(runs)@) + hint_runs(label@, key@));
}

fn add_selection_hints(runs: &mut Vec<StatusRun>, n: usize)
    ensures
        status_view(final(runs)@) == status_view(old(runs)@) + selection_runs(n as nat),
{
    if n == 0 {
        assert(status_view(runs@) =~= status_view(old(runs)@) + selection_runs(n as nat));
        return;
    }
    runs.push(run(String::new(), StatusTone::Separator));
    runs.push(run(String::from_str("Selected: "), StatusTone::Plain));
    let mut count = String::new();
    push_decimal(&mut count, n);
    runs.push(run(count, StatusTone::Count));
    let ghost mid = status_view(runs@);
    proof { reveal_strlit("Selected: "); }
    assert(mid =~= status_view(old(runs)@) + seq![
        (Seq::<char>::empty(), StatusTone::Separator),
        ("Selected: "@, StatusTone::Plain),
        (decimal(n as nat), StatusTone::Count),
    ]);
    if n == 1 {
        add_hint(runs, "Properties", "p");
    }
    add_hint(runs, "Move", "←↑↓→");
    add_hint(runs, "Delete", "⌫");
    assert(status_view(runs@) =~= status_view(old(runs)@) + selection_runs(n as nat));
}

/// Splits the command line at its first blank.
fn first_blank_of(s: &str) -> (r: Option<usize>)
    ensures
        match r {
            Some(i) => i < s@.len() && first_blank(s@, s@.len()) == Some(i as int),
            None => first_blank(s@, s@.len()) is None,
        },
{
    let chars = chars_of(s);
    let mut i: usize = 0;
    while i < chars.len()
        invariant
            chars@ == s@,
            i <= chars@.len(),
            first_blank(s@, i as nat) is None,
        decreases chars.len() - i,
    {
        if chars[i] == ' ' {
            assert(first_blank(s@, (i + 1) as nat) == Some(i as int));
            proof { lemma_first_blank_stays(s@, (i + 1) as nat, s@.len()); }
            return Some(i);
        }
        i = i + 1;
    }
    None
}

proof fn lemma_first_blank_stays(s: Seq<char>, m: nat, n: nat)
    requires
        m <= n,
        first_blank(s, m) is Some,
    ensures
        first_blank(s, n) == first_blank(s, m),
    decreases n - m,
{
    if m < n {
        lemma_first_blank_stays(s, m, (n - 1) as nat);
    }
}

fn slice_chars(chars: &Vec<char>, from: usize, to: usize) -> (r: String)
    requires
        from <= to <= chars@.len(),
    ensures
        r@ == chars@.subrange(from as int, to as int),
{
    let mut v: Vec<char> = Vec::new();
    let mut i: usize = from;
    while i < to
        invariant
            from <= i <= to <= chars@.len(),
            v@ == chars@.subrange(from as int, i as int),
        decreases to - i,
    {
        v.push(chars[i]);
        i = i + 1;
    }
    string_from_chars(&v)
}

fn render_command_mode(command: &CommandState) -> (r: Vec<StatusRun>)
    ensures
        status_view(r@) == command_runs(command.buffer@),
{
    let b = command.buffer.as_str();
    let chars = chars_of(b);
    let mut runs: Vec<StatusRun> = Vec::new();
    runs.push(run(String::from_str(" "), StatusTone::Plain));
    let mut c = String::from_str(":");
    match first_blank_of(b) {
        Some(i) => {
            let head = slice_chars(&chars, 0, i);
            push_str(&mut c, head.as_str());
            runs.push(run(c, StatusTone::Command));
            runs.push(run(slice_chars(&chars, i, chars.len()), StatusTone::Plain));
        },
        None => {
            push_str(&mut c, b);
            runs.push(run(c, StatusTone::Command));
        },
    }
    runs.push(run(String::from_str("█"), StatusTone::Cursor));
    proof {
        reveal_strlit(" ");
        reveal_strlit(":");
        reveal_strlit("█");
    }
    assert(status_view(runs@) =~= command_runs(command.buffer@));
    runs
}

fn starts_with_error(m: &str) -> (r: bool)
    ensures
        r == (m@.len() >= 5 && m@.subrange(0, 5) == "Error"@),
{
    let chars = chars_of(m);
    proof { reveal_strlit("Error"); }
    if chars.len() < 5 {
        return false;
    }
    let r = chars[0] == 'E' && chars[1] == 'r' && chars[2] == 'r' && chars[3] == 'o' && chars[4] == 'r';
    if r {
        assert(m@.subrange(0, 5) =~= "Error"@);
    } else {
        assert(m@.subrange(0, 5) != "Error"@) by {
            if m@.subrange(0, 5) == "Error"@ {
                assert(m@.subrange(0, 5)[0] == 'E');
                assert(m@.subrange(0, 5)[1] == 'r');
                assert(m@.subrange(0, 5)[2] == 'r');
                assert(m@.subrange(0, 5)[3] == 'o');
                assert(m@.subrange(0, 5)[4] == 'r');
            }
        }
    }
    r
}

impl StatusBar {
    /// What the status bar shows: runs on the left and on the right.
    pub fn draw(&self, state: &AppState) -> (r: (Vec<StatusRun>, Vec<StatusRun>))
        ensures
            status_view(r.0@) == status_runs(*state).0,
            status_view(r.1@) == status_runs(*state).1,
    {
        if state.is_command_mode_active() {
            let left = render_command_mode(&state.command);
            let right: Vec<StatusRun> = Vec::new();
            assert(status_view(right@) =~= Seq::<(Seq<char>, StatusTone)>::empty());
            return (left, right);
        }
        if let Some(m) = &state.file.status_message {
            let left = render_status_message(m.as_str());
            let right: Vec<StatusRun> = Vec::new();
            assert(status_view(right@) =~= Seq::<(Seq<char>, StatusTone)>::empty());
            return (left, right);
        }
        render_default_status(state)
    }
}

/// A message: a blank, then the message in the error or success tone.
fn render_status_message(m: &str) -> (r: Vec<StatusRun>)
    ensures
        status_view(r@) == message_runs(m@),
{
    let mut t = String::from_str(" ");
    push_str(&mut t, m);
    let tone = if starts_with_error(m) { StatusTone::Error } else { StatusTone::Success };
    let mut left: Vec<StatusRun> = Vec::new();
    left.push(run(t, tone));
    proof { reveal_strlit(" "); }
    assert(status_view(left@) =~= message_runs(m@));
    left
}

/// The mode badge as a run.
fn create_mode_badge(text: String, kind: BadgeKind) -> (r: StatusRun)
    ensures
        r.text@ == text@,
        r.tone == StatusTone::Badge(kind),
{
    run(text, StatusTone::Badge(kind))
}

/// The usual line: the left runs and the cursor position.
fn render_default_status(state: &AppState) -> (r: (Vec<StatusRun>, Vec<StatusRun>))
    ensures
        status_view(r.0@) == default_runs(*state),
        status_view(r.1@) == seq![(cursor_text(state.cursor_x, state.cursor_y), StatusTone::Plain)],
{
    (build_left_status(state), build_cursor_position(state))
}

/// The cursor position, shown on the right.
fn build_cursor_position(state: &AppState) -> (r: Vec<StatusRun>)
    ensures
        status_view(r@) == seq![(cursor_text(state.cursor_x, state.cursor_y), StatusTone::Plain)],
{
    let mut pos = String::from_str("Cursor: (");
    push_decimal(&mut pos, state.cursor_x as usize);
    push_str(&mut pos, ", ");
    push_decimal(&mut pos, state.cursor_y as usize);
    push_str(&mut pos, ") ");
    proof {
        reveal_strlit("Cursor: (");
        reveal_strlit(", ");
        reveal_strlit(") ");
    }
    let mut right: Vec<StatusRun> = Vec::new();
    right.push(run(pos, StatusTone::Plain));
    assert(status_view(right@) =~= seq![(cursor_text(state.cursor_x, state.cursor_y), StatusTone::Plain)]);
    right
}

/// The mode badge, the selection hints and the global hints.
fn build_left_status(state: &AppState) -> (r: Vec<StatusRun>)
    ensures
        status_view(r@) == default_runs(*state),
{
    let mut left: Vec<StatusRun> = Vec::new();
    left.push(run(String::from_str(" "), StatusTone::Plain));
    let (text, kind) = get_mode_badge(state);
    left.push(create_mode_badge(text, kind));
    proof { reveal_strlit(" "); }
    assert(status_view(left@) =~= seq![(" "@, StatusTone::Plain), (badge(state.editing_table is Some, state.tool.selected_tool).0,
        StatusTone::Badge(badge(state.editing_table is Some, state.tool.selected_tool).1))]);
    if !state.is_editing_table() && state.is_select_tool() {
        add_selection_hints(&mut left, state.get_selected_element_ids().len());
    }
    add_hint(&mut left, "Tools", "Space");
    add_hint(&mut left, "Help", "?");
    add_hint(&mut left, "Quit", "q");
    assert(status_view(left@) =~= default_runs(*state));
    left
}

impl ElementsPanel {
    /// The elements panel: its lines (a blank and "  (empty)"), its title
    /// "[2]-Elements" and its border look.
    pub fn draw(&self, state: &AppState) -> (r: (Vec<Vec<Styled>>, String, Look))
        ensures
            r.0@.len() == 2,
            runs_view(r.0@[0]@) == seq![(Seq::<char>::empty(), plain_look())],
            runs_view(r.0@[1]@) == seq![("  (empty)"@, plain_look())],
            r.1@ == "[2]-Elements"@,
            r.2 == elements_border(*state),
    {
        let mut first: Vec<Styled> = Vec::new();
        first.push(styled(String::new(), Look::plain()));
        let mut second: Vec<Styled> = Vec::new();
        second.push(styled(String::from_str("  (empty)"), Look::plain()));
        let mut lines: Vec<Vec<Styled>> = Vec::new();
        lines.push(first);
        lines.push(second);
        let (title, look) = create_panel_block("[2]-Elements", Panel::Elements, state);
        assert(runs_view(lines@[0]@) =~= seq![(Seq::<char>::empty(), plain_look())]);
        assert(runs_view(lines@[1]@) =~= seq![("  (empty)"@, plain_look())]);
        (lines, title, look)
    }
}

/// The elements panel's border look.
pub open spec fn elements_border(state: AppState) -> Look {
    if !state.show_help && Panel::Elements == state.active_panel {
        crate::styles::fg_look(crate::styles::Hue::Green)
    } else {
        plain_look()
    }
}

} // verus!
