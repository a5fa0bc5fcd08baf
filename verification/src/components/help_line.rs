use vstd::prelude::*;
use crate::styles::{fg_look, pad_right, plain_look, push_padded, runs_view, styled, Hue, Look, Styled};
use crate::text::push_str;

verus! {

/// One line of the help text, by kind.
#[derive(Debug, Clone)]
pub enum HelpLine {
    Title(&'static str),
    Subtitle(&'static str),
    Description(&'static str),
    Section(&'static str),
    KeyBinding { key: &'static str, desc: &'static str },
    CommandHeader,
    Command { cmd: &'static str, args: &'static str, aliases: Vec<&'static str>, desc: &'static str },
    Blank,
}

/// The number of help lines.
pub const HELP_LINE_COUNT: u16 = 40;

/// A help line with its texts as character sequences.
pub enum HelpLineView {
    Title(Seq<char>),
    Subtitle(Seq<char>),
    Description(Seq<char>),
    Section(Seq<char>),
    KeyBinding { key: Seq<char>, desc: Seq<char> },
    CommandHeader,
    Command { cmd: Seq<char>, args: Seq<char>, aliases: Seq<Seq<char>>, desc: Seq<char> },
    Blank,
}

impl HelpLine {
    /// The line's kind and texts.
    pub open spec fn view_of(&self) -> HelpLineView {
        match self {
            HelpLine::Title(t) => HelpLineView::Title(t@),
            HelpLine::Subtitle(t) => HelpLineView::Subtitle(t@),
            HelpLine::Description(t) => HelpLineView::Description(t@),
            HelpLine::Section(t) => HelpLineView::Section(t@),
            HelpLine::KeyBinding { key, desc } => HelpLineView::KeyBinding { key: key@, desc: desc@ },
            HelpLine::CommandHeader => HelpLineView::CommandHeader,
            HelpLine::Command { cmd, args, aliases, desc } => HelpLineView::Command {
                cmd: cmd@, args: args@, aliases: strs_view(aliases@), desc: desc@,
            },
            HelpLine::Blank => HelpLineView::Blank,
        }
    }
}

/// The help text, line by line.
pub open spec fn help_text() -> Seq<HelpLineView> {
    seq![
        HelpLineView::Subtitle("Press Esc to close"@),
        HelpLineView::Blank,
        HelpLineView::Title("TextDraw v0.1.0"@),
        HelpLineView::Blank,
        HelpLineView::Description("Interactive terminal ASCII diagram editor built with Ratatui."@),
        HelpLineView::Description("Create and edit diagrams using simple drawing tools and keyboard shortcuts."@),
        HelpLineView::Blank,
        HelpLineView::Title("Keyboard Shortcuts"@),
        HelpLineView::Blank,
        HelpLineView::Section("Tools"@),
        HelpLineView::KeyBinding { key: "s"@, desc: "Select tool"@ },
        HelpLineView::KeyBinding { key: "l"@, desc: "Line tool"@ },
        HelpLineView::KeyBinding { key: "r"@, desc: "Rectangle tool"@ },
        HelpLineView::KeyBinding { key: "a"@, desc: "Arrow tool"@ },
        HelpLineView::KeyBinding { key: "t"@, desc: "Text tool"@ },
        HelpLineView::Blank,
        HelpLineView::Section("Selection"@),
        HelpLineView::KeyBinding { key: "Click"@, desc: "Select element"@ },
        HelpLineView::KeyBinding { key: "Drag"@, desc: "Select multiple elements"@ },
        HelpLineView::KeyBinding { key: "←↑↓→"@, desc: "Move selected elements"@ },
        HelpLineView::KeyBinding { key: "⌫/Del"@, desc: "Delete selected elements"@ },
        HelpLineView::Blank,
        HelpLineView::Section("General"@),
        HelpLineView::KeyBinding { key: "Space"@, desc: "Toggle tools modal"@ },
        HelpLineView::KeyBinding { key: "p"@, desc: "Toggle properties"@ },
        HelpLineView::KeyBinding { key: ":"@, desc: "Enter command mode"@ },
        HelpLineView::KeyBinding { key: "Ctrl+S"@, desc: "Quick save command"@ },
        HelpLineView::KeyBinding { key: "Ctrl+O"@, desc: "Quick open command"@ },
        HelpLineView::KeyBinding { key: "Esc"@, desc: "Cancel"@ },
        HelpLineView::KeyBinding { key: "?"@, desc: "Toggle help"@ },
        HelpLineView::KeyBinding { key: "q"@, desc: "Quit"@ },
        HelpLineView::Blank,
        HelpLineView::Title("Command Mode"@),
        HelpLineView::Blank,
        HelpLineView::Description("Press : to enter command mode. Type commands to save/load files."@),
        HelpLineView::Blank,
        HelpLineView::CommandHeader,
        HelpLineView::Command { cmd: ":save"@, args: "<file>"@, aliases: seq![":w"@, ":s"@], desc: "Save diagram"@ },
        HelpLineView::Command { cmd: ":open"@, args: "<file>"@, aliases: seq![":e"@, ":o"@], desc: "Open diagram"@ },
        HelpLineView::Blank,
    ]
}

/// The help text, top to bottom.
pub fn help_lines() -> (v: Vec<HelpLine>)
    ensures
        v@.len() == 40,
        v@.map_values(|l: HelpLine| l.view_of()) == help_text(),
{
    let mut v: Vec<HelpLine> = Vec::new();
    v.push(HelpLine::Subtitle("Press Esc to close"));
    v.push(HelpLine::Blank);
    v.push(HelpLine::Title("TextDraw v0.1.0"));
    v.push(HelpLine::Blank);
    v.push(HelpLine::Description("Interactive terminal ASCII diagram editor built with Ratatui."));
    v.push(HelpLine::Description("Create and edit diagrams using simple drawing tools and keyboard shortcuts."));
    v.push(HelpLine::Blank);
    v.push(HelpLine::Title("Keyboard Shortcuts"));
    v.push(HelpLine::Blank);
    v.push(HelpLine::Section("Tools"));
    v.push(HelpLine::KeyBinding { key: "s", desc: "Select tool" });
    v.push(HelpLine::KeyBinding { key: "l", desc: "Line tool" });
    v.push(HelpLine::KeyBinding { key: "r", desc: "Rectangle tool" });
    v.push(HelpLine::KeyBinding { key: "a", desc: "Arrow tool" });
    v.push(HelpLine::KeyBinding { key: "t", desc: "Text tool" });
    v.push(HelpLine::Blank);
    v.push(HelpLine::Section("Selection"));
    v.push(HelpLine::KeyBinding { key: "Click", desc: "Select element" });
    v.push(HelpLine::KeyBinding { key: "Drag", desc: "Select multiple elements" });
    v.push(HelpLine::KeyBinding { key: "←↑↓→", desc: "Move selected elements" });
    v.push(HelpLine::KeyBinding { key: "⌫/Del", desc: "Delete selected elements" });
    v.push(HelpLine::Blank);
    v.push(HelpLine::Section("General"));
    v.push(HelpLine::KeyBinding { key: "Space", desc: "Toggle tools modal" });
    v.push(HelpLine::KeyBinding { key: "p", desc: "Toggle properties" });
    v.push(HelpLine::KeyBinding { key: ":", desc: "Enter command mode" });
    v.push(HelpLine::KeyBinding { key: "Ctrl+S", desc: "Quick save command" });
    v.push(HelpLine::KeyBinding { key: "Ctrl+O", desc: "Quick open command" });
    v.push(HelpLine::KeyBinding { key: "Esc", desc: "Cancel" });
    v.push(HelpLine::KeyBinding { key: "?", desc: "Toggle help" });
    v.push(HelpLine::KeyBinding { key: "q", desc: "Quit" });
    v.push(HelpLine::Blank);
    v.push(HelpLine::Title("Command Mode"));
    v.push(HelpLine::Blank);
    v.push(HelpLine::Description("Press : to enter command mode. Type commands to save/load files."));
    v.push(HelpLine::Blank);
    v.push(HelpLine::CommandHeader);
    let save_aliases = vec![":w", ":s"];
    let open_aliases = vec![":e", ":o"];
    assert(strs_view(save_aliases@) =~= seq![":w"@, ":s"@]);
    assert(strs_view(open_aliases@) =~= seq![":e"@, ":o"@]);
    v.push(HelpLine::Command { cmd: ":save", args: "<file>", aliases: save_aliases, desc: "Save diagram" });
    v.push(HelpLine::Command { cmd: ":open", args: "<file>", aliases: open_aliases, desc: "Open diagram" });
    v.push(HelpLine::Blank);
    proof {
        reveal_strlit(":");
        reveal_strlit(":e");
        reveal_strlit(":o");
        reveal_strlit(":open");
        reveal_strlit(":s");
        reveal_strlit(":save");
        reveal_strlit(":w");
        reveal_strlit("<file>");
        reveal_strlit("?");
        reveal_strlit("Arrow tool");
        reveal_strlit("Cancel");
        reveal_strlit("Click");
        reveal_strlit("Command Mode");
        reveal_strlit("Create and edit diagrams using simple drawing tools and keyboard shortcuts.");
        reveal_strlit("Ctrl+O");
        reveal_strlit("Ctrl+S");
        reveal_strlit("Delete selected elements");
        reveal_strlit("Drag");
        reveal_strlit("Enter command mode");
        reveal_strlit("Esc");
        reveal_strlit("General");
        reveal_strlit("Interactive terminal ASCII diagram editor built with Ratatui.");
        reveal_strlit("Keyboard Shortcuts");
        reveal_strlit("Line tool");
        reveal_strlit("Move selected elements");
        reveal_strlit("Open diagram");
        reveal_strlit("Press : to enter command mode. Type commands to save/load files.");
        reveal_strlit("Press Esc to close");
        reveal_strlit("Quick open command");
        reveal_strlit("Quick save command");
        reveal_strlit("Quit");
        reveal_strlit("Rectangle tool");
        reveal_strlit("Save diagram");
        reveal_strlit("Select element");
        reveal_strlit("Select multiple elements");
        reveal_strlit("Select tool");
        reveal_strlit("Selection");
        reveal_strlit("Space");
        reveal_strlit("Text tool");
        reveal_strlit("TextDraw v0.1.0");
        reveal_strlit("Toggle help");
        reveal_strlit("Toggle properties");
        reveal_strlit("Toggle tools modal");
        reveal_strlit("Tools");
        reveal_strlit("a");
        reveal_strlit("l");
        reveal_strlit("p");
        reveal_strlit("q");
        reveal_strlit("r");
        reveal_strlit("s");
        reveal_strlit("t");
        reveal_strlit("←↑↓→");
        reveal_strlit("⌫/Del");
    }
    assert(v@.map_values(|l: HelpLine| l.view_of()) =~= help_text());
    v
}

/// Width of the key column of a key binding line.
pub const KEY_COLUMN_WIDTH: usize = 11;
/// Width of the command column of the command table.
pub const CMD_COL_WIDTH: usize = 20;
/// Width of the description column of the command table.
pub const DESC_COL_WIDTH: usize = 18;

/// Bold text in the terminal's colours.
pub open spec fn bold_look() -> Look {
    Look { fg: None, bg: None, bold: true }
}

/// The aliases written one after the other, separated by ", ".
pub open spec fn joined(items: Seq<Seq<char>>) -> Seq<char>
    decreases items.len(),
{
    if items.len() == 0 {
        Seq::empty()
    } else if items.len() == 1 {
        items[0]
    } else {
        joined(items.drop_last()) + ", "@ + items.last()
    }
}

/// The texts of a list of string slices.
pub open spec fn strs_view(v: Seq<&'static str>) -> Seq<Seq<char>> {
    v.map_values(|s: &'static str| s@)
}

/// The command column: two spaces, the command and, when there are any, its arguments.
pub open spec fn command_column(cmd: Seq<char>, args: Seq<char>) -> Seq<char> {
    if args.len() == 0 { "  "@ + cmd } else { "  "@ + cmd + " "@ + args }
}

/// The runs a help line is shown as.
pub open spec fn help_runs(l: HelpLine) -> Seq<(Seq<char>, Look)> {
    match l {
        HelpLine::Title(t) => seq![(t@, Look { fg: Some(Hue::Green), bg: None, bold: true })],
        HelpLine::Subtitle(t) => seq![(t@, fg_look(Hue::DarkGray))],
        HelpLine::Description(t) => seq![(t@, plain_look())],
        HelpLine::Section(t) => seq![(t@, bold_look())],
        HelpLine::KeyBinding { key, desc } => seq![
            ("  "@ + pad_right(key@, 11), fg_look(Hue::Cyan)),
            (desc@, plain_look()),
        ],
        HelpLine::CommandHeader => seq![
            ("  "@ + pad_right("Command"@, 18), bold_look()),
            (pad_right("Description"@, 18), bold_look()),
            ("Alias"@, bold_look()),
        ],
        HelpLine::Command { cmd, args, aliases, desc } => {
            let cols = seq![
                (pad_right(command_column(cmd@, args@), 20), fg_look(Hue::Yellow)),
                (pad_right(desc@, 18), plain_look()),
            ];
            if aliases@.len() == 0 {
                cols
            } else {
                cols.push((joined(strs_view(aliases@)), fg_look(Hue::DarkGray)))
            }
        },
        HelpLine::Blank => seq![(Seq::<char>::empty(), plain_look())],
    }
}

fn join_aliases(aliases: &Vec<&'static str>) -> (r: String)
    ensures
        r@ == joined(strs_view(aliases@)),
{
    let mut r = String::new();
    let mut i: usize = 0;
    while i < aliases.len()
        invariant
            i <= aliases@.len(),
            r@ == joined(strs_view(aliases@.subrange(0, i as int))),
        decreases aliases.len() - i,
    {
        proof {
            let sub = aliases@.subrange(0, i as int + 1);
            assert(strs_view(sub).drop_last() =~= strs_view(aliases@.subrange(0, i as int)));
            assert(strs_view(sub).last() == aliases@[i as int]@);
        }
        if i > 0 {
            push_str(&mut r, ", ");
        }
        push_str(&mut r, aliases[i]);
        proof {
            if i == 0 {
                assert(strs_view(aliases@.subrange(0, 1)) =~= seq![aliases@[0]@]);
                assert(r@ =~= aliases@[0]@);
            }
        }
        i = i + 1;
    }
    assert(aliases@.subrange(0, i as int) =~= aliases@);
    r
}

impl HelpLine {
    /// The line as runs of styled text: titles bold green, subtitles grey,
    /// sections bold, key bindings with the key in a cyan column of 11
    /// characters, commands in columns of 20 and 18 with grey aliases.
    pub fn to_line(&self) -> (r: Vec<Styled>)
        ensures
            runs_view(r@) == help_runs(*self),
    {
        let mut r: Vec<Styled> = Vec::new();
        match self {
            HelpLine::Title(t) => {
                r.push(styled(String::from_str(t), Look { fg: Some(Hue::Green), bg: None, bold: true }));
            },
            HelpLine::Subtitle(t) => {
                r.push(styled(String::from_str(t), Look::fg(Hue::DarkGray)));
            },
            HelpLine::Description(t) => {
                r.push(styled(String::from_str(t), Look::plain()));
            },
            HelpLine::Section(t) => {
                r.push(styled(String::from_str(t), Look { fg: None, bg: None, bold: true }));
            },
            HelpLine::KeyBinding { key, desc } => {
                let mut k = String::from_str("  ");
                push_padded(&mut k, key, KEY_COLUMN_WIDTH);
                r.push(styled(k, Look::fg(Hue::Cyan)));
                r.push(styled(String::from_str(desc), Look::plain()));
            },
            HelpLine::CommandHeader => {
                let mut c = String::from_str("  ");
                push_padded(&mut c, "Command", CMD_COL_WIDTH - 2);
                let mut d = String::new();
                push_padded(&mut d, "Description", DESC_COL_WIDTH);
                let bold = Look { fg: None, bg: None, bold: true };
                r.push(styled(c, bold));
                r.push(styled(d, bold));
                r.push(styled(String::from_str("Alias"), bold));
            },
            HelpLine::Command { cmd, args, aliases, desc } => {
                let mut column = String::from_str("  ");
                push_str(&mut column, cmd);
                if args.unicode_len() > 0 {
                    push_str(&mut column, " ");
                    push_str(&mut column, args);
                }
                let mut c = String::new();
                push_padded(&mut c, column.as_str(), CMD_COL_WIDTH);
                let mut d = String::new();
                push_padded(&mut d, desc, DESC_COL_WIDTH);
                r.push(styled(c, Look::fg(Hue::Yellow)));
                r.push(styled(d, Look::plain()));
                if aliases.len() > 0 {
                    r.push(styled(join_aliases(aliases), Look::fg(Hue::DarkGray)));
                }
            },
            HelpLine::Blank => {
                r.push(styled(String::new(), Look::plain()));
            },
        }
        proof {
            reveal_strlit("  ");
            reveal_strlit(" ");
            reveal_strlit("Command");
            reveal_strlit("Description");
            reveal_strlit("Alias");
        }
        assert(runs_view(r@) =~= help_runs(*self));
        r
    }
}

} // verus!
