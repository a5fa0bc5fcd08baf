use vstd::prelude::*;
use crate::state::file::FileState;
use crate::text::{chars_of, push_chars, str_eq, string_from_chars, string_pop, string_push};

verus! {

/// Whether `c` is white space (the Unicode `White_Space` property, which is
/// what `char::is_whitespace` tests).
pub open spec fn is_white(c: char) -> bool {
    ||| ('\u{9}' <= c && c <= '\u{d}')
    ||| c == ' '
    ||| c == '\u{85}'
    ||| c == '\u{a0}'
    ||| c == '\u{1680}'
    ||| ('\u{2000}' <= c && c <= '\u{200a}')
    ||| c == '\u{2028}'
    ||| c == '\u{2029}'
    ||| c == '\u{202f}'
    ||| c == '\u{205f}'
    ||| c == '\u{3000}'
}

/// Whether `c` is white space.
pub fn is_white_char(c: char) -> (r: bool)
    ensures
        r == is_white(c),
{
    ('\u{9}' <= c && c <= '\u{d}')
        || c == ' '
        || c == '\u{85}'
        || c == '\u{a0}'
        || c == '\u{1680}'
        || ('\u{2000}' <= c && c <= '\u{200a}')
        || c == '\u{2028}'
        || c == '\u{2029}'
        || c == '\u{202f}'
        || c == '\u{205f}'
        || c == '\u{3000}'
}

/// Scanning `s` from the left: the words finished so far and the word being read.
pub open spec fn scan_words(s: Seq<char>) -> (Seq<Seq<char>>, Seq<char>)
    decreases s.len(),
{
    if s.len() == 0 {
        (Seq::empty(), Seq::empty())
    } else {
        let (done, cur) = scan_words(s.drop_last());
        let c = s.last();
        if is_white(c) {
            if cur.len() > 0 { (done.push(cur), Seq::empty()) } else { (done, Seq::empty()) }
        } else {
            (done, cur.push(c))
        }
    }
}

/// The maximal runs of non-white characters of `s`, in order.
pub open spec fn words(s: Seq<char>) -> Seq<Seq<char>> {
    let (done, cur) = scan_words(s);
    if cur.len() > 0 { done.push(cur) } else { done }
}

/// The words joined with single spaces.
pub open spec fn join_spaced(ws: Seq<Seq<char>>) -> Seq<char>
    decreases ws.len(),
{
    if ws.len() == 0 {
        Seq::empty()
    } else if ws.len() == 1 {
        ws[0]
    } else {
        join_spaced(ws.drop_last()) + seq![' '] + ws.last()
    }
}

/// Whether `s` ends with `suffix`.
pub open spec fn ends_with(s: Seq<char>, suffix: Seq<char>) -> bool {
    s.len() >= suffix.len() && s.subrange(s.len() - suffix.len(), s.len() as int) == suffix
}

/// The file name with the diagram extension added when it is missing.
pub open spec fn with_extension(name: Seq<char>) -> Seq<char> {
    if ends_with(name, ".textdraw"@) { name } else { name + ".textdraw"@ }
}

/// A command's outcome, as plain values.
pub enum CommandActionView {
    Save(Seq<char>),
    SaveCurrent,
    Open(Seq<char>),
    Message(Seq<char>),
    NoAction,
}

/// What a command line asks for: `save`/`s`/`w` with or without a file name,
/// `open`/`o`/`e` with one, `q`/`quit` (answered with a hint), anything else
/// is unknown; an inactive or blank line asks for nothing.
pub open spec fn command_action(active: bool, line: Seq<char>) -> CommandActionView {
    let w = words(line);
    if !active || w.len() == 0 {
        CommandActionView::NoAction
    } else if w[0] == "save"@ || w[0] == "s"@ || w[0] == "w"@ {
        if w.len() > 1 {
            CommandActionView::Save(with_extension(join_spaced(w.subrange(1, w.len() as int))))
        } else {
            CommandActionView::SaveCurrent
        }
    } else if w[0] == "open"@ || w[0] == "o"@ || w[0] == "e"@ {
        if w.len() > 1 {
            CommandActionView::Open(with_extension(join_spaced(w.subrange(1, w.len() as int))))
        } else {
            CommandActionView::Message("No filename specified"@)
        }
    } else if w[0] == "q"@ || w[0] == "quit"@ {
        CommandActionView::Message("Use 'q' key to quit"@)
    } else {
        CommandActionView::Message("Unknown command: "@ + w[0])
    }
}

/// Actions that executing a command line triggers.
#[derive(Debug, Clone)]
pub enum CommandAction {
    /// Save to the given file.
    Save(String),
    /// Save to the current file.
    SaveCurrent,
    /// Open the given file.
    Open(String),
    /// Show a message.
    Message(String),
    /// Nothing to do.
    NoAction,
}

impl View for CommandAction {
    type V = CommandActionView;

    open spec fn view(&self) -> CommandActionView {
        match self {
            CommandAction::Save(p) => CommandActionView::Save(p@),
            CommandAction::SaveCurrent => CommandActionView::SaveCurrent,
            CommandAction::Open(p) => CommandActionView::Open(p@),
            CommandAction::Message(m) => CommandActionView::Message(m@),
            CommandAction::NoAction => CommandActionView::NoAction,
        }
    }
}

/// The words of `s`, in order.
pub fn split_words(s: &Vec<char>) -> (r: Vec<Vec<char>>)
    ensures
        r@.len() == words(s@).len(),
        forall|i: int| 0 <= i < r@.len() ==> #[trigger] r@[i]@ == words(s@)[i],
{
    let mut done: Vec<Vec<char>> = Vec::new();
    let mut cur: Vec<char> = Vec::new();
    let mut i: usize = 0;
    while i < s.len()
        invariant
            i <= s@.len(),
            scan_words(s@.subrange(0, i as int)).1 == cur@,
            done@.len() == scan_words(s@.subrange(0, i as int)).0.len(),
            forall|k: int| 0 <= k < done@.len() ==> #[trigger] done@[k]@ == scan_words(s@.subrange(0, i as int)).0[k],
        decreases s.len() - i,
    {
        let c = s[i];
        proof {
            assert(s@.subrange(0, i + 1).drop_last() =~= s@.subrange(0, i as int));
            assert(s@.subrange(0, i + 1).last() == c);
        }
        if is_white_char(c) {
            if cur.len() > 0 {
                let w = cur;
                done.push(w);
                cur = Vec::new();
            }
        } else {
            cur.push(c);
        }
        i = i + 1;
    }
    assert(s@.subrange(0, s@.len() as int) =~= s@);
    if cur.len() > 0 {
        done.push(cur);
    }
    done
}

/// Whether `s` ends with `suffix`.
pub fn ends_with_chars(s: &Vec<char>, suffix: &Vec<char>) -> (r: bool)
    ensures
        r == ends_with(s@, suffix@),
{
    if s.len() < suffix.len() {
        return false;
    }
    let off = s.len() - suffix.len();
    let mut i: usize = 0;
    while i < suffix.len()
        invariant
            off + suffix@.len() == s@.len(),
            s@.len() <= usize::MAX,
            i <= suffix@.len(),
            forall|j: int| 0 <= j < i ==> s@[off + j] == suffix@[j],
        decreases suffix.len() - i,
    {
        if s[off + i] != suffix[i] {
            assert(s@.subrange(off as int, s@.len() as int)[i as int] != suffix@[i as int]);
            return false;
        }
        i = i + 1;
    }
    assert(s@.subrange(off as int, s@.len() as int) =~= suffix@);
    true
}

/// The words from index `from` on, joined with single spaces, with the
/// diagram extension added when missing.
fn file_name_from(ws: &Vec<Vec<char>>, from: usize) -> (r: String)
    requires
        1 <= from < ws@.len(),
    ensures
        r@ == with_extension(join_spaced(ws@.subrange(from as int, ws@.len() as int).map_values(|w: Vec<char>| w@))),
{
    let ghost views = ws@.subrange(from as int, ws@.len() as int).map_values(|w: Vec<char>| w@);
    let mut joined: Vec<char> = Vec::new();
    let mut i: usize = from;
    while i < ws.len()
        invariant
            from < ws@.len(),
            from <= i <= ws@.len(),
            views == ws@.subrange(from as int, ws@.len() as int).map_values(|w: Vec<char>| w@),
            joined@ == join_spaced(views.subrange(0, i - from)),
        decreases ws.len() - i,
    {
        proof {
            assert(views.subrange(0, i + 1 - from).drop_last() =~= views.subrange(0, i - from));
            assert(views.subrange(0, i + 1 - from).last() == ws@[i as int]@);
        }
        if i > from {
            joined.push(' ');
        }
        let w = &ws[i];
        let mut k: usize = 0;
        let ghost base = joined@;
        while k < w.len()
            invariant
                k <= w@.len(),
                joined@ == base + w@.subrange(0, k as int),
            decreases w.len() - k,
        {
            joined.push(w[k]);
            assert(w@.subrange(0, k + 1) =~= w@.subrange(0, k as int).push(w@[k as int]));
            k = k + 1;
        }
        proof {
            assert(w@.subrange(0, w@.len() as int) =~= w@);
            if i == from {
                assert(views.subrange(0, 1).len() == 1);
                assert(joined@ =~= join_spaced(views.subrange(0, i + 1 - from)));
            } else {
                assert(joined@ =~= join_spaced(views.subrange(0, i + 1 - from)));
            }
        }
        i = i + 1;
    }
    assert(views.subrange(0, ws@.len() - from) =~= views);
    let ext = chars_of(".textdraw");
    let mut name = string_from_chars(&joined);
    if !ends_with_chars(&joined, &ext) {
        push_chars(&mut name, &ext);
    }
    name
}

/// The command line being typed after `:`.
pub struct CommandState {
    pub buffer: String,
    pub active: bool,
}

impl CommandState {
    /// Not in command mode, nothing typed.
    pub fn new() -> (c: Self)
        ensures
            !c.active,
            c.buffer@.len() == 0,
    {
        CommandState { buffer: String::new(), active: false }
    }

    /// Enters command mode with an empty line.
    pub fn enter(&mut self)
        ensures
            final(self).active,
            final(self).buffer@.len() == 0,
    {
        self.active = true;
        self.buffer = String::new();
    }

    /// Enters command mode with the line pre-filled.
    pub fn enter_with(&mut self, command: &str)
        ensures
            final(self).active,
            final(self).buffer@ == command@,
    {
        self.active = true;
        self.buffer = String::from_str(command);
    }

    /// Leaves command mode and clears the line.
    pub fn exit(&mut self)
        ensures
            !final(self).active,
            final(self).buffer@.len() == 0,
    {
        self.active = false;
        self.buffer = String::new();
    }

    /// Leaves command mode after running a command.
    pub fn finish(&mut self)
        ensures
            !final(self).active,
            final(self).buffer@.len() == 0,
    {
        self.active = false;
        self.buffer = String::new();
    }

    /// Whether command mode is on.
    pub fn is_active(&self) -> (r: bool)
        ensures
            r == self.active,
    {
        self.active
    }

    /// Types a character, in command mode only.
    pub fn add_char(&mut self, c: char)
        ensures
            final(self).active == old(self).active,
            final(self).buffer@ == (if old(self).active { old(self).buffer@.push(c) } else { old(self).buffer@ }),
    {
        if self.active {
            string_push(&mut self.buffer, c);
        }
    }

    /// Deletes the last character, in command mode only.
    pub fn backspace(&mut self)
        ensures
            final(self).active == old(self).active,
            final(self).buffer@ == (if old(self).active && old(self).buffer@.len() > 0 {
                old(self).buffer@.drop_last()
            } else {
                old(self).buffer@
            }),
    {
        if self.active {
            let _ = string_pop(&mut self.buffer);
        }
    }

    /// What the typed line asks for.
    pub fn parse(&self) -> (r: CommandAction)
        ensures
            r@ == command_action(self.active, self.buffer@),
    {
        if !self.active {
            return CommandAction::NoAction;
        }
        let chars = chars_of(self.buffer.as_str());
        let ws = split_words(&chars);
        proof {
            assert(ws@.map_values(|w: Vec<char>| w@) =~= words(self.buffer@));
        }
        if ws.len() == 0 {
            return CommandAction::NoAction;
        }
        let cmd = string_from_chars(&ws[0]);
        let c = cmd.as_str();
        if str_eq(c, "save") || str_eq(c, "s") || str_eq(c, "w") {
            if ws.len() > 1 {
                let name = file_name_from(&ws, 1);
                proof { lemma_tail_views(ws@, words(self.buffer@)); }
                CommandAction::Save(name)
            } else {
                CommandAction::SaveCurrent
            }
        } else if str_eq(c, "open") || str_eq(c, "o") || str_eq(c, "e") {
            if ws.len() > 1 {
                let name = file_name_from(&ws, 1);
                proof { lemma_tail_views(ws@, words(self.buffer@)); }
                CommandAction::Open(name)
            } else {
                CommandAction::Message(String::from_str("No filename specified"))
            }
        } else if str_eq(c, "q") || str_eq(c, "quit") {
            CommandAction::Message(String::from_str("Use 'q' key to quit"))
        } else {
            let mut msg = String::from_str("Unknown command: ");
            push_chars(&mut msg, &ws[0]);
            CommandAction::Message(msg)
        }
    }
}

proof fn lemma_tail_views(ws: Seq<Vec<char>>, w: Seq<Seq<char>>)
    requires
        ws.len() == w.len(),
        ws.len() > 1,
        forall|i: int| 0 <= i < ws.len() ==> #[trigger] ws[i]@ == w[i],
    ensures
        ws.subrange(1, ws.len() as int).map_values(|x: Vec<char>| x@) == w.subrange(1, w.len() as int),
{
    assert(ws.subrange(1, ws.len() as int).map_values(|x: Vec<char>| x@) =~= w.subrange(1, w.len() as int));
}

impl Default for CommandState {
    fn default() -> (c: Self)
        ensures
            !c.active,
            c.buffer@.len() == 0,
    {
        CommandState::new()
    }
}

/// The file work a command leaves to the caller, which reads and writes files.
#[derive(Debug, Clone)]
pub enum FileRequest {
    /// Write the diagram to this path.
    Save(String),
    /// Read the diagram from this path.
    Open(String),
    /// No file work.
    Nothing,
}

/// Carries out command actions.
pub struct CommandExecutor;

impl CommandExecutor {
    /// Decides what a command action does: saving and opening become file
    /// requests (saving to the current file, or reporting that there is none),
    /// messages go to the status bar.
    pub fn execute(action: CommandAction, file: &mut FileState) -> (r: FileRequest)
        ensures
            match action@ {
                CommandActionView::Save(p) => r matches FileRequest::Save(q) && q@ == p
                    && *final(file) == *old(file),
                CommandActionView::SaveCurrent => match old(file).current_file {
                    Some(c) => r matches FileRequest::Save(q) && q@ == c@ && *final(file) == *old(file),
                    None => r is Nothing && final(file).current_file is None
                        && (final(file).status_message matches Some(m) && m@ == "No filename specified"@),
                },
                CommandActionView::Open(p) => r matches FileRequest::Open(q) && q@ == p
                    && *final(file) == *old(file),
                CommandActionView::Message(msg) => r is Nothing
                    && final(file).current_file == old(file).current_file
                    && (final(file).status_message matches Some(m) && m@ == msg),
                CommandActionView::NoAction => r is Nothing && *final(file) == *old(file),
            },
    {
        match action {
            CommandAction::Save(path) => FileRequest::Save(path),
            CommandAction::SaveCurrent => {
                match &file.current_file {
                    Some(current) => FileRequest::Save(current.clone()),
                    None => {
                        file.set_status_message(String::from_str("No filename specified"));
                        FileRequest::Nothing
                    },
                }
            },
            CommandAction::Open(path) => FileRequest::Open(path),
            CommandAction::Message(msg) => {
                file.set_status_message(msg);
                FileRequest::Nothing
            },
            CommandAction::NoAction => FileRequest::Nothing,
        }
    }
}

/// Adding the diagram extension twice is adding it once.
pub proof fn lemma_extension_idempotent(name: Seq<char>)
    ensures
        with_extension(with_extension(name)) == with_extension(name),
{
    if !ends_with(name, ".textdraw"@) {
        let n = name + ".textdraw"@;
        assert(n.subrange(n.len() - ".textdraw"@.len(), n.len() as int) =~= ".textdraw"@);
    }
}

} // verus!
