use vstd::prelude::*;
use crate::text::{push_str, string_push};

verus! {

/// The colours the editor paints with.
#[derive(Debug, Clone, Copy, PartialEq, Eq, Structural)]
pub enum Hue {
    Green,
    White,
    DarkGray,
    Yellow,
    Blue,
    Cyan,
}

/// How a piece of text is shown: foreground, background and weight.
#[derive(Debug, Clone, Copy, PartialEq, Eq, Structural)]
pub struct Look {
    pub fg: Option<Hue>,
    pub bg: Option<Hue>,
    pub bold: bool,
}

impl Look {
    /// The terminal's own colours.
    pub fn plain() -> (l: Look)
        ensures
            l == plain_look(),
    {
        Look { fg: None, bg: None, bold: false }
    }

    /// Text in colour `hue`.
    pub fn fg(hue: Hue) -> (l: Look)
        ensures
            l == fg_look(hue),
    {
        Look { fg: Some(hue), bg: None, bold: false }
    }
}

/// No colour, normal weight.
pub open spec fn plain_look() -> Look {
    Look { fg: None, bg: None, bold: false }
}

/// Foreground `hue` only.
pub open spec fn fg_look(hue: Hue) -> Look {
    Look { fg: Some(hue), bg: None, bold: false }
}

/// A run of text shown in one look.
pub struct Styled {
    pub text: String,
    pub look: Look,
}

/// The text and look of each run.
pub open spec fn runs_view(v: Seq<Styled>) -> Seq<(Seq<char>, Look)> {
    v.map_values(|s: Styled| (s.text@, s.look))
}

/// `n` spaces.
pub open spec fn spaces(n: int) -> Seq<char>
    decreases n,
{
    if n <= 0 { Seq::empty() } else { spaces(n - 1).push(' ') }
}

/// `s` padded with spaces on the right to at least `width` characters.
pub open spec fn pad_right(s: Seq<char>, width: int) -> Seq<char> {
    s + spaces(width - s.len())
}

/// Appends `text` and then spaces up to `width` characters in all (from the
/// length of `text`).
pub fn push_padded(s: &mut String, text: &str, width: usize)
    ensures
        final(s)@ == old(s)@ + pad_right(text@, width as int),
{
    push_str(s, text);
    let n = text.unicode_len();
    let mut k: usize = n;
    while k < width
        invariant
            n == text@.len(),
            n <= k <= width || (k == n && n >= width),
            s@ == old(s)@ + text@ + spaces(k - n),
        decreases width - k,
    {
        string_push(s, ' ');
        k = k + 1;
    }
    proof {
        assert(old(s)@ + text@ + spaces(k - n) =~= old(s)@ + pad_right(text@, width as int));
    }
}

/// A run of `text` in `look`.
pub fn styled(text: String, look: Look) -> (r: Styled)
    ensures
        r.text@ == text@,
        r.look == look,
{
    Styled { text, look }
}

/// Accent for borders, highlights and active elements.
pub const COLOR_PRIMARY: Hue = Hue::Cyan;
/// Labels and important text.
pub const COLOR_LABEL: Hue = Hue::Yellow;
/// Background of a selected or focused line.
pub const COLOR_SELECTED_BG: Hue = Hue::DarkGray;
/// Locked items and success.
pub const COLOR_SUCCESS: Hue = Hue::Green;
/// Muted text.
pub const COLOR_MUTED: Hue = Hue::DarkGray;
/// Width of the blank padding at the end of an input line.
pub const PADDING_FILL_WIDTH: usize = 20;

/// The looks of an input line's label, value and trailing padding.
#[derive(Debug, Clone, Copy, PartialEq, Eq, Structural)]
pub struct InputStyles {
    pub label: Look,
    pub value: Look,
    pub background: Look,
}

/// Input looks: on a grey band while edited (cyan value) or focused (white
/// value); otherwise a yellow label and a plain value.
pub open spec fn input_looks(is_editing: bool, is_focused: bool) -> InputStyles {
    if is_editing {
        InputStyles {
            label: Look { fg: Some(Hue::Yellow), bg: Some(Hue::DarkGray), bold: false },
            value: Look { fg: Some(Hue::Cyan), bg: Some(Hue::DarkGray), bold: false },
            background: Look { fg: None, bg: Some(Hue::DarkGray), bold: false },
        }
    } else if is_focused {
        InputStyles {
            label: Look { fg: Some(Hue::Yellow), bg: Some(Hue::DarkGray), bold: false },
            value: Look { fg: Some(Hue::White), bg: Some(Hue::DarkGray), bold: false },
            background: Look { fg: None, bg: Some(Hue::DarkGray), bold: false },
        }
    } else {
        InputStyles { label: fg_look(Hue::Yellow), value: plain_look(), background: plain_look() }
    }
}

/// The looks of an input line for its state.
pub fn input_styles(is_editing: bool, is_focused: bool) -> (r: InputStyles)
    ensures
        r == input_looks(is_editing, is_focused),
{
    if is_editing {
        InputStyles {
            label: Look { fg: Some(COLOR_LABEL), bg: Some(COLOR_SELECTED_BG), bold: false },
            value: Look { fg: Some(COLOR_PRIMARY), bg: Some(COLOR_SELECTED_BG), bold: false },
            background: Look { fg: None, bg: Some(COLOR_SELECTED_BG), bold: false },
        }
    } else if is_focused {
        InputStyles {
            label: Look { fg: Some(COLOR_LABEL), bg: Some(COLOR_SELECTED_BG), bold: false },
            value: Look { fg: Some(Hue::White), bg: Some(COLOR_SELECTED_BG), bold: false },
            background: Look { fg: None, bg: Some(COLOR_SELECTED_BG), bold: false },
        }
    } else {
        InputStyles { label: Look::fg(COLOR_LABEL), value: Look::plain(), background: Look::plain() }
    }
}

/// Yellow label text.
pub fn label_style() -> (l: Look)
    ensures
        l == fg_look(Hue::Yellow),
{
    Look::fg(COLOR_LABEL)
}

/// Grey helper text.
pub fn muted_style() -> (l: Look)
    ensures
        l == fg_look(Hue::DarkGray),
{
    Look::fg(COLOR_MUTED)
}

/// Bold section headers.
pub fn header_style() -> (l: Look)
    ensures
        l == (Look { fg: None, bg: None, bold: true }),
{
    Look { fg: None, bg: None, bold: true }
}

/// An empty line.
pub fn blank_line() -> (r: Vec<Styled>)
    ensures
        runs_view(r@) == seq![(Seq::<char>::empty(), plain_look())],
{
    let mut r: Vec<Styled> = Vec::new();
    r.push(styled(String::new(), Look::plain()));
    assert(runs_view(r@) =~= seq![(Seq::<char>::empty(), plain_look())]);
    r
}

/// "  label: " in yellow followed by the plain value.
pub fn label_value_line(label: &str, value: String) -> (r: Vec<Styled>)
    ensures
        runs_view(r@) == seq![("  "@ + label@ + ": "@, fg_look(Hue::Yellow)), (value@, plain_look())],
{
    let mut l = String::from_str("  ");
    push_str(&mut l, label);
    push_str(&mut l, ": ");
    let mut r: Vec<Styled> = Vec::new();
    r.push(styled(l, label_style()));
    r.push(styled(value, Look::plain()));
    proof {
        reveal_strlit("  ");
        reveal_strlit(": ");
    }
    assert(runs_view(r@) =~= seq![("  "@ + label@ + ": "@, fg_look(Hue::Yellow)), (value@, plain_look())]);
    r
}

/// "  text:" in bold.
pub fn section_header(text: &str) -> (r: Vec<Styled>)
    ensures
        runs_view(r@) == seq![("  "@ + text@ + ":"@, Look { fg: None, bg: None, bold: true })],
{
    let mut l = String::from_str("  ");
    push_str(&mut l, text);
    push_str(&mut l, ":");
    let mut r: Vec<Styled> = Vec::new();
    r.push(styled(l, header_style()));
    proof {
        reveal_strlit("  ");
        reveal_strlit(":");
    }
    assert(runs_view(r@) =~= seq![("  "@ + text@ + ":"@, Look { fg: None, bg: None, bold: true })]);
    r
}

/// `width` blanks in `look`.
pub fn padding_span(width: usize, look: Look) -> (r: Styled)
    ensures
        r.text@ == spaces(width as int),
        r.look == look,
{
    let mut t = String::new();
    let mut i: usize = 0;
    while i < width
        invariant
            i <= width,
            t@ == spaces(i as int),
        decreases width - i,
    {
        string_push(&mut t, ' ');
        i = i + 1;
    }
    styled(t, look)
}

/// `text` after two blanks, in `look`.
pub fn padded_span(text: &str, look: Look) -> (r: Styled)
    ensures
        r.text@ == "  "@ + text@,
        r.look == look,
{
    let mut t = String::from_str("  ");
    push_str(&mut t, text);
    proof { reveal_strlit("  "); }
    styled(t, look)
}

/// A modal's title, " title ", and its cyan border look.
pub fn modal_block(title: &str) -> (r: (String, Look))
    ensures
        r.0@ == " "@ + title@ + " "@,
        r.1 == fg_look(Hue::Cyan),
{
    let mut t = String::from_str(" ");
    push_str(&mut t, title);
    push_str(&mut t, " ");
    proof { reveal_strlit(" "); }
    (t, Look::fg(COLOR_PRIMARY))
}

} // verus!
