use vstd::prelude::*;
use crate::elements::properties::PropertyError;

verus! {

/// The characters that draw a border, with the junctions that tables need.
#[derive(Debug, Clone, Copy, PartialEq, Eq, Structural)]
pub struct BorderChars {
    pub horizontal: char,
    pub vertical: char,
    pub top_left: char,
    pub top_right: char,
    pub bottom_left: char,
    pub bottom_right: char,
    pub cross: char,
    pub left_t: char,
    pub right_t: char,
    pub top_t: char,
    pub bottom_t: char,
}

/// How a border is drawn.
#[derive(Debug, Clone, Copy, PartialEq, Eq, Structural)]
pub enum BorderStyle {
    Single,
    Double,
    Bold,
    Rounded,
    Blank,
}

impl Default for BorderStyle {
    fn default() -> (r: Self)
        ensures
            r == BorderStyle::Single,
    {
        BorderStyle::Single
    }
}

pub open spec fn chars_of_style(
    h: char, v: char, tl: char, tr: char, bl: char, br: char,
    cross: char, lt: char, rt: char, tt: char, bt: char,
) -> BorderChars {
    BorderChars {
        horizontal: h, vertical: v, top_left: tl, top_right: tr, bottom_left: bl,
        bottom_right: br, cross, left_t: lt, right_t: rt, top_t: tt, bottom_t: bt,
    }
}

/// The box-drawing characters of each style; `Rounded` borrows the single
/// junctions and `None` draws blanks.
pub open spec fn border_chars(style: BorderStyle) -> BorderChars {
    match style {
        BorderStyle::Single => chars_of_style('─', '│', '┌', '┐', '└', '┘', '┼', '├', '┤', '┬', '┴'),
        BorderStyle::Double => chars_of_style('═', '║', '╔', '╗', '╚', '╝', '╬', '╠', '╣', '╦', '╩'),
        BorderStyle::Bold => chars_of_style('━', '┃', '┏', '┓', '┗', '┛', '╋', '┣', '┫', '┳', '┻'),
        BorderStyle::Rounded => chars_of_style('─', '│', '╭', '╮', '╰', '╯', '┼', '├', '┤', '┬', '┴'),
        BorderStyle::Blank => chars_of_style(' ', ' ', ' ', ' ', ' ', ' ', ' ', ' ', ' ', ' ', ' '),
    }
}

/// The name under which a style is shown and chosen.
pub open spec fn style_name(style: BorderStyle) -> Seq<char> {
    match style {
        BorderStyle::Single => "Single"@,
        BorderStyle::Double => "Double"@,
        BorderStyle::Bold => "Bold"@,
        BorderStyle::Rounded => "Rounded"@,
        BorderStyle::Blank => "None"@,
    }
}

/// The style whose name is `s`, if any.
pub open spec fn style_named(s: Seq<char>) -> Option<BorderStyle> {
    if s == "Single"@ {
        Some(BorderStyle::Single)
    } else if s == "Double"@ {
        Some(BorderStyle::Double)
    } else if s == "Bold"@ {
        Some(BorderStyle::Bold)
    } else if s == "Rounded"@ {
        Some(BorderStyle::Rounded)
    } else if s == "None"@ {
        Some(BorderStyle::Blank)
    } else {
        Option::None
    }
}

/// The names of all styles, in the order they are offered.
pub open spec fn all_style_names() -> Seq<Seq<char>> {
    seq!["Single"@, "Double"@, "Bold"@, "Rounded"@, "None"@]
}

impl BorderStyle {
    /// The characters that draw this style.
    pub fn chars(&self) -> (c: BorderChars)
        ensures
            c == border_chars(*self),
    {
        match self {
            BorderStyle::Single => BorderChars {
                horizontal: '─', vertical: '│', top_left: '┌', top_right: '┐',
                bottom_left: '└', bottom_right: '┘', cross: '┼', left_t: '├',
                right_t: '┤', top_t: '┬', bottom_t: '┴',
            },
            BorderStyle::Double => BorderChars {
                horizontal: '═', vertical: '║', top_left: '╔', top_right: '╗',
                bottom_left: '╚', bottom_right: '╝', cross: '╬', left_t: '╠',
                right_t: '╣', top_t: '╦', bottom_t: '╩',
            },
            BorderStyle::Bold => BorderChars {
                horizontal: '━', vertical: '┃', top_left: '┏', top_right: '┓',
                bottom_left: '┗', bottom_right: '┛', cross: '╋', left_t: '┣',
                right_t: '┫', top_t: '┳', bottom_t: '┻',
            },
            BorderStyle::Rounded => BorderChars {
                horizontal: '─', vertical: '│', top_left: '╭', top_right: '╮',
                bottom_left: '╰', bottom_right: '╯', cross: '┼', left_t: '├',
                right_t: '┤', top_t: '┬', bottom_t: '┴',
            },
            BorderStyle::Blank => BorderChars {
                horizontal: ' ', vertical: ' ', top_left: ' ', top_right: ' ',
                bottom_left: ' ', bottom_right: ' ', cross: ' ', left_t: ' ',
                right_t: ' ', top_t: ' ', bottom_t: ' ',
            },
        }
    }

    /// The style's name.
    pub fn as_str(&self) -> (s: &'static str)
        ensures
            s@ == style_name(*self),
    {
        match self {
            BorderStyle::Single => "Single",
            BorderStyle::Double => "Double",
            BorderStyle::Bold => "Bold",
            BorderStyle::Rounded => "Rounded",
            BorderStyle::Blank => "None",
        }
    }

    /// The style named `s`; any other name is refused.
    pub fn from_str(s: &str) -> (r: Result<BorderStyle, PropertyError>)
        ensures
            match r {
                Ok(b) => style_named(s@) == Some(b),
                Err(e) => style_named(s@) is None && e@ == crate::elements::properties::PropertyErrorView::InvalidBorderStyle(s@),
            },
    {
        if crate::text::str_eq(s, "Single") {
            Ok(BorderStyle::Single)
        } else if crate::text::str_eq(s, "Double") {
            Ok(BorderStyle::Double)
        } else if crate::text::str_eq(s, "Bold") {
            Ok(BorderStyle::Bold)
        } else if crate::text::str_eq(s, "Rounded") {
            Ok(BorderStyle::Rounded)
        } else if crate::text::str_eq(s, "None") {
            Ok(BorderStyle::Blank)
        } else {
            Err(PropertyError::InvalidBorderStyle(String::from_str(s)))
        }
    }

    /// The names of all styles, for a choice field.
    pub fn all_options() -> (v: Vec<String>)
        ensures
            v@.map_values(|s: String| s@) == all_style_names(),
    {
        let v = vec![
            String::from_str("Single"),
            String::from_str("Double"),
            String::from_str("Bold"),
            String::from_str("Rounded"),
            String::from_str("None"),
        ];
        assert(v@.map_values(|s: String| s@) =~= all_style_names());
        v
    }
}

/// Each style's name reads back as that style.
pub proof fn lemma_style_name_round_trip(style: BorderStyle)
    ensures
        style_named(style_name(style)) == Some(style),
{
    reveal_strlit("Single");
    reveal_strlit("Double");
    reveal_strlit("Bold");
    reveal_strlit("Rounded");
    reveal_strlit("None");
    assert("Double"@[0] != "Single"@[0]);
    assert("Bold"@[0] != "Single"@[0]);
    assert("Rounded"@[0] != "Single"@[0]);
    assert("None"@[0] != "Single"@[0]);
    assert("Bold"@[0] != "Double"@[0]);
    assert("Rounded"@[0] != "Double"@[0]);
    assert("None"@[0] != "Double"@[0]);
    assert("Rounded"@[0] != "Bold"@[0]);
    assert("None"@[0] != "Bold"@[0]);
    assert("None"@[0] != "Rounded"@[0]);
}

} // verus!
