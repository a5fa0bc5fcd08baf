use vstd::prelude::*;
use crate::elements::properties::{PropertyValue, PropertyValueView};
use crate::elements::text::byte_len;
use crate::events::types::{KeyCode, KeyEvent};
use crate::events::EventResult;
use crate::text::{push_str, str_eq};
use crate::styles::{input_looks, input_styles, padding_span, runs_view, spaces, styled, Look, Styled};
use crate::components::statusbar::{center, centered};

verus! {

/// The options as character sequences.
pub open spec fn option_views(options: Seq<String>) -> Seq<Seq<char>> {
    options.map_values(|s: String| s@)
}

/// The largest byte length among the first `n` options.
pub open spec fn widest(options: Seq<Seq<char>>, n: nat) -> usize
    decreases n,
{
    if n == 0 {
        0
    } else {
        let w = widest(options, (n - 1) as nat);
        let b = byte_len(options[n - 1]);
        if w >= b { w } else { b }
    }
}

/// The index of the first option equal to `value`, or 0.
pub open spec fn index_of_option(options: Seq<Seq<char>>, value: Seq<char>) -> usize {
    if exists|i: int| 0 <= i < options.len() && options[i] == value {
        (choose|i: int| 0 <= i < options.len() && options[i] == value
            && forall|j: int| 0 <= j < i ==> options[j] != value) as usize
    } else {
        0
    }
}

/// A field for one of a list of options, cycled with the arrows.
pub struct ChoiceInput {
    selected_index: usize,
    original_index: usize,
    is_focused: bool,
    is_editing: bool,
    options: Vec<String>,
    max_option_width: usize,
    property_name: String,
    label: String,
}

/// The field's state as plain values.
pub struct ChoiceView {
    pub selected: usize,
    pub original: usize,
    pub focused: bool,
    pub editing: bool,
    pub options: Seq<Seq<char>>,
    pub max_width: usize,
    pub property_name: Seq<char>,
    pub label: Seq<char>,
}

/// The option after option `i` of `n`, wrapping to the first.
pub open spec fn next_option(i: usize, n: nat) -> usize {
    ((i + 1) % (n as int)) as usize
}

/// The option before option `i` of `n`, wrapping to the last.
pub open spec fn prev_option(i: usize, n: nat) -> usize {
    if i == 0 { (n - 1) as usize } else { (i - 1) as usize }
}

/// Stepping back undoes stepping forward, and stepping forward undoes
/// stepping back, across the wrap at either end.
pub proof fn lemma_cycle_round_trip(i: usize, n: nat)
    requires
        i < n <= usize::MAX,
    ensures
        prev_option(next_option(i, n), n) == i,
        next_option(prev_option(i, n), n) == i,
{
    if i + 1 < n {
        assert((i + 1) % (n as int) == i + 1) by (nonlinear_arith) requires 0 <= i + 1 < n;
    } else {
        assert((i + 1) % (n as int) == 0) by (nonlinear_arith) requires i + 1 == n, n > 0;
    }
    if i == 0 {
        assert(((n - 1) as usize + 1) % (n as int) == 0) by (nonlinear_arith) requires n > 0, (n - 1) as usize + 1 == n;
    } else {
        assert(((i - 1) as usize + 1) % (n as int) == i) by (nonlinear_arith) requires 0 < i < n, (i - 1) as usize + 1 == i;
    }
}

/// The field after moving to the next option (nothing changes without options).
pub open spec fn stepped_next(v: ChoiceView) -> ChoiceView {
    if v.options.len() == 0 { v } else { ChoiceView { selected: next_option(v.selected, v.options.len()), ..v } }
}

/// The field after moving to the previous option (nothing changes without options).
pub open spec fn stepped_prev(v: ChoiceView) -> ChoiceView {
    if v.options.len() == 0 { v } else { ChoiceView { selected: prev_option(v.selected, v.options.len()), ..v } }
}

/// `cycle_prev` undoes `cycle_next` and `cycle_next` undoes `cycle_prev`,
/// across the wrap at either end; without options both leave the field as it is.
pub proof fn lemma_prev_undoes_next(v: ChoiceView)
    requires
        v.options.len() <= usize::MAX,
        v.options.len() > 0 ==> v.selected < v.options.len(),
    ensures
        stepped_prev(stepped_next(v)) == v,
        stepped_next(stepped_prev(v)) == v,
{
    if v.options.len() > 0 {
        lemma_cycle_round_trip(v.selected, v.options.len());
    }
}

/// While a choice field is being edited, Left undoes Right and Right undoes
/// Left: the field comes back to the option it showed.
pub proof fn lemma_left_undoes_right(f: ChoiceView, current: PropertyValueView)
    requires
        f.focused,
        f.editing,
        current is Choice,
        f.selected < f.options.len() <= usize::MAX,
    ensures
        choice_step(choice_step(f, KeyCode::Right, current).0, KeyCode::Left, current).0 == f,
        choice_step(choice_step(f, KeyCode::Left, current).0, KeyCode::Right, current).0 == f,
{
    lemma_cycle_round_trip(f.selected, f.options.len());
}

/// What a key does to a choice field showing `current`: the next state and
/// the option to store, if any. While editing, Esc puts back the option chosen
/// at the start, Enter stores the chosen option and stops, Left and Right
/// cycle through the options (wrapping) and store each; other keys are
/// swallowed. A focused field starts editing on Enter at the current option.
pub open spec fn choice_step(f: ChoiceView, code: KeyCode, current: PropertyValueView)
    -> (ChoiceView, EventResult, Option<Seq<char>>)
{
    let n = f.options.len();
    if !f.focused || !(current is Choice) {
        (f, EventResult::Ignored, None)
    } else if f.editing {
        match code {
            KeyCode::Esc => (ChoiceView { editing: false, selected: f.original, ..f }, EventResult::Consumed, None),
            KeyCode::Enter => (ChoiceView { editing: false, ..f }, EventResult::Consumed,
                if f.selected < n { Some(f.options[f.selected as int]) } else { None }),
            KeyCode::Left => if n == 0 {
                (f, EventResult::Consumed, None)
            } else {
                let i = prev_option(f.selected, n);
                (ChoiceView { selected: i, ..f }, EventResult::Consumed, if i < n { Some(f.options[i as int]) } else { None })
            },
            KeyCode::Right => if n == 0 {
                (f, EventResult::Consumed, None)
            } else {
                let i = next_option(f.selected, n);
                (ChoiceView { selected: i, ..f }, EventResult::Consumed, Some(f.options[i as int]))
            },
            _ => (f, EventResult::Consumed, None),
        }
    } else {
        match code {
            KeyCode::Enter => match current {
                PropertyValueView::Choice(v) => {
                    let i = index_of_option(f.options, v);
                    (ChoiceView { editing: true, selected: i, original: i, ..f }, EventResult::Consumed, None)
                },
                _ => (f, EventResult::Ignored, None),
            },
            _ => (f, EventResult::Ignored, None),
        }
    }
}

impl ChoiceInput {
    /// The field's state.
    pub closed spec fn view_of(&self) -> ChoiceView {
        ChoiceView {
            selected: self.selected_index,
            original: self.original_index,
            focused: self.is_focused,
            editing: self.is_editing,
            options: option_views(self.options@),
            max_width: self.max_option_width,
            property_name: self.property_name@,
            label: self.label@,
        }
    }

    /// A field never holds more options than a `usize` counts.
    pub proof fn lemma_option_count_fits(&self)
        ensures
            self.view_of().options.len() <= usize::MAX,
    {
        assert(self.options.len() == self.options@.len());
    }

    /// On this field, `cycle_prev` undoes `cycle_next` and `cycle_next` undoes
    /// `cycle_prev` (across the wrap at either end) while the chosen option is
    /// one of the options; without options both leave it as it is.
    pub proof fn lemma_cycle_undoes(&self)
        requires
            self.view_of().options.len() > 0 ==> self.view_of().selected < self.view_of().options.len(),
        ensures
            stepped_prev(stepped_next(self.view_of())) == self.view_of(),
            stepped_next(stepped_prev(self.view_of())) == self.view_of(),
    {
        self.lemma_option_count_fits();
        lemma_prev_undoes_next(self.view_of());
    }

    /// A field over `options`, at the first, neither focused nor editing; it
    /// remembers the widest option's byte length for display.
    pub fn new(property_name: &str, label: &str, options: Vec<String>) -> (c: Self)
        ensures
            c.view_of() == (ChoiceView {
                selected: 0, original: 0, focused: false, editing: false,
                options: option_views(options@),
                max_width: widest(option_views(options@), options@.len()),
                property_name: property_name@, label: label@,
            }),
    {
        let mut max_w: usize = 0;
        let mut i: usize = 0;
        while i < options.len()
            invariant
                i <= options@.len(),
                max_w == widest(option_views(options@), i as nat),
            decreases options.len() - i,
        {
            let b = options[i].as_str().len();
            if b > max_w {
                max_w = b;
            }
            i = i + 1;
        }
        ChoiceInput {
            selected_index: 0,
            original_index: 0,
            is_focused: false,
            is_editing: false,
            options,
            max_option_width: max_w,
            property_name: String::from_str(property_name),
            label: String::from_str(label),
        }
    }

    /// Focuses the field or takes focus away (which ends editing).
    pub fn set_focused(&mut self, focused: bool)
        ensures
            final(self).view_of() == (if focused {
                ChoiceView { focused: true, ..old(self).view_of() }
            } else {
                ChoiceView { focused: false, editing: false, ..old(self).view_of() }
            }),
    {
        self.is_focused = focused;
        if !focused {
            self.is_editing = false;
        }
    }

    /// Whether an option is being chosen.
    pub fn is_editing(&self) -> (r: bool)
        ensures
            r == self.view_of().editing,
    {
        self.is_editing
    }

    /// Whether the field has the focus.
    pub fn is_focused(&self) -> (r: bool)
        ensures
            r == self.view_of().focused,
    {
        self.is_focused
    }

    /// The property the field edits.
    pub fn property_name(&self) -> (r: &str)
        ensures
            r@ == self.view_of().property_name,
    {
        self.property_name.as_str()
    }

    /// The field's label.
    pub fn label(&self) -> (r: &str)
        ensures
            r@ == self.view_of().label,
    {
        self.label.as_str()
    }

    /// The option being chosen, if any.
    pub fn selected_option(&self) -> (r: Option<&str>)
        ensures
            match r {
                Some(s) => self.view_of().selected < self.view_of().options.len()
                    && s@ == self.view_of().options[self.view_of().selected as int],
                None => self.view_of().selected >= self.view_of().options.len(),
            },
    {
        if self.selected_index < self.options.len() {
            Some(self.options[self.selected_index].as_str())
        } else {
            None
        }
    }

    /// The widest option's byte length.
    pub fn max_option_width(&self) -> (r: usize)
        ensures
            r == self.view_of().max_width,
    {
        self.max_option_width
    }

    /// Moves to the next option, wrapping to the first, and returns it; with
    /// no options nothing changes and nothing comes back.
    pub fn cycle_next(&mut self) -> (r: Option<String>)
        ensures
            final(self).view_of() == stepped_next(old(self).view_of()),
            old(self).view_of().options.len() == 0 ==> r is None,
            old(self).view_of().options.len() > 0 ==> (r matches Some(s)
                && s@ == final(self).view_of().options[final(self).view_of().selected as int]),
    {
        if self.options.len() == 0 {
            return None;
        }
        self.selected_index = ((self.selected_index as u128 + 1) % (self.options.len() as u128)) as usize;
        Some(self.options[self.selected_index].clone())
    }

    /// Moves to the previous option, wrapping to the last, and returns it; with
    /// no options nothing changes and nothing comes back.
    pub fn cycle_prev(&mut self) -> (r: Option<String>)
        ensures
            final(self).view_of() == stepped_prev(old(self).view_of()),
            old(self).view_of().options.len() == 0 ==> r is None,
            old(self).view_of().options.len() > 0 ==> match r {
                Some(s) => final(self).view_of().selected < final(self).view_of().options.len()
                    && s@ == final(self).view_of().options[final(self).view_of().selected as int],
                None => final(self).view_of().selected >= final(self).view_of().options.len(),
            },
    {
        if self.options.len() == 0 {
            return None;
        }
        self.selected_index = if self.selected_index == 0 { self.options.len() - 1 } else { self.selected_index - 1 };
        if self.selected_index < self.options.len() {
            Some(self.options[self.selected_index].clone())
        } else {
            None
        }
    }

    fn position_of(&self, value: &str) -> (r: usize)
        ensures
            r == index_of_option(self.view_of().options, value@),
    {
        let ghost opts = self.view_of().options;
        let mut i: usize = 0;
        while i < self.options.len()
            invariant
                opts == option_views(self.options@),
                i <= self.options@.len(),
                forall|j: int| 0 <= j < i ==> opts[j] != value@,
            decreases self.options.len() - i,
        {
            if str_eq(self.options[i].as_str(), value) {
                proof {
                    assert(opts[i as int] == value@);
                    let c = choose|c: int| 0 <= c < opts.len() && opts[c] == value@
                        && forall|j: int| 0 <= j < c ==> opts[j] != value@;
                    assert(c == i as int) by {
                        if c < i { assert(opts[c] != value@); }
                        if c > i { assert(opts[i as int] != value@); }
                    }
                }
                return i;
            }
            i = i + 1;
        }
        0
    }

    /// Handles a key (see `choice_step`); an option to store comes back with the result.
    pub fn handle_key_event(&mut self, key: &KeyEvent, current_value: &PropertyValue) -> (r: (EventResult, Option<PropertyValue>))
        ensures
            ({
                let (next, res, stored) = choice_step(old(self).view_of(), key.code, current_value@);
                &&& final(self).view_of() == next
                &&& r.0 == res
                &&& match stored {
                    Some(v) => r.1 matches Some(PropertyValue::Choice(w)) && w@ == v,
                    None => r.1 is None,
                }
            }),
    {
        if !self.is_focused {
            return (EventResult::Ignored, None);
        }
        let value: &str = match current_value {
            PropertyValue::Choice(s) => s.as_str(),
            _ => { return (EventResult::Ignored, None); },
        };
        if self.is_editing {
            match key.code {
                KeyCode::Esc => {
                    self.is_editing = false;
                    self.selected_index = self.original_index;
                    (EventResult::Consumed, None)
                },
                KeyCode::Enter => {
                    let stored = if self.selected_index < self.options.len() {
                        Some(PropertyValue::Choice(self.options[self.selected_index].clone()))
                    } else {
                        None
                    };
                    self.is_editing = false;
                    (EventResult::Consumed, stored)
                },
                KeyCode::Left => {
                    if self.options.len() == 0 {
                        return (EventResult::Consumed, None);
                    }
                    match self.cycle_prev() {
                        Some(v) => (EventResult::Consumed, Some(PropertyValue::Choice(v))),
                        None => (EventResult::Consumed, None),
                    }
                },
                KeyCode::Right => {
                    if self.options.len() == 0 {
                        return (EventResult::Consumed, None);
                    }
                    match self.cycle_next() {
                        Some(v) => (EventResult::Consumed, Some(PropertyValue::Choice(v))),
                        None => (EventResult::Consumed, None),
                    }
                },
                _ => (EventResult::Consumed, None),
            }
        } else {
            match key.code {
                KeyCode::Enter => {
                    let i = self.position_of(value);
                    self.is_editing = true;
                    self.selected_index = i;
                    self.original_index = i;
                    (EventResult::Consumed, None)
                },
                _ => (EventResult::Ignored, None),
            }
        }
    }
}

/// The line of a choice field showing `current`: "  label: " then, while
/// editing, the chosen option centred in the widest option's width between
/// "< " and " >", else `current`; then 20 blanks.
pub open spec fn choice_line(f: ChoiceView, current: Seq<char>) -> Seq<(Seq<char>, Look)> {
    let st = input_looks(f.editing, f.focused);
    let chosen = if f.selected < f.options.len() { f.options[f.selected as int] } else { Seq::empty() };
    let shown = if f.editing { "< "@ + centered(chosen, f.max_width as nat) + " >"@ } else { current };
    seq![("  "@ + f.label + ": "@, st.label), (shown, st.value), (spaces(20), st.background)]
}

/// The option a property value names; empty for other values.
pub open spec fn choice_text(v: PropertyValueView) -> Seq<char> {
    match v {
        PropertyValueView::Choice(s) => s,
        _ => Seq::empty(),
    }
}

impl ChoiceInput {
    /// The field's line with `current_value` as the stored option.
    pub fn render_line_internal(&self, current_value: &str) -> (r: Vec<Styled>)
        ensures
            runs_view(r@) == choice_line(self.view_of(), current_value@),
    {
        let st = input_styles(self.is_editing, self.is_focused);
        let shown = if self.is_editing {
            let chosen: &str = if self.selected_index < self.options.len() {
                self.options[self.selected_index].as_str()
            } else {
                ""
            };
            let mut t = String::from_str("< ");
            let c = center(chosen, self.max_option_width);
            push_str(&mut t, c.as_str());
            push_str(&mut t, " >");
            t
        } else {
            String::from_str(current_value)
        };
        let mut label = String::from_str("  ");
        push_str(&mut label, self.label.as_str());
        push_str(&mut label, ": ");
        let mut r: Vec<Styled> = Vec::new();
        r.push(styled(label, st.label));
        r.push(styled(shown, st.value));
        r.push(padding_span(20, st.background));
        proof {
            reveal_strlit("  ");
            reveal_strlit(": ");
            reveal_strlit("< ");
            reveal_strlit(" >");
            reveal_strlit("");
        }
        assert(runs_view(r@) =~= choice_line(self.view_of(), current_value@));
        r
    }

    /// The field's line for the element's current value (a choice; anything
    /// else shows as empty).
    pub fn render_line(&self, current_value: &PropertyValue) -> (r: Vec<Styled>)
        ensures
            runs_view(r@) == choice_line(self.view_of(), choice_text(current_value@)),
    {
        match current_value {
            PropertyValue::Choice(s) => {
                let t = s.as_str();
                assert(t@ == s@);
                let r = self.render_line_internal(t);
                assert(choice_text(current_value@) == s@);
                assert(runs_view(r@) == choice_line(self.view_of(), choice_text(current_value@)));
                r
            },
            _ => {
                proof { reveal_strlit(""); }
                let r = self.render_line_internal("");
                assert(""@ =~= Seq::<char>::empty());
                assert(choice_text(current_value@) == ""@);
                r
            },
        }
    }
}

} // verus!
