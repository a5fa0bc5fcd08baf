use vstd::prelude::*;
use crate::elements::properties::{PropertyValue, PropertyValueView};
use crate::events::types::{KeyCode, KeyEvent};
use crate::events::EventResult;
use crate::text::{chars_of, decimal, push_decimal, push_str, string_pop, string_push};
use crate::styles::{input_looks, input_styles, padding_span, runs_view, spaces, styled, Look, Styled};

verus! {

/// Whether `c` is an ASCII digit.
pub open spec fn is_digit(c: char) -> bool {
    '0' <= c && c <= '9'
}

/// The number a string of digits spells.
pub open spec fn digits_value(s: Seq<char>) -> nat
    decreases s.len(),
{
    if s.len() == 0 {
        0
    } else {
        10 * digits_value(s.drop_last()) + ((s.last() as u32) - ('0' as u32)) as nat
    }
}

/// The `u16` a string of digits spells, if it is one.
pub open spec fn parse_u16(s: Seq<char>) -> Option<u16> {
    if s.len() > 0 && (forall|i: int| 0 <= i < s.len() ==> is_digit(#[trigger] s[i])) && digits_value(s) <= 65535 {
        Some(digits_value(s) as u16)
    } else {
        None
    }
}

/// The number spelled by `s`, if `s` spells a `u16`.
pub fn parse_digits(s: &str) -> (r: Option<u16>)
    ensures
        r == parse_u16(s@),
{
    let chars = chars_of(s);
    if chars.len() == 0 {
        return None;
    }
    let mut value: u32 = 0;
    let mut i: usize = 0;
    while i < chars.len()
        invariant
            chars@ == s@,
            i <= chars@.len(),
            forall|j: int| 0 <= j < i ==> is_digit(#[trigger] chars@[j]),
            value == digits_value(chars@.subrange(0, i as int)),
            value <= 65535,
        decreases chars.len() - i,
    {
        let c = chars[i];
        assert(chars@.subrange(0, i + 1).drop_last() =~= chars@.subrange(0, i as int));
        if !('0' <= c && c <= '9') {
            return None;
        }
        let next: u32 = value * 10 + ((c as u32) - ('0' as u32));
        if next > 65535 {
            proof {
                if forall|j: int| 0 <= j < chars@.len() ==> is_digit(#[trigger] chars@[j]) {
                    lemma_digits_grow(chars@, (i + 1) as int);
                }
            }
            return None;
        }
        value = next;
        i = i + 1;
    }
    assert(chars@.subrange(0, chars@.len() as int) =~= chars@);
    Some(value as u16)
}

/// Adding digits never makes the number smaller.
proof fn lemma_digits_grow(s: Seq<char>, k: int)
    requires
        0 <= k <= s.len(),
        forall|i: int| 0 <= i < s.len() ==> is_digit(#[trigger] s[i]),
    ensures
        digits_value(s.subrange(0, k)) <= digits_value(s),
    decreases s.len(),
{
    if k < s.len() {
        assert(forall|i: int| 0 <= i < s.drop_last().len() ==> s.drop_last()[i] == s[i]);
        lemma_digits_grow(s.drop_last(), k);
        assert(s.drop_last().subrange(0, k) =~= s.subrange(0, k));
    } else {
        assert(s.subrange(0, k) =~= s);
    }
}

/// A field for a number between `min` and `max`, typed or stepped.
pub struct NumericInput {
    min: u16,
    max: u16,
    property_name: String,
    label: String,
    is_focused: bool,
    is_editing: bool,
    edit_buffer: String,
}

/// The field's state as plain values.
pub struct NumericView {
    pub min: u16,
    pub max: u16,
    pub property_name: Seq<char>,
    pub label: Seq<char>,
    pub focused: bool,
    pub editing: bool,
    pub buffer: Seq<char>,
}

/// `v` kept between `lo` and `hi` (`lo` wins when they cross).
pub open spec fn clamp_to(v: u16, lo: u16, hi: u16) -> u16 {
    if v > hi { if hi >= lo { hi } else { lo } } else if v < lo { lo } else { v }
}

/// What a key does to a numeric field being shown a value of `current`: the
/// next state and the value to store, if any. While editing, Esc leaves, Enter
/// stores the typed number kept in range (nothing when it is not a number)
/// and leaves, digits are typed (up to five), Backspace deletes, Up and Down
/// step the typed number (or `min`) within range and store it; other keys are
/// swallowed. A focused field starts editing on Enter with the current value.
pub open spec fn numeric_step(f: NumericView, code: KeyCode, current: PropertyValueView)
    -> (NumericView, EventResult, Option<u16>)
{
    if !f.focused || !(current is Numeric) {
        (f, EventResult::Ignored, None)
    } else if f.editing {
        let left = NumericView { editing: false, buffer: Seq::empty(), ..f };
        let base = match parse_u16(f.buffer) { Some(v) => v, None => f.min };
        match code {
            KeyCode::Esc => (left, EventResult::Consumed, None),
            KeyCode::Enter => match parse_u16(f.buffer) {
                Some(v) => (left, EventResult::Consumed, Some(clamp_to(v, f.min, f.max))),
                None => (left, EventResult::Consumed, None),
            },
            KeyCode::Char(c) => if is_digit(c) {
                if f.buffer.len() < 5 {
                    (NumericView { buffer: f.buffer.push(c), ..f }, EventResult::Consumed, None)
                } else {
                    (f, EventResult::Consumed, None)
                }
            } else {
                (f, EventResult::Consumed, None)
            },
            KeyCode::Backspace => (NumericView {
                buffer: if f.buffer.len() > 0 { f.buffer.drop_last() } else { f.buffer }, ..f
            }, EventResult::Consumed, None),
            KeyCode::Up => {
                let up = if base < 65535 { (base + 1) as u16 } else { base };
                let n = if up <= f.max { up } else { f.max };
                if n != base {
                    (NumericView { buffer: decimal(n as nat), ..f }, EventResult::Consumed, Some(n))
                } else {
                    (f, EventResult::Consumed, None)
                }
            },
            KeyCode::Down => {
                let down = if base > 0 { (base - 1) as u16 } else { base };
                let n = if down >= f.min { down } else { f.min };
                if n != base {
                    (NumericView { buffer: decimal(n as nat), ..f }, EventResult::Consumed, Some(n))
                } else {
                    (f, EventResult::Consumed, None)
                }
            },
            _ => (f, EventResult::Consumed, None),
        }
    } else {
        match code {
            KeyCode::Enter => match current {
                PropertyValueView::Numeric(v) =>
                    (NumericView { editing: true, buffer: decimal(v as nat), ..f }, EventResult::Consumed, None),
                _ => (f, EventResult::Ignored, None),
            },
            _ => (f, EventResult::Ignored, None),
        }
    }
}

impl NumericInput {
    /// The field's state.
    pub closed spec fn view_of(&self) -> NumericView {
        NumericView {
            min: self.min,
            max: self.max,
            property_name: self.property_name@,
            label: self.label@,
            focused: self.is_focused,
            editing: self.is_editing,
            buffer: self.edit_buffer@,
        }
    }

    /// A field that is neither focused nor editing.
    pub fn new(property_name: &str, label: &str, min: u16, max: u16) -> (n: Self)
        ensures
            n.view_of() == (NumericView {
                min, max, property_name: property_name@, label: label@, focused: false, editing: false,
                buffer: Seq::empty(),
            }),
    {
        NumericInput {
            min,
            max,
            property_name: String::from_str(property_name),
            label: String::from_str(label),
            is_focused: false,
            is_editing: false,
            edit_buffer: String::new(),
        }
    }

    fn exit_editing(&mut self)
        ensures
            final(self).view_of() == (NumericView { editing: false, buffer: Seq::empty(), ..old(self).view_of() }),
    {
        self.is_editing = false;
        self.edit_buffer = String::new();
    }

    /// Focuses the field or takes focus away (which ends editing).
    pub fn set_focused(&mut self, focused: bool)
        ensures
            final(self).view_of() == (if focused {
                NumericView { focused: true, ..old(self).view_of() }
            } else {
                NumericView { focused: false, editing: false, buffer: Seq::empty(), ..old(self).view_of() }
            }),
    {
        self.is_focused = focused;
        if !focused {
            self.exit_editing();
        }
    }

    /// Whether a number is being typed.
    pub fn is_editing(&self) -> (r: bool)
        ensures
            r == self.view_of().editing,
    {
        self.is_editing
    }

    /// Whether the field has the focus.
    pub fn is_focused(&self) -> (r: bool)
        ensures
            r == self.view_of().focused,
    {
        self.is_focused
    }

    /// The property the field edits.
    pub fn property_name(&self) -> (r: &str)
        ensures
            r@ == self.view_of().property_name,
    {
        self.property_name.as_str()
    }

    /// The field's label.
    pub fn label(&self) -> (r: &str)
        ensures
            r@ == self.view_of().label,
    {
        self.label.as_str()
    }

    /// What has been typed.
    pub fn edit_buffer(&self) -> (r: &str)
        ensures
            r@ == self.view_of().buffer,
    {
        self.edit_buffer.as_str()
    }

    fn set_number(&mut self, n: u16)
        ensures
            final(self).view_of() == (NumericView { buffer: decimal(n as nat), ..old(self).view_of() }),
    {
        let mut s = String::new();
        push_decimal(&mut s, n as usize);
        assert(s@ =~= decimal(n as nat));
        self.edit_buffer = s;
    }

    /// Steps the typed number (`min` when nothing readable is typed) one up or
    /// down, kept within range; the new number when it changed.
    fn adjust_value(&mut self, up: bool) -> (r: Option<u16>)
        ensures
            ({
                let f = old(self).view_of();
                let base = match parse_u16(f.buffer) { Some(v) => v, None => f.min };
                let n = if up {
                    let u = if base < 65535 { (base + 1) as u16 } else { base };
                    if u <= f.max { u } else { f.max }
                } else {
                    let d = if base > 0 { (base - 1) as u16 } else { base };
                    if d >= f.min { d } else { f.min }
                };
                if n != base {
                    r == Some(n) && final(self).view_of() == (NumericView { buffer: decimal(n as nat), ..f })
                } else {
                    r is None && final(self).view_of() == f
                }
            }),
    {
        let base = match parse_digits(self.edit_buffer.as_str()) { Some(v) => v, None => self.min };
        let n = if up {
            let u = base.saturating_add(1);
            if u <= self.max { u } else { self.max }
        } else {
            let d = base.saturating_sub(1);
            if d >= self.min { d } else { self.min }
        };
        if n != base {
            self.set_number(n);
            Some(n)
        } else {
            None
        }
    }

    /// Handles a key (see `numeric_step`); a value to store comes back with the result.
    pub fn handle_key_event(&mut self, key: &KeyEvent, current_value: &PropertyValue) -> (r: (EventResult, Option<PropertyValue>))
        ensures
            ({
                let (next, res, stored) = numeric_step(old(self).view_of(), key.code, current_value@);
                &&& final(self).view_of() == next
                &&& r.0 == res
                &&& match stored {
                    Some(v) => r.1 matches Some(PropertyValue::Numeric(w)) && w == v,
                    None => r.1 is None,
                }
            }),
    {
        if !self.is_focused {
            return (EventResult::Ignored, None);
        }
        let value = match current_value {
            PropertyValue::Numeric(n) => *n,
            _ => { return (EventResult::Ignored, None); },
        };
        if self.is_editing {
            match key.code {
                KeyCode::Esc => {
                    self.exit_editing();
                    (EventResult::Consumed, None)
                },
                KeyCode::Enter => {
                    let parsed = parse_digits(self.edit_buffer.as_str());
                    let stored = match parsed {
                        Some(v) => {
                            let clamped = if v > self.max {
                                if self.max >= self.min { self.max } else { self.min }
                            } else if v < self.min {
                                self.min
                            } else {
                                v
                            };
                            Some(PropertyValue::Numeric(clamped))
                        },
                        None => None,
                    };
                    self.exit_editing();
                    (EventResult::Consumed, stored)
                },
                KeyCode::Char(c) => {
                    if '0' <= c && c <= '9' && self.edit_buffer.as_str().unicode_len() < 5 {
                        string_push(&mut self.edit_buffer, c);
                    }
                    (EventResult::Consumed, None)
                },
                KeyCode::Backspace => {
                    let _ = string_pop(&mut self.edit_buffer);
                    (EventResult::Consumed, None)
                },
                KeyCode::Up => match self.adjust_value(true) {
                    Some(n) => (EventResult::Consumed, Some(PropertyValue::Numeric(n))),
                    None => (EventResult::Consumed, None),
                },
                KeyCode::Down => match self.adjust_value(false) {
                    Some(n) => (EventResult::Consumed, Some(PropertyValue::Numeric(n))),
                    None => (EventResult::Consumed, None),
                },
                _ => (EventResult::Consumed, None),
            }
        } else {
            match key.code {
                KeyCode::Enter => {
                    self.is_editing = true;
                    self.set_number(value);
                    (EventResult::Consumed, None)
                },
                _ => (EventResult::Ignored, None),
            }
        }
    }
}

proof fn lemma_digit_value(d: nat)
    requires
        d < 10,
    ensures
        is_digit(crate::text::digit_char(d)),
        (((crate::text::digit_char(d) as u32) - ('0' as u32)) as nat) == d,
{
}

proof fn lemma_decimal_digits(n: nat)
    ensures
        forall|i: int| 0 <= i < decimal(n).len() ==> is_digit(#[trigger] decimal(n)[i]),
        digits_value(decimal(n)) == n,
        decimal(n).len() > 0,
    decreases n,
{
    lemma_digit_value(n % 10);
    if n >= 10 {
        lemma_decimal_digits(n / 10);
        let d = decimal(n);
        assert(d.drop_last() =~= decimal(n / 10));
        assert(forall|i: int| 0 <= i < decimal(n / 10).len() ==> d[i] == decimal(n / 10)[i]);
        assert(d.last() == crate::text::digit_char(n % 10));
        assert(digits_value(d) == 10 * digits_value(decimal(n / 10)) + (n % 10));
        assert(10 * (n / 10) + n % 10 == n) by (nonlinear_arith);
    } else {
        let d = decimal(n);
        assert(d.drop_last() =~= Seq::<char>::empty());
        assert(digits_value(d.drop_last()) == 0);
        assert(n % 10 == n);
        assert(digits_value(d) == 10 * digits_value(d.drop_last()) + (n % 10));
    }
}

/// Writing a number in decimal and reading it back gives the number.
pub proof fn lemma_parse_decimal(n: u16)
    ensures
        parse_u16(decimal(n as nat)) == Some(n),
{
    lemma_decimal_digits(n as nat);
}

/// A number stored with Enter lies between the field's bounds (when they are ordered).
pub proof fn lemma_enter_stores_in_range(f: NumericView, current: PropertyValueView)
    requires
        f.min <= f.max,
    ensures
        numeric_step(f, KeyCode::Enter, current).2 matches Some(v) ==> f.min <= v <= f.max,
{
}

/// The number a property value holds; 0 for other values.
pub open spec fn numeric_value(v: PropertyValueView) -> u16 {
    match v {
        PropertyValueView::Numeric(n) => n,
        _ => 0,
    }
}

impl NumericInput {
    /// The text the field shows: while editing, the buffer with a bar for the
    /// cursor at its end; otherwise the element's current number.
    pub fn display_value(&self, current_value: &PropertyValue) -> (r: String)
        ensures
            r@ == (if self.view_of().editing {
                self.view_of().buffer.push('▎')
            } else {
                crate::text::decimal(numeric_value(current_value@) as nat)
            }),
    {
        let value: u16 = match current_value {
            PropertyValue::Numeric(n) => *n,
            _ => 0,
        };
        if self.is_editing {
            let mut t = self.edit_buffer.clone();
            crate::text::string_push(&mut t, '▎');
            t
        } else {
            let mut t = String::new();
            crate::text::push_decimal(&mut t, value as usize);
            assert(t@ =~= crate::text::decimal(numeric_value(current_value@) as nat));
            t
        }
    }
}

/// The text a numeric field shows for a stored number.
pub open spec fn numeric_shown(f: NumericView, current: PropertyValueView) -> Seq<char> {
    if f.editing { f.buffer.push('▎') } else { decimal(numeric_value(current) as nat) }
}

/// The line of a numeric field: "  label: ", the shown text, 20 blanks; the
/// focus shows only while the panel is active.
pub open spec fn numeric_line(f: NumericView, current: PropertyValueView, panel_active: bool) -> Seq<(Seq<char>, Look)> {
    let st = input_looks(f.editing, f.focused && panel_active);
    seq![("  "@ + f.label + ": "@, st.label), (numeric_shown(f, current), st.value), (spaces(20), st.background)]
}

impl NumericInput {
    /// The field's line for the element's current value.
    pub fn render_line(&self, current_value: &PropertyValue, panel_active: bool) -> (r: Vec<Styled>)
        ensures
            runs_view(r@) == numeric_line(self.view_of(), current_value@, panel_active),
    {
        let st = input_styles(self.is_editing, self.is_focused && panel_active);
        let shown = self.display_value(current_value);
        let mut label = String::from_str("  ");
        push_str(&mut label, self.label.as_str());
        push_str(&mut label, ": ");
        let mut r: Vec<Styled> = Vec::new();
        r.push(styled(label, st.label));
        r.push(styled(shown, st.value));
        r.push(padding_span(20, st.background));
        proof {
            reveal_strlit("  ");
            reveal_strlit(": ");
        }
        assert(runs_view(r@) =~= numeric_line(self.view_of(), current_value@, panel_active));
        r
    }
}

} // verus!
