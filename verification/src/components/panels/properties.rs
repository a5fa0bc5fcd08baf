use vstd::prelude::*;
use crate::components::inputs::choice::{choice_step, option_views, widest, ChoiceInput, ChoiceView};
use crate::components::inputs::numeric::{numeric_step, NumericInput, NumericView};
use crate::elements::properties::{
    PropertyField,
    flatten_fields, FieldType, FieldTypeView, FieldView, PropertiesSpec, PropertyError, PropertyValue, PropertyValueView, SectionView,
};
use crate::elements::rectangle::rectangle_property;
use crate::elements::table::table_property;
use crate::elements::{property_set, Element};
use crate::elements::rectangle::rectangle_spec_view;
use crate::elements::table::table_spec_view;
use crate::events::types::{KeyCode, KeyEvent, MouseEvent};
use crate::events::EventResult;
use crate::state::canvas::{index_of_id, lemma_index_of_id};
use crate::state::AppState;
use crate::state::canvas::CanvasState;
use crate::types::Panel;
use crate::utils::{bottom_left_rect, ModalArea};
use crate::styles::{blank_line, label_value_line, muted_style, padded_span, section_header, runs_view, styled, fg_look, plain_look, Hue, Look, Styled};
use crate::components::inputs::choice::choice_line;
use crate::components::inputs::numeric::numeric_line;

verus! {

/// The properties panel's width.
pub const PROPERTIES_PANEL_WIDTH: u16 = 35;

/// Lines the panel always has: a blank, type and name, a blank, the shortcut line.
pub const PROPERTIES_FIXED_LINES: u16 = 5;

/// One editable field of the panel.
pub enum PropertyInput {
    Numeric(NumericInput),
    Choice(ChoiceInput),
}

/// A field's state as plain values.
pub enum InputView {
    Numeric(NumericView),
    Choice(ChoiceView),
}

/// The fields the panel can edit: numbers and choices, in order.
pub open spec fn editable_fields(fields: Seq<FieldView>) -> Seq<FieldView>
    decreases fields.len(),
{
    if fields.len() == 0 {
        Seq::empty()
    } else {
        let prev = editable_fields(fields.drop_last());
        match fields.last().2 {
            FieldTypeView::Numeric { .. } | FieldTypeView::Choice { .. } => prev.push(fields.last()),
            _ => prev,
        }
    }
}

/// A new, unfocused input for a field.
pub open spec fn fresh_input(f: FieldView) -> InputView {
    match f.2 {
        FieldTypeView::Numeric { min, max } => InputView::Numeric(NumericView {
            min, max, property_name: f.0, label: f.1, focused: false, editing: false, buffer: Seq::empty(),
        }),
        FieldTypeView::Choice { options } => InputView::Choice(ChoiceView {
            selected: 0, original: 0, focused: false, editing: false, options,
            max_width: widest(options, options.len()), property_name: f.0, label: f.1,
        }),
        _ => InputView::Numeric(NumericView {
            min: 0, max: 0, property_name: f.0, label: f.1, focused: false, editing: false, buffer: Seq::empty(),
        }),
    }
}

/// An input's state after gaining (`true`) or losing the focus; losing it ends editing.
pub open spec fn focus_view(v: InputView, focused: bool) -> InputView {
    match v {
        InputView::Numeric(n) => InputView::Numeric(if focused {
            NumericView { focused: true, ..n }
        } else {
            NumericView { focused: false, editing: false, buffer: Seq::empty(), ..n }
        }),
        InputView::Choice(c) => InputView::Choice(if focused {
            ChoiceView { focused: true, ..c }
        } else {
            ChoiceView { focused: false, editing: false, ..c }
        }),
    }
}

/// The content height of the panel for a spec: the fixed lines, and per
/// section a header, its fields and a blank line.
pub open spec fn content_height(sections: Seq<SectionView>, n: nat) -> int
    decreases n,
{
    if n == 0 { 5 } else { content_height(sections, (n - 1) as nat) + 2 + sections[n - 1].1.len() }
}

impl PropertyInput {
    /// The input's state.
    pub open spec fn view_of(&self) -> InputView {
        match self {
            PropertyInput::Numeric(n) => InputView::Numeric(n.view_of()),
            PropertyInput::Choice(c) => InputView::Choice(c.view_of()),
        }
    }

    /// Whether the input is being edited.
    pub open spec fn spec_editing(&self) -> bool {
        match self.view_of() {
            InputView::Numeric(n) => n.editing,
            InputView::Choice(c) => c.editing,
        }
    }

    /// Whether the input has the focus.
    pub open spec fn spec_focused(&self) -> bool {
        match self.view_of() {
            InputView::Numeric(n) => n.focused,
            InputView::Choice(c) => c.focused,
        }
    }

    /// The property the input edits.
    pub open spec fn spec_property(&self) -> Seq<char> {
        match self.view_of() {
            InputView::Numeric(n) => n.property_name,
            InputView::Choice(c) => c.property_name,
        }
    }

    /// Focuses the input or takes focus away (which ends editing).
    pub fn set_focused(&mut self, focused: bool)
        ensures
            final(self).view_of() == focus_view(old(self).view_of(), focused),
            final(self).spec_focused() == focused,
            !focused ==> !final(self).spec_editing(),
            final(self).spec_property() == old(self).spec_property(),
    {
        match self {
            PropertyInput::Numeric(n) => n.set_focused(focused),
            PropertyInput::Choice(c) => c.set_focused(focused),
        }
    }

    /// Whether the input is being edited.
    pub fn is_editing(&self) -> (r: bool)
        ensures
            r == self.spec_editing(),
    {
        match self {
            PropertyInput::Numeric(n) => n.is_editing(),
            PropertyInput::Choice(c) => c.is_editing(),
        }
    }

    /// The property the input edits.
    pub fn property_name(&self) -> (r: &str)
        ensures
            r@ == self.spec_property(),
    {
        match self {
            PropertyInput::Numeric(n) => n.property_name(),
            PropertyInput::Choice(c) => c.property_name(),
        }
    }

    /// Forwards a key; a value to store comes back with the result.
    pub fn handle_key_event(&mut self, key: &KeyEvent, current_value: &PropertyValue) -> (r: (EventResult, Option<PropertyValue>))
        ensures
            final(self).spec_property() == old(self).spec_property(),
            match old(self).view_of() {
                InputView::Numeric(n) => {
                    let (next, res, stored) = numeric_step(n, key.code, current_value@);
                    &&& final(self).view_of() == InputView::Numeric(next)
                    &&& r.0 == res
                    &&& match stored {
                        Some(v) => r.1 matches Some(PropertyValue::Numeric(w)) && w == v,
                        None => r.1 is None,
                    }
                },
                InputView::Choice(c) => {
                    let (next, res, stored) = choice_step(c, key.code, current_value@);
                    &&& final(self).view_of() == InputView::Choice(next)
                    &&& r.0 == res
                    &&& match stored {
                        Some(v) => r.1 matches Some(PropertyValue::Choice(w)) && w@ == v,
                        None => r.1 is None,
                    }
                },
            },
    {
        match self {
            PropertyInput::Numeric(n) => n.handle_key_event(key, current_value),
            PropertyInput::Choice(c) => c.handle_key_event(key, current_value),
        }
    }
}

/// The floating panel that edits the selected element's properties.
pub struct PropertiesPanel {
    inputs: Vec<PropertyInput>,
    focused_input_index: Option<usize>,
    current_element_id: Option<usize>,
}

/// The value of property `name` of an element, for rectangles and tables.
pub open spec fn element_property(e: Element, name: Seq<char>) -> Option<PropertyValueView> {
    match e {
        Element::Rectangle(x) => rectangle_property(x, name),
        Element::Table(t) => table_property(t, name),
        _ => None,
    }
}

/// The value an input is shown: the property of the element with id `id`,
/// or the number 0 when there is none.
pub open spec fn shown_value(elems: Seq<Element>, id: usize, name: Seq<char>) -> PropertyValueView {
    match index_of_id(elems, id) {
        Some(k) => match element_property(elems[k], name) {
            Some(v) => v,
            None => PropertyValueView::Numeric(0),
        },
        None => PropertyValueView::Numeric(0),
    }
}

/// What a key does to an input: its next state, the result, and the value to store.
pub open spec fn input_step(v: InputView, code: KeyCode, current: PropertyValueView)
    -> (InputView, EventResult, Option<PropertyValueView>)
{
    match v {
        InputView::Numeric(n) => {
            let (next, res, stored) = numeric_step(n, code, current);
            (InputView::Numeric(next), res, match stored {
                Some(x) => Some(PropertyValueView::Numeric(x)),
                None => None,
            })
        },
        InputView::Choice(c) => {
            let (next, res, stored) = choice_step(c, code, current);
            (InputView::Choice(next), res, match stored {
                Some(x) => Some(PropertyValueView::Choice(x)),
                None => None,
            })
        },
    }
}

/// `after` is `before` with property `name` of the element with id `id` set
/// to `value` (where the element takes properties).
pub open spec fn property_stored(before: Seq<Element>, after: Seq<Element>, id: usize, name: Seq<char>, value: PropertyValueView) -> bool {
    &&& after.len() == before.len()
    &&& match index_of_id(before, id) {
        Some(i) => if before[i].settable(name) {
            &&& exists|r: Result<(), PropertyError>| property_set(before[i], after[i], name, value, r)
            &&& forall|k: int| 0 <= k < before.len() && k != i ==> after[k] == before[k]
        } else {
            after == before
        },
        None => after == before,
    }
}

impl PropertiesPanel {
    /// The inputs.
    pub closed spec fn spec_inputs(&self) -> Seq<PropertyInput> {
        self.inputs@
    }

    /// The focused input's index.
    pub closed spec fn spec_focus(&self) -> Option<usize> {
        self.focused_input_index
    }

    /// The element whose inputs these are.
    pub closed spec fn spec_element(&self) -> Option<usize> {
        self.current_element_id
    }

    /// The focus, when set, names an input.
    pub open spec fn wf(&self) -> bool {
        self.spec_focus() matches Some(i) ==> i < self.spec_inputs().len()
    }

    /// No inputs, no focus, no element.
    pub fn new() -> (p: Self)
        ensures
            p.spec_inputs().len() == 0,
            p.spec_focus() is None,
            p.spec_element() is None,
            p.wf(),
    {
        PropertiesPanel { inputs: Vec::new(), focused_input_index: None, current_element_id: None }
    }

    /// Focuses input `index`, when there is one.
    pub fn set_focus(&mut self, index: usize)
        requires
            old(self).wf(),
        ensures
            final(self).wf(),
            final(self).spec_element() == old(self).spec_element(),
            final(self).spec_inputs().len() == old(self).spec_inputs().len(),
            index < old(self).spec_inputs().len() ==> final(self).spec_focus() == Some(index)
                && final(self).spec_inputs()[index as int].spec_focused(),
            index < old(self).spec_inputs().len() ==> final(self).spec_inputs()[index as int].view_of()
                == focus_view(old(self).spec_inputs()[index as int].view_of(), true),
            index < old(self).spec_inputs().len() ==> forall|k: int| 0 <= k < old(self).spec_inputs().len() && k != index
                ==> final(self).spec_inputs()[k] == old(self).spec_inputs()[k],
            index >= old(self).spec_inputs().len() ==> *final(self) == *old(self),
    {
        if index >= self.inputs.len() {
            return;
        }
        self.focused_input_index = Some(index);
        let mut input = self.inputs.remove(index);
        input.set_focused(true);
        self.inputs.insert(index, input);
    }

    /// Moves the focus to input `new_index`, unfocusing the current one.
    pub fn update_focus(&mut self, new_index: usize)
        requires
            old(self).wf(),
        ensures
            final(self).wf(),
            final(self).spec_element() == old(self).spec_element(),
            final(self).spec_inputs().len() == old(self).spec_inputs().len(),
            old(self).spec_inputs().len() > 0 && new_index < old(self).spec_inputs().len() ==>
                final(self).spec_focus() == Some(new_index) && final(self).spec_inputs()[new_index as int].spec_focused(),
            old(self).spec_inputs().len() == 0 ==> *final(self) == *old(self),
    {
        if self.inputs.len() == 0 {
            return;
        }
        if let Some(idx) = self.focused_input_index {
            let mut input = self.inputs.remove(idx);
            input.set_focused(false);
            self.inputs.insert(idx, input);
        }
        self.set_focus(new_index);
    }

    /// Moves the focus to the next input, wrapping around.
    pub fn focus_next(&mut self)
        requires
            old(self).wf(),
        ensures
            final(self).wf(),
            final(self).spec_element() == old(self).spec_element(),
            final(self).spec_inputs().len() == old(self).spec_inputs().len(),
            old(self).spec_inputs().len() > 0 ==> final(self).spec_focus() == Some(match old(self).spec_focus() {
                Some(i) => ((i + 1) % (old(self).spec_inputs().len() as int)) as usize,
                None => 0usize,
            }),
            old(self).spec_inputs().len() == 0 ==> *final(self) == *old(self),
    {
        if self.inputs.len() == 0 {
            return;
        }
        let next = match self.focused_input_index {
            Some(idx) => (idx + 1) % self.inputs.len(),
            None => 0,
        };
        self.update_focus(next);
    }

    /// Moves the focus to the previous input, wrapping around.
    pub fn focus_prev(&mut self)
        requires
            old(self).wf(),
        ensures
            final(self).wf(),
            final(self).spec_element() == old(self).spec_element(),
            final(self).spec_inputs().len() == old(self).spec_inputs().len(),
            old(self).spec_inputs().len() > 0 ==> final(self).spec_focus() == Some(match old(self).spec_focus() {
                Some(i) => if i == 0 { (old(self).spec_inputs().len() - 1) as usize } else { (i - 1) as usize },
                None => 0usize,
            }),
            old(self).spec_inputs().len() == 0 ==> *final(self) == *old(self),
    {
        if self.inputs.len() == 0 {
            return;
        }
        let prev = match self.focused_input_index {
            Some(idx) => if idx == 0 { self.inputs.len() - 1 } else { idx - 1 },
            None => 0,
        };
        self.update_focus(prev);
    }

    /// Builds the inputs for `element` (numbers and choices of its
    /// properties, the first focused), unless they are already its inputs.
    pub fn initialize(&mut self, element: &Element)
        requires
            old(self).wf(),
        ensures
            final(self).wf(),
            panel_rebuilt(*old(self), *final(self), *element),
    {
        let id = element.id();
        if self.current_element_id == Some(id) {
            return;
        }
        self.inputs = Vec::new();
        self.focused_input_index = None;
        self.current_element_id = Some(id);
        let spec = element.properties_spec();
        let fields = spec.all_fields();
        let ghost flat = flatten_fields(spec@);
        let mut i: usize = 0;
        while i < fields.len()
            invariant
                i <= fields@.len(),
                fields@.map_values(|f: &PropertyField| f@) == flat,
                self.focused_input_index is None,
                self.current_element_id == Some(id),
                self.inputs@.len() == editable_fields(flat.subrange(0, i as int)).len(),
                forall|k: int| 0 <= k < self.inputs@.len() ==> #[trigger] self.inputs@[k].view_of()
                    == fresh_input(editable_fields(flat.subrange(0, i as int))[k]),
            decreases fields.len() - i,
        {
            let field = fields[i];
            let ghost fv = flat[i as int];
            assert(field@ == fv) by {
                assert(fields@.map_values(|f: &PropertyField| f@)[i as int] == fields@[i as int]@);
            }
            let ghost prev = editable_fields(flat.subrange(0, i as int));
            assert(flat.subrange(0, i as int + 1).drop_last() =~= flat.subrange(0, i as int));
            assert(flat.subrange(0, i as int + 1).last() == fv);
            match &field.field_type {
                FieldType::Numeric { min, max } => {
                    self.inputs.push(PropertyInput::Numeric(NumericInput::new(field.name.as_str(), field.label.as_str(), *min, *max)));
                    assert(editable_fields(flat.subrange(0, i as int + 1)) == prev.push(fv));
                },
                FieldType::Choice { options } => {
                    let copy = options.clone();
                    assert(option_views(copy@) =~= options@.map_values(|s: String| s@)) by {
                        assert forall|k: int| 0 <= k < copy@.len() implies copy@[k]@ == options@[k]@ by {
                            assert(cloned::<String>(options@[k], copy@[k]));
                        }
                    }
                    self.inputs.push(PropertyInput::Choice(ChoiceInput::new(field.name.as_str(), field.label.as_str(), copy)));
                    assert(editable_fields(flat.subrange(0, i as int + 1)) == prev.push(fv));
                },
                _ => {
                    assert(editable_fields(flat.subrange(0, i as int + 1)) == prev);
                },
            }
            i = i + 1;
        }
        assert(flat.subrange(0, i as int) =~= flat);
        assert(spec@ == sections_of(*element));
        if self.inputs.len() > 0 {
            self.set_focus(0);
        }
    }

    /// The panel's place: its content plus the two border rows, in the
    /// canvas's bottom-left corner, 35 columns wide.
    pub fn calculate_modal_area(canvas_area: crate::types::Rect, content_height: u16) -> (m: ModalArea)
        requires
            content_height + 2 <= u16::MAX,
        ensures
            m.area == bottom_left_rect(canvas_area, 35, (content_height + 2) as u16),
    {
        ModalArea::bottom_left(canvas_area, 35, content_height + 2)
    }

    /// The panel's content height for a spec.
    pub fn calculate_content_height(&self, spec: &PropertiesSpec) -> (h: u16)
        requires
            content_height(spec@, spec@.len()) <= u16::MAX,
        ensures
            h == content_height(spec@, spec@.len()),
    {
        let mut height: u16 = PROPERTIES_FIXED_LINES;
        let mut i: usize = 0;
        while i < spec.sections.len()
            invariant
                i <= spec@.len(),
                spec@.len() == spec.sections@.len(),
                height == content_height(spec@, i as nat),
                content_height(spec@, spec@.len()) <= u16::MAX,
            decreases spec.sections.len() - i,
        {
            proof { lemma_height_grows(spec@, (i + 1) as nat, spec@.len()); }
            height = height + 1;
            height = height + spec.sections[i].fields.len() as u16;
            height = height + 1;
            i = i + 1;
        }
        height
    }

    /// The element the panel shows: exactly one element selected, properties
    /// shown, no table being edited.
    pub fn get_selected_element(state: &AppState) -> (r: Option<(usize, &Element)>)
        ensures
            ({
                let ids = state.selection_state.selected_ids@;
                if state.editing_table is Some || !state.show_properties || ids.len() != 1 {
                    r is None
                } else {
                    match index_of_id(state.canvas.spec_elements(), ids[0]) {
                        Some(k) => r == Some((ids[0], &state.canvas.spec_elements()[k])),
                        None => r is None,
                    }
                }
            }),
    {
        if state.is_editing_table() {
            return None;
        }
        if !state.show_properties || state.selection_state.selected_ids.len() != 1 {
            return None;
        }
        let element_id = state.selection_state.selected_ids[0];
        match state.canvas.get_element(element_id) {
            Some(e) => Some((element_id, e)),
            None => None,
        }
    }

    /// Hands a key to input `idx`, storing a value it produces in the element.
    pub fn forward_to_input(&mut self, idx: usize, key: &KeyEvent, element_id: usize, state: &mut AppState) -> (r: EventResult)
        requires
            old(self).wf(),
            idx < old(self).spec_inputs().len(),
        ensures
            final(self).wf(),
            forwarded(*old(self), *final(self), *old(state), *final(state), idx, *key, element_id, r),
    {
        let name = String::from_str(self.inputs[idx].property_name());
        let current = current_value(&state.canvas, element_id, name.as_str());
        let (r, change) = self.step_input(idx, key, &current);
        store_value(&mut state.canvas, element_id, name.as_str(), change);
        r
    }

    /// What a key does to the properties panel and the state.
    pub open spec fn key_done(c0: Self, c1: Self, s0: AppState, s1: AppState, ev: KeyEvent, r: EventResult) -> bool {
        &&& (c1.wf())
        &&& (s0.active_panel != Panel::Properties ==> r == EventResult::Ignored && s1 == s0)
        &&& (Self::get_selected_spec(s0) is None ==> r == EventResult::Ignored && s1 == s0)
        &&& (s1.selection_state == s0.selection_state)
        &&& (s1.canvas.spec_next_id() == s0.canvas.spec_next_id())
        &&& (s1 == (AppState { canvas: s1.canvas, ..s0 }))
        &&& (s0.active_panel == Panel::Properties ==> (Self::get_selected_spec(s0) matches Some(id)
            ==> exists|pm: PropertiesPanel| #[trigger] panel_rebuilt(c0, pm,
                s0.canvas.spec_elements()[index_of_id(s0.canvas.spec_elements(), id)->0])
                && (pm.spec_inputs().len() > 0 ==> panel_key_done(pm, c1, s0, s1, ev, id, r))
                && (pm.spec_inputs().len() == 0 ==> r == EventResult::Ignored && s1 == s0)))
    }

    /// Keys while the properties panel is active and shows an element:
    /// an editing input gets every key; otherwise Tab/Down/`j` and Up/`k`
    /// move the focus, Enter goes to the focused input, Left and Right are
    /// swallowed.
    #[verifier::spinoff_prover]
    pub fn handle_key_event(&mut self, state: &mut AppState, key: &KeyEvent) -> (r: EventResult)
        requires
            old(self).wf(),
        ensures
            Self::key_done(*old(self), *final(self), *old(state), *final(state), *key, r),
    {
        if state.active_panel != Panel::Properties {
            return EventResult::Ignored;
        }
        proof {
            if state.selection_state.selected_ids@.len() == 1 {
                lemma_index_of_id(state.canvas.spec_elements(), state.selection_state.selected_ids@[0]);
            }
        }
        let ghost p0 = *self;
        let ghost s0 = *state;
        let element_id = match Self::get_selected_element(state) {
            Some((id, element)) => {
                self.initialize(element);
                id
            },
            None => { return EventResult::Ignored; },
        };
        let ghost pm = *self;
        proof {
            let elems = s0.canvas.spec_elements();
            assert(Self::get_selected_spec(s0) == Some(element_id));
            assert(panel_rebuilt(p0, pm, elems[index_of_id(elems, element_id)->0]));
        }
        if self.inputs.len() == 0 {
            return EventResult::Ignored;
        }
        let r = self.dispatch_key(state, key, element_id);
        proof {
            let elems = s0.canvas.spec_elements();
            assert(panel_rebuilt(p0, pm, elems[index_of_id(elems, element_id)->0]));
            assert(panel_key_done(pm, *self, s0, *state, *key, element_id, r));
        }
        r
    }

    /// Handles a key once the inputs belong to the element with id `element_id`
    /// (see `panel_key_done`).
    fn dispatch_key(&mut self, state: &mut AppState, key: &KeyEvent, element_id: usize) -> (r: EventResult)
        requires
            old(self).wf(),
            old(self).spec_inputs().len() > 0,
        ensures
            final(self).wf(),
            panel_key_done(*old(self), *final(self), *old(state), *final(state), *key, element_id, r),
            final(state).selection_state == old(state).selection_state,
            final(state).canvas.spec_next_id() == old(state).canvas.spec_next_id(),
            final(self).spec_element() == old(self).spec_element(),
    {
        let editing = match self.focused_input_index {
            Some(idx) => self.inputs[idx].is_editing(),
            None => false,
        };
        if editing {
            if let Some(idx) = self.focused_input_index {
                return self.forward_to_input(idx, key, element_id, state);
            }
        }
        match key.code {
            KeyCode::Tab | KeyCode::Down => {
                self.focus_next();
                EventResult::Consumed
            },
            KeyCode::Up => {
                self.focus_prev();
                EventResult::Consumed
            },
            KeyCode::Char(c) => {
                if c == 'j' {
                    self.focus_next();
                    EventResult::Consumed
                } else if c == 'k' {
                    self.focus_prev();
                    EventResult::Consumed
                } else {
                    EventResult::Ignored
                }
            },
            KeyCode::Enter => {
                match self.focused_input_index {
                    Some(idx) => self.forward_to_input(idx, key, element_id, state),
                    None => EventResult::Ignored,
                }
            },
            KeyCode::Left | KeyCode::Right => EventResult::Consumed,
            _ => EventResult::Ignored,
        }
    }

    /// The element the panel would show, as in `get_selected_element`.
    pub open spec fn get_selected_spec(state: AppState) -> Option<usize> {
        let ids = state.selection_state.selected_ids@;
        if state.editing_table is Some || !state.show_properties || ids.len() != 1 {
            None
        } else {
            match index_of_id(state.canvas.spec_elements(), ids[0]) {
                Some(k) => Some(ids[0]),
                None => None,
            }
        }
    }

    /// What a press does to the properties panel and the state.
    pub open spec fn down_done(c0: Self, c1: Self, s0: AppState, s1: AppState, ev: MouseEvent, r: EventResult) -> bool {
        &&& (c1.wf())
        &&& (Self::get_selected_spec(s0) is None ==> r == EventResult::Ignored && s1 == s0)
        &&& (r == EventResult::Consumed || r == EventResult::Ignored)
        &&& (r == EventResult::Consumed ==> s1 == (AppState { active_panel: Panel::Properties, ..s0 }))
        &&& (r == EventResult::Ignored ==> s1 == s0)
        &&& (s1.canvas == s0.canvas && s1.selection_state == s0.selection_state)
    }

    /// A press inside the shown panel activates it.
    pub fn handle_mouse_down(&mut self, state: &mut AppState, mouse_event: &MouseEvent) -> (r: EventResult)
        requires
            old(self).wf(),
        ensures
            Self::down_done(*old(self), *final(self), *old(state), *final(state), *mouse_event, r),
    {
        let element = match Self::get_selected_element(state) {
            Some((_, e)) => e,
            None => { return EventResult::Ignored; },
        };
        self.initialize(element);
        let spec = element.properties_spec();
        let mut lines: u32 = 5;
        let mut i: usize = 0;
        while i < spec.sections.len()
            invariant
                i <= spec.sections@.len(),
                lines <= 5 + i * 65537,
            decreases spec.sections.len() - i,
        {
            let n = spec.sections[i].fields.len();
            let add: u32 = if n < 65535 { n as u32 + 2 } else { 65537 };
            lines = if lines as u64 + add as u64 <= u32::MAX as u64 { lines + add } else { lines };
            i = i + 1;
        }
        if lines as u64 + 2 > 65535 {
            return EventResult::Ignored;
        }
        let area = ModalArea::bottom_left(state.layout.canvas, PROPERTIES_PANEL_WIDTH, (lines + 2) as u16);
        if area.contains(mouse_event.column, mouse_event.row) {
            state.switch_panel(Panel::Properties);
            EventResult::Consumed
        } else {
            EventResult::Ignored
        }
    }
}

proof fn lemma_height_grows(sections: Seq<SectionView>, m: nat, n: nat)
    requires
        m <= n <= sections.len(),
    ensures
        content_height(sections, m) <= content_height(sections, n),
    decreases n,
{
    if n > m {
        lemma_height_grows(sections, m, (n - 1) as nat);
    }
}

impl PropertyInput {
    /// The input's line for the element's current value.
    pub fn render_line(&self, current_value: &PropertyValue, panel_active: bool) -> (r: Vec<Styled>)
        ensures
            runs_view(r@) == (match self.view_of() {
                InputView::Numeric(n) => numeric_line(n, current_value@, panel_active),
                InputView::Choice(c) => choice_line(c, crate::components::inputs::choice::choice_text(current_value@)),
            }),
    {
        match self {
            PropertyInput::Numeric(n) => n.render_line(current_value, panel_active),
            PropertyInput::Choice(c) => c.render_line(current_value),
        }
    }
}

/// The last line of the panel: the keys that toggle it and edit a field, in grey.
pub open spec fn shortcut_line() -> Seq<(Seq<char>, Look)> {
    seq![
        ("  Toggle: "@, fg_look(Hue::DarkGray)),
        ("p"@, fg_look(Hue::DarkGray)),
        ("  Edit: "@, fg_look(Hue::DarkGray)),
        ("Enter"@, fg_look(Hue::DarkGray)),
    ]
}

/// The runs of each line.
pub open spec fn panel_lines_view(lines: Seq<Vec<Styled>>) -> Seq<Seq<(Seq<char>, Look)>> {
    lines.map_values(|l: Vec<Styled>| runs_view(l@))
}

proof fn lemma_heights_small(sections: Seq<SectionView>)
    requires
        sections == rectangle_spec_view() || sections == table_spec_view() || sections.len() == 0,
    ensures
        content_height(sections, sections.len()) <= 100,
{
    reveal_with_fuel(content_height, 4);
}

/// The editable properties of an element, by section.
pub open spec fn sections_of(e: Element) -> Seq<SectionView> {
    match e {
        Element::Rectangle(_) => rectangle_spec_view(),
        Element::Table(_) => table_spec_view(),
        _ => Seq::<SectionView>::empty(),
    }
}

/// The kind of an element as the panel names it.
pub open spec fn kind_text(e: Element) -> Seq<char> {
    match e {
        Element::Line(_) => "Line"@,
        Element::Rectangle(_) => "Rectangle"@,
        Element::Arrow(_) => "Arrow"@,
        Element::Text(_) => "Text"@,
        Element::Table(_) => "Table"@,
    }
}

/// An input's line for element `e` (a missing property shows as the number 0).
pub open spec fn input_line(inp: PropertyInput, e: Element, active: bool) -> Seq<(Seq<char>, Look)> {
    let cur = match element_property(e, inp.spec_property()) {
        Some(v) => v,
        None => PropertyValueView::Numeric(0),
    };
    match inp.view_of() {
        InputView::Numeric(n) => numeric_line(n, cur, active),
        InputView::Choice(c) => choice_line(c, crate::components::inputs::choice::choice_text(cur)),
    }
}

/// The lines of fields `first .. first + count`: one per field that has an input.
pub open spec fn fields_lines(inputs: Seq<PropertyInput>, e: Element, active: bool, first: nat, count: nat)
    -> Seq<Seq<(Seq<char>, Look)>>
    decreases count,
{
    if count == 0 {
        Seq::empty()
    } else {
        let prev = fields_lines(inputs, e, active, first, (count - 1) as nat);
        let k = first + count - 1;
        if k < inputs.len() { prev.push(input_line(inputs[k], e, active)) } else { prev }
    }
}

/// The number of fields in the first `n` sections.
pub open spec fn fields_before(sections: Seq<SectionView>, n: nat) -> nat
    decreases n,
{
    if n == 0 { 0 } else { fields_before(sections, (n - 1) as nat) + sections[n - 1].1.len() }
}

/// A section header line.
pub open spec fn header_line(title: Seq<char>) -> Seq<(Seq<char>, Look)> {
    seq![("  "@ + title + ":"@, Look { fg: None, bg: None, bold: true })]
}

/// A blank line.
pub open spec fn blank_runs() -> Seq<(Seq<char>, Look)> {
    seq![(Seq::<char>::empty(), plain_look())]
}

/// The lines of the first `n` sections: each header, its fields' lines and a blank.
pub open spec fn sections_lines(sections: Seq<SectionView>, inputs: Seq<PropertyInput>, e: Element, active: bool, n: nat)
    -> Seq<Seq<(Seq<char>, Look)>>
    decreases n,
{
    if n == 0 {
        Seq::empty()
    } else {
        sections_lines(sections, inputs, e, active, (n - 1) as nat)
            + seq![header_line(sections[n - 1].0)]
            + fields_lines(inputs, e, active, fields_before(sections, (n - 1) as nat), sections[n - 1].1.len())
            + seq![blank_runs()]
    }
}

/// The panel's lines for element `e` with `inputs`.
pub open spec fn panel_lines(e: Element, inputs: Seq<PropertyInput>, active: bool) -> Seq<Seq<(Seq<char>, Look)>> {
    seq![
        blank_runs(),
        seq![("  Type: "@, fg_look(Hue::Yellow)), (kind_text(e), plain_look())],
        seq![("  Name: "@, fg_look(Hue::Yellow)), (e.spec_name(), plain_look())],
        blank_runs(),
    ] + sections_lines(sections_of(e), inputs, e, active, sections_of(e).len()) + seq![shortcut_line()]
}

/// The element the panel shows, when there is one.
pub open spec fn panel_element(state: AppState) -> Option<Element> {
    let ids = state.selection_state.selected_ids@;
    if state.editing_table is Some || !state.show_properties || ids.len() != 1 {
        None
    } else {
        match index_of_id(state.canvas.spec_elements(), ids[0]) {
            Some(k) => Some(state.canvas.spec_elements()[k]),
            None => None,
        }
    }
}

impl PropertiesPanel {
    /// The panel while exactly one element is selected and properties are
    /// shown: where it stands and its lines. They start with a blank, the
    /// element's kind and name and a blank, then list each section's header
    /// with its fields' lines and a blank, and end with the shortcut line.
    #[verifier::spinoff_prover]
    #[verifier::rlimit(40)]
    pub fn draw(&mut self, state: &AppState) -> (r: Option<(ModalArea, Vec<Vec<Styled>>)>)
        requires
            old(self).wf(),
        ensures
            final(self).wf(),
            r is None <==> panel_element(*state) is None,
            panel_element(*state) matches Some(e) ==> final(self).spec_element() == Some(e.spec_id()),
            r matches Some((m, lines)) ==> panel_element(*state) matches Some(e) && {
                &&& m.area == bottom_left_rect(state.layout.canvas, 35,
                    (content_height(sections_of(e), sections_of(e).len()) + 2) as u16)
                &&& panel_lines_view(lines@) == panel_lines(e, final(self).spec_inputs(), state.active_panel == Panel::Properties)
            },
    {
        let (_id, element) = match PropertiesPanel::get_selected_element(state) {
            Some(x) => x,
            None => { return None; },
        };
        self.initialize(element);
        let spec = element.properties_spec();
        proof { lemma_heights_small(spec@); }
        let height = self.calculate_content_height(&spec);
        let area = PropertiesPanel::calculate_modal_area(state.layout.canvas, height);
        let mut lines: Vec<Vec<Styled>> = Vec::new();
        lines.push(blank_line());
        lines.push(label_value_line("Type", String::from_str(element.kind_name())));
        lines.push(label_value_line("Name", String::from_str(element.name())));
        lines.push(blank_line());
        let panel_active = state.active_panel == Panel::Properties;
        let ghost e = *element;
        let ghost sv = spec@;
        let ghost ins = self.spec_inputs();
        proof {
            reveal_strlit("  ");
            reveal_strlit(": ");
            reveal_strlit("Type");
            reveal_strlit("Name");
            reveal_strlit("  Type: ");
            reveal_strlit("  Name: ");
            assert(("  "@ + "Type"@ + ": "@) =~= "  Type: "@);
            assert(("  "@ + "Name"@ + ": "@) =~= "  Name: "@);
            assert(panel_lines_view(lines@) =~= seq![
                blank_runs(),
                seq![("  Type: "@, fg_look(Hue::Yellow)), (kind_text(e), plain_look())],
                seq![("  Name: "@, fg_look(Hue::Yellow)), (e.spec_name(), plain_look())],
                blank_runs(),
            ]);
        }
        let ghost head = panel_lines_view(lines@);
        let mut field_index: usize = 0;
        let mut s: usize = 0;
        while s < spec.sections.len()
            invariant
                self.wf(),
                self.spec_inputs() == ins,
                e == *element,
                sv == spec@,
                sv == sections_of(e),
                s <= sv.len(),
                field_index as int == (if fields_before(sv, s as nat) < ins.len() { fields_before(sv, s as nat) as int } else { ins.len() as int }),
                panel_lines_view(lines@) == head + sections_lines(sv, ins, e, panel_active, s as nat),
            decreases spec.sections.len() - s,
        {
            let ghost before_section = panel_lines_view(lines@);
            field_index = self.push_section(&mut lines, &spec.sections[s], field_index,
                Ghost(fields_before(sv, s as nat)), element, panel_active);
            proof {
                assert(spec.sections@[s as int]@ == sv[s as int]);
                lemma_sections_step(sv, ins, e, panel_active, s as nat);
                let x = seq![header_line(sv[s as int].0)]
                    + fields_lines(ins, e, panel_active, fields_before(sv, s as nat), sv[s as int].1.len())
                    + seq![blank_runs()];
                assert(spec.sections@[s as int]@.0 == sv[s as int].0);
                assert(spec.sections@[s as int]@.1.len() == sv[s as int].1.len());
                assert(panel_lines_view(lines@) == before_section + x);
                assert((head + sections_lines(sv, ins, e, panel_active, s as nat)) + x
                    =~= head + (sections_lines(sv, ins, e, panel_active, s as nat) + x));
            }
            s = s + 1;
        }
        let mut last: Vec<Styled> = Vec::new();
        last.push(padded_span("Toggle: ", muted_style()));
        last.push(styled(String::from_str("p"), muted_style()));
        last.push(padded_span("Edit: ", muted_style()));
        last.push(styled(String::from_str("Enter"), muted_style()));
        proof {
            reveal_strlit("Toggle: ");
            reveal_strlit("Edit: ");
            reveal_strlit("  Toggle: ");
            reveal_strlit("  Edit: ");
            reveal_strlit("p");
            reveal_strlit("Enter");
        }
        assert(("  "@ + "Toggle: "@) =~= "  Toggle: "@);
        assert(("  "@ + "Edit: "@) =~= "  Edit: "@);
        assert(runs_view(last@) =~= shortcut_line());
        let ghost prev3 = lines@;
        lines.push(last);
        proof {
            assert(lines@ == prev3.push(last));
            assert(panel_lines_view(prev3.push(last)) =~= panel_lines_view(prev3).push(runs_view(last@)));
            assert(panel_lines_view(lines@) =~= panel_lines(e, ins, panel_active));
        }
        Some((area, lines))
    }
}

/// The value the panel shows for property `name` of the element with id `id`.
fn current_value(canvas: &CanvasState, id: usize, name: &str) -> (r: PropertyValue)
    ensures
        r@ == shown_value(canvas.spec_elements(), id, name@),
{
    proof { lemma_index_of_id(canvas.spec_elements(), id); }
    match canvas.get_element(id) {
        Some(e) => match e.get_property(name) {
            Some(v) => v,
            None => PropertyValue::Numeric(0),
        },
        None => PropertyValue::Numeric(0),
    }
}

/// Stores a value an input produced, if any.
fn store_value(canvas: &mut CanvasState, id: usize, name: &str, change: Option<PropertyValue>)
    ensures
        match change {
            Some(v) => property_stored(old(canvas).spec_elements(), final(canvas).spec_elements(), id, name@, v@),
            None => *final(canvas) == *old(canvas),
        },
        final(canvas).spec_next_id() == old(canvas).spec_next_id(),
{
    if let Some(v) = change {
        let ghost vv = v@;
        let r = canvas.set_element_property(id, name, v);
        proof {
            match index_of_id(old(canvas).spec_elements(), id) {
                Some(i) => if old(canvas).spec_elements()[i].settable(name@) {
                    assert(property_set(old(canvas).spec_elements()[i], canvas.spec_elements()[i], name@, vv, r->0));
                },
                None => {},
            }
        }
    }
}

/// `p1`, `s1` and `r` are what handing `key` to input `idx` of `p0` gives,
/// for the element with id `element_id`: the input steps (see `input_step`)
/// from the element's current value, a value it produces is stored in the
/// element, and nothing else changes.
pub open spec fn forwarded(p0: PropertiesPanel, p1: PropertiesPanel, s0: AppState, s1: AppState, idx: usize,
    key: KeyEvent, element_id: usize, r: EventResult) -> bool
{
    let inp = p0.spec_inputs()[idx as int];
    let cur = shown_value(s0.canvas.spec_elements(), element_id, inp.spec_property());
    let (next, res, stored) = input_step(inp.view_of(), key.code, cur);
    &&& p1.spec_inputs().len() == p0.spec_inputs().len()
    &&& p1.spec_focus() == p0.spec_focus()
    &&& p1.spec_element() == p0.spec_element()
    &&& forall|k: int| 0 <= k < p0.spec_inputs().len() && k != idx ==> p1.spec_inputs()[k] == p0.spec_inputs()[k]
    &&& r == res
    &&& p1.spec_inputs()[idx as int].view_of() == next
    &&& match stored {
        Some(v) => property_stored(s0.canvas.spec_elements(), s1.canvas.spec_elements(), element_id, inp.spec_property(), v),
        None => s1.canvas == s0.canvas,
    }
    &&& s1 == (AppState { canvas: s1.canvas, ..s0 })
    &&& s1.canvas.spec_next_id() == s0.canvas.spec_next_id()
}

/// The focus after moving it to the next input (wrapping; the first when none).
pub open spec fn next_focus(focus: Option<usize>, n: int) -> Option<usize> {
    Some(match focus {
        Some(i) => ((i + 1) % n) as usize,
        None => 0usize,
    })
}

/// The focus after moving it to the previous input (wrapping; the first when none).
pub open spec fn prev_focus(focus: Option<usize>, n: int) -> Option<usize> {
    Some(match focus {
        Some(i) => if i == 0 { (n - 1) as usize } else { (i - 1) as usize },
        None => 0usize,
    })
}

/// `p1` is `p0` made to show `element`: kept as it is when it already shows
/// it; otherwise one fresh input per editable field, the first focused.
pub open spec fn panel_rebuilt(p0: PropertiesPanel, p1: PropertiesPanel, element: Element) -> bool {
    &&& p1.spec_element() == Some(element.spec_id())
    &&& p0.spec_element() == Some(element.spec_id()) ==> p1 == p0
    &&& p0.spec_element() != Some(element.spec_id()) ==> {
        let fs = editable_fields(flatten_fields(sections_of(element)));
        &&& p1.spec_inputs().len() == fs.len()
        &&& forall|k: int| 0 <= k < fs.len() ==> #[trigger] p1.spec_inputs()[k].view_of()
            == (if k == 0 { focus_view(fresh_input(fs[k]), true) } else { fresh_input(fs[k]) })
        &&& p1.spec_focus() == (if fs.len() > 0 { Some(0usize) } else { None })
    }
}

/// What a key does on the properties panel whose inputs already belong to
/// the shown element `id`: an editing input gets it; otherwise Tab, Down and
/// `j` move the focus on, Up and `k` back, Enter goes to the focused input,
/// Left and Right are swallowed, other keys are left.
pub open spec fn panel_key_done(p0: PropertiesPanel, p1: PropertiesPanel, s0: AppState, s1: AppState,
    key: KeyEvent, id: usize, r: EventResult) -> bool
{
    let n = p0.spec_inputs().len() as int;
    let stays = s1 == s0;
    let moved_on = r == EventResult::Consumed && stays && p1.spec_focus() == next_focus(p0.spec_focus(), n);
    let moved_back = r == EventResult::Consumed && stays && p1.spec_focus() == prev_focus(p0.spec_focus(), n);
    let left = r == EventResult::Ignored && stays;
    if p0.spec_focus() matches Some(i) && p0.spec_inputs()[i as int].spec_editing() {
        forwarded(p0, p1, s0, s1, p0.spec_focus()->0, key, id, r)
    } else {
        match key.code {
            KeyCode::Tab | KeyCode::Down => moved_on,
            KeyCode::Up => moved_back,
            KeyCode::Char(c) => if c == 'j' { moved_on } else if c == 'k' { moved_back } else { left },
            KeyCode::Enter => match p0.spec_focus() {
                Some(i) => forwarded(p0, p1, s0, s1, i, key, id, r),
                None => left,
            },
            KeyCode::Left | KeyCode::Right => r == EventResult::Consumed && stays,
            _ => left,
        }
    }
}

impl PropertiesPanel {
    /// Hands a key to input `idx` and puts it back.
    fn step_input(&mut self, idx: usize, key: &KeyEvent, current: &PropertyValue) -> (r: (EventResult, Option<PropertyValue>))
        requires
            old(self).wf(),
            idx < old(self).spec_inputs().len(),
        ensures
            final(self).wf(),
            final(self).spec_inputs().len() == old(self).spec_inputs().len(),
            final(self).spec_focus() == old(self).spec_focus(),
            final(self).spec_element() == old(self).spec_element(),
            forall|k: int| 0 <= k < old(self).spec_inputs().len() && k != idx ==>
                final(self).spec_inputs()[k] == old(self).spec_inputs()[k],
            final(self).spec_inputs()[idx as int].spec_property() == old(self).spec_inputs()[idx as int].spec_property(),
            ({
                let (next, res, stored) = input_step(old(self).spec_inputs()[idx as int].view_of(), key.code, current@);
                &&& r.0 == res
                &&& final(self).spec_inputs()[idx as int].view_of() == next
                &&& match stored {
                    Some(v) => r.1 matches Some(w) && w@ == v,
                    None => r.1 is None,
                }
            }),
    {
        let ghost before = self.inputs@;
        let mut input = self.inputs.remove(idx);
        let r = input.handle_key_event(key, current);
        self.inputs.insert(idx, input);
        assert forall|k: int| 0 <= k < before.len() && k != idx implies self.inputs@[k] == before[k] by {
            if k < idx {
            } else {
            }
        }
        r
    }
}

impl PropertiesPanel {
    /// The line of input `idx` for `element`.
    fn field_line(&self, idx: usize, element: &Element, active: bool) -> (r: Vec<Styled>)
        requires
            idx < self.spec_inputs().len(),
        ensures
            runs_view(r@) == input_line(self.spec_inputs()[idx as int], *element, active),
    {
        let name = self.inputs[idx].property_name();
        let current = match element.get_property(name) {
            Some(v) => v,
            None => PropertyValue::Numeric(0),
        };
        assert(current@ == (match element_property(*element, self.spec_inputs()[idx as int].spec_property()) {
            Some(v) => v,
            None => PropertyValueView::Numeric(0),
        }));
        self.inputs[idx].render_line(&current, active)
    }

    /// Appends the lines of `count` fields, the first numbered `first`
    /// (`start` is that number, or the number of inputs when it is larger);
    /// gives the number after them in the same way.
    fn push_fields(&self, lines: &mut Vec<Vec<Styled>>, count: usize, start: usize, Ghost(first): Ghost<nat>,
        element: &Element, active: bool) -> (next: usize)
        requires
            start as int == (if first < self.spec_inputs().len() { first as int } else { self.spec_inputs().len() as int }),
        ensures
            panel_lines_view(final(lines)@) == panel_lines_view(old(lines)@)
                + fields_lines(self.spec_inputs(), *element, active, first, count as nat),
            next as int == (if first + count < self.spec_inputs().len() { first + count } else { self.spec_inputs().len() as int }),
    {
        let ghost ins = self.spec_inputs();
        let mut idx = start;
        let mut f: usize = 0;
        while f < count
            invariant
                ins == self.spec_inputs(),
                f <= count,
                idx as int == (if first + f < ins.len() { first + f } else { ins.len() as int }),
                panel_lines_view(lines@) == panel_lines_view(old(lines)@)
                    + fields_lines(ins, *element, active, first, f as nat),
            decreases count - f,
        {
            let ghost prev = lines@;
            if idx < self.inputs.len() {
                let line = self.field_line(idx, element, active);
                lines.push(line);
                proof {
                    assert(lines@ == prev.push(line));
                    assert(panel_lines_view(prev.push(line)) =~= panel_lines_view(prev).push(runs_view(line@)));
                }
                idx = idx + 1;
            }
            proof {
                assert(panel_lines_view(lines@) =~= panel_lines_view(old(lines)@)
                    + fields_lines(ins, *element, active, first, (f + 1) as nat));
            }
            f = f + 1;
        }
        idx
    }
}

impl PropertiesPanel {
    /// Appends a section's header, its fields' lines and a blank.
    fn push_section(&self, lines: &mut Vec<Vec<Styled>>, section: &crate::elements::properties::PropertySection,
        start: usize, Ghost(first): Ghost<nat>, element: &Element, active: bool) -> (next: usize)
        requires
            start as int == (if first < self.spec_inputs().len() { first as int } else { self.spec_inputs().len() as int }),
        ensures
            panel_lines_view(final(lines)@) == panel_lines_view(old(lines)@)
                + (seq![header_line(section@.0)]
                + fields_lines(self.spec_inputs(), *element, active, first, section@.1.len())
                + seq![blank_runs()]),
            next as int == (if first + section@.1.len() < self.spec_inputs().len() { (first + section@.1.len()) as int }
                else { self.spec_inputs().len() as int }),
    {
        let header = section_header(section.title.as_str());
        let ghost p0 = lines@;
        lines.push(header);
        proof {
            assert(lines@ == p0.push(header));
            assert(panel_lines_view(p0.push(header)) =~= panel_lines_view(p0).push(runs_view(header@)));
        }
        let ghost p1 = lines@;
        let next = self.push_fields(lines, section.fields.len(), start, Ghost(first), element, active);
        let blank = blank_line();
        let ghost p2 = lines@;
        lines.push(blank);
        proof {
            assert(lines@ == p2.push(blank));
            assert(panel_lines_view(p2.push(blank)) =~= panel_lines_view(p2).push(runs_view(blank@)));
            assert(panel_lines_view(lines@) =~= panel_lines_view(old(lines)@)
                + (seq![header_line(section@.0)]
                + fields_lines(self.spec_inputs(), *element, active, first, section@.1.len())
                + seq![blank_runs()]));
        }
        next
    }
}

proof fn lemma_sections_step(sv: Seq<SectionView>, ins: Seq<PropertyInput>, e: Element, active: bool, s: nat)
    requires
        s < sv.len(),
    ensures
        sections_lines(sv, ins, e, active, s + 1) == sections_lines(sv, ins, e, active, s)
            + (seq![header_line(sv[s as int].0)]
            + fields_lines(ins, e, active, fields_before(sv, s), sv[s as int].1.len())
            + seq![blank_runs()]),
{
    let a = sections_lines(sv, ins, e, active, s);
    let h = seq![header_line(sv[s as int].0)];
    let f = fields_lines(ins, e, active, fields_before(sv, s), sv[s as int].1.len());
    let b = seq![blank_runs()];
    assert(((a + h) + f) + b =~= a + ((h + f) + b));
}

} // verus!
