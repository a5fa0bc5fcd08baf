use vstd::prelude::*;

verus! {

/// Why reading or setting a property failed.
#[derive(Debug, Clone, PartialEq, Eq)]
pub enum PropertyError {
    NotNumeric,
    NotText,
    NotChoice,
    NotBoolean,
    /// The style name given.
    InvalidBorderStyle(String),
    WidthZero,
    HeightZero,
    RowsOutOfRange,
    ColsOutOfRange,
    /// The property name given.
    UnknownProperty(String),
}

/// `PropertyError` with its names taken as character sequences.
pub enum PropertyErrorView {
    NotNumeric,
    NotText,
    NotChoice,
    NotBoolean,
    InvalidBorderStyle(Seq<char>),
    WidthZero,
    HeightZero,
    RowsOutOfRange,
    ColsOutOfRange,
    UnknownProperty(Seq<char>),
}

impl View for PropertyError {
    type V = PropertyErrorView;

    open spec fn view(&self) -> PropertyErrorView {
        match self {
            PropertyError::NotNumeric => PropertyErrorView::NotNumeric,
            PropertyError::NotText => PropertyErrorView::NotText,
            PropertyError::NotChoice => PropertyErrorView::NotChoice,
            PropertyError::NotBoolean => PropertyErrorView::NotBoolean,
            PropertyError::InvalidBorderStyle(s) => PropertyErrorView::InvalidBorderStyle(s@),
            PropertyError::WidthZero => PropertyErrorView::WidthZero,
            PropertyError::HeightZero => PropertyErrorView::HeightZero,
            PropertyError::RowsOutOfRange => PropertyErrorView::RowsOutOfRange,
            PropertyError::ColsOutOfRange => PropertyErrorView::ColsOutOfRange,
            PropertyError::UnknownProperty(s) => PropertyErrorView::UnknownProperty(s@),
        }
    }
}

/// The text that reports an error.
pub open spec fn error_message(e: PropertyErrorView) -> Seq<char> {
    match e {
        PropertyErrorView::NotNumeric => "Property value is not numeric"@,
        PropertyErrorView::NotText => "Property value is not text"@,
        PropertyErrorView::NotChoice => "Property value is not a choice"@,
        PropertyErrorView::NotBoolean => "Property value is not boolean"@,
        PropertyErrorView::InvalidBorderStyle(s) => "Invalid border style: "@ + s,
        PropertyErrorView::WidthZero => "Width must be greater than 0"@,
        PropertyErrorView::HeightZero => "Height must be greater than 0"@,
        PropertyErrorView::RowsOutOfRange => "Rows must be between 1 and 20"@,
        PropertyErrorView::ColsOutOfRange => "Cols must be between 1 and 10"@,
        PropertyErrorView::UnknownProperty(s) => "Unknown property: "@ + s,
    }
}

impl PropertyError {
    /// The text that reports the error.
    pub fn message(&self) -> (m: String)
        ensures
            m@ == error_message(self@),
    {
        match self {
            PropertyError::NotNumeric => String::from_str("Property value is not numeric"),
            PropertyError::NotText => String::from_str("Property value is not text"),
            PropertyError::NotChoice => String::from_str("Property value is not a choice"),
            PropertyError::NotBoolean => String::from_str("Property value is not boolean"),
            PropertyError::InvalidBorderStyle(s) => {
                let mut m = String::from_str("Invalid border style: ");
                crate::text::push_str(&mut m, s.as_str());
                m
            },
            PropertyError::WidthZero => String::from_str("Width must be greater than 0"),
            PropertyError::HeightZero => String::from_str("Height must be greater than 0"),
            PropertyError::RowsOutOfRange => String::from_str("Rows must be between 1 and 20"),
            PropertyError::ColsOutOfRange => String::from_str("Cols must be between 1 and 10"),
            PropertyError::UnknownProperty(s) => {
                let mut m = String::from_str("Unknown property: ");
                crate::text::push_str(&mut m, s.as_str());
                m
            },
        }
    }
}

/// The kind of a property field, with its limits.
#[derive(Debug, Clone)]
pub enum FieldType {
    Numeric { min: u16, max: u16 },
    Text { max_length: usize },
    Choice { options: Vec<String> },
    Boolean,
}

/// `FieldType` with its strings taken as character sequences.
pub enum FieldTypeView {
    Numeric { min: u16, max: u16 },
    Text { max_length: usize },
    Choice { options: Seq<Seq<char>> },
    Boolean,
}

impl View for FieldType {
    type V = FieldTypeView;

    open spec fn view(&self) -> FieldTypeView {
        match self {
            FieldType::Numeric { min, max } => FieldTypeView::Numeric { min: *min, max: *max },
            FieldType::Text { max_length } => FieldTypeView::Text { max_length: *max_length },
            FieldType::Choice { options } => FieldTypeView::Choice {
                options: options@.map_values(|s: String| s@),
            },
            FieldType::Boolean => FieldTypeView::Boolean,
        }
    }
}

/// One editable property: its key, its label and its kind.
#[derive(Debug, Clone)]
pub struct PropertyField {
    pub name: String,
    pub label: String,
    pub field_type: FieldType,
}

/// `(name, label, kind)` of a field.
pub type FieldView = (Seq<char>, Seq<char>, FieldTypeView);

impl View for PropertyField {
    type V = FieldView;

    open spec fn view(&self) -> FieldView {
        (self.name@, self.label@, self.field_type@)
    }
}

impl PropertyField {
    pub fn new(name: &str, label: &str, field_type: FieldType) -> (f: Self)
        ensures
            f.name@ == name@,
            f.label@ == label@,
            f.field_type == field_type,
    {
        PropertyField {
            name: String::from_str(name),
            label: String::from_str(label),
            field_type,
        }
    }
}

/// A titled group of fields.
#[derive(Debug, Clone)]
pub struct PropertySection {
    pub title: String,
    pub fields: Vec<PropertyField>,
}

/// `(title, fields)` of a section.
pub type SectionView = (Seq<char>, Seq<FieldView>);

impl View for PropertySection {
    type V = SectionView;

    open spec fn view(&self) -> SectionView {
        (self.title@, self.fields@.map_values(|f: PropertyField| f@))
    }
}

impl PropertySection {
    /// An empty section with the given title.
    pub fn new(title: &str) -> (s: Self)
        ensures
            s@ == (title@, Seq::<FieldView>::empty()),
    {
        let s = PropertySection { title: String::from_str(title), fields: Vec::new() };
        assert(s.fields@.map_values(|f: PropertyField| f@) =~= Seq::<FieldView>::empty());
        s
    }

    /// Appends a field.
    pub fn add_field(&mut self, field: PropertyField)
        ensures
            final(self)@ == (old(self)@.0, old(self)@.1.push(field@)),
    {
        self.fields.push(field);
        assert(self.fields@.map_values(|f: PropertyField| f@) =~= old(self)@.1.push(field@));
    }

    /// The section with a numeric field appended.
    pub fn numeric(self, name: &str, label: &str, min: u16, max: u16) -> (s: Self)
        ensures
            s@ == (self@.0, self@.1.push((name@, label@, FieldTypeView::Numeric { min, max }))),
    {
        let mut s = self;
        s.add_field(PropertyField::new(name, label, FieldType::Numeric { min, max }));
        s
    }

    /// The section with a text field appended.
    pub fn text(self, name: &str, label: &str, max_length: usize) -> (s: Self)
        ensures
            s@ == (self@.0, self@.1.push((name@, label@, FieldTypeView::Text { max_length }))),
    {
        let mut s = self;
        s.add_field(PropertyField::new(name, label, FieldType::Text { max_length }));
        s
    }

    /// The section with a choice field appended.
    pub fn choice(self, name: &str, label: &str, options: Vec<String>) -> (s: Self)
        ensures
            s@ == (self@.0, self@.1.push((name@, label@, FieldTypeView::Choice {
                options: options@.map_values(|o: String| o@),
            }))),
    {
        let mut s = self;
        s.add_field(PropertyField::new(name, label, FieldType::Choice { options }));
        s
    }

    /// The section with a boolean field appended.
    pub fn boolean(self, name: &str, label: &str) -> (s: Self)
        ensures
            s@ == (self@.0, self@.1.push((name@, label@, FieldTypeView::Boolean))),
    {
        let mut s = self;
        s.add_field(PropertyField::new(name, label, FieldType::Boolean));
        s
    }
}

/// The sections of fields an element offers for editing.
#[derive(Debug, Clone)]
pub struct PropertiesSpec {
    pub sections: Vec<PropertySection>,
}

impl View for PropertiesSpec {
    type V = Seq<SectionView>;

    open spec fn view(&self) -> Seq<SectionView> {
        self.sections@.map_values(|s: PropertySection| s@)
    }
}

/// All fields of the sections, section after section.
pub open spec fn flatten_fields(sections: Seq<SectionView>) -> Seq<FieldView>
    decreases sections.len(),
{
    if sections.len() == 0 {
        Seq::empty()
    } else {
        flatten_fields(sections.drop_last()) + sections.last().1
    }
}

/// The index of the first field named `name`, if any.
pub open spec fn first_field_named(fields: Seq<FieldView>, name: Seq<char>) -> Option<int> {
    if exists|i: int| 0 <= i < fields.len() && fields[i].0 == name {
        Some(choose|i: int| 0 <= i < fields.len() && fields[i].0 == name
            && forall|j: int| 0 <= j < i ==> fields[j].0 != name)
    } else {
        None
    }
}

impl PropertiesSpec {
    /// A spec without sections.
    pub fn new() -> (s: Self)
        ensures
            s@ == Seq::<SectionView>::empty(),
    {
        let s = PropertiesSpec { sections: Vec::new() };
        assert(s@ =~= Seq::<SectionView>::empty());
        s
    }

    /// Appends a section.
    pub fn add_section(&mut self, section: PropertySection)
        ensures
            final(self)@ == old(self)@.push(section@),
    {
        self.sections.push(section);
        assert(self@ =~= old(self)@.push(section@));
    }

    /// Appends the section that `builder` makes from an empty section titled `title`.
    pub fn section<F: FnOnce(PropertySection) -> PropertySection>(self, title: &str, builder: F) -> (s: Self)
        requires
            forall|p: PropertySection| call_requires(builder, (p,)),
        ensures
            s@.len() == self@.len() + 1,
            s@.subrange(0, self@.len() as int) == self@,
            exists|p: PropertySection, q: PropertySection|
                p@ == (title@, Seq::<FieldView>::empty()) && call_ensures(builder, (p,), q)
                    && s@.last() == q@,
    {
        let start = PropertySection::new(title);
        let built = builder(start);
        let mut s = self;
        s.add_section(built);
        assert(s@.subrange(0, self@.len() as int) =~= self@);
        s
    }

    /// The fields of all sections, in order.
    pub fn all_fields(&self) -> (v: Vec<&PropertyField>)
        ensures
            v@.map_values(|f: &PropertyField| f@) == flatten_fields(self@),
    {
        let mut v: Vec<&PropertyField> = Vec::new();
        let mut i: usize = 0;
        while i < self.sections.len()
            invariant
                i <= self.sections@.len(),
                v@.map_values(|f: &PropertyField| f@) == flatten_fields(self@.subrange(0, i as int)),
            decreases self.sections.len() - i,
        {
            let section = &self.sections[i];
            let mut j: usize = 0;
            let ghost before = v@.map_values(|f: &PropertyField| f@);
            while j < section.fields.len()
                invariant
                    j <= section.fields@.len(),
                    v@.map_values(|f: &PropertyField| f@)
                        == before + section@.1.subrange(0, j as int),
                decreases section.fields.len() - j,
            {
                let ghost old_v = v@;
                v.push(&section.fields[j]);
                assert(v@.map_values(|f: &PropertyField| f@)
                    =~= old_v.map_values(|f: &PropertyField| f@).push(section.fields@[j as int]@));
                assert(section@.1.subrange(0, j + 1)
                    =~= section@.1.subrange(0, j as int).push(section.fields@[j as int]@));
                j = j + 1;
            }
            assert(section@.1.subrange(0, j as int) =~= section@.1);
            assert(self@.subrange(0, i + 1).drop_last() =~= self@.subrange(0, i as int));
            i = i + 1;
        }
        assert(self@.subrange(0, i as int) =~= self@);
        v
    }

    /// The first field named `name`, if there is one.
    pub fn get_field(&self, name: &str) -> (r: Option<&PropertyField>)
        ensures
            match first_field_named(flatten_fields(self@), name@) {
                Some(i) => r is Some && r->0@ == flatten_fields(self@)[i],
                None => r is None,
            },
    {
        let fields = self.all_fields();
        let ghost fv = fields@.map_values(|f: &PropertyField| f@);
        let mut i: usize = 0;
        while i < fields.len()
            invariant
                fv == flatten_fields(self@),
                fv == fields@.map_values(|f: &PropertyField| f@),
                i <= fields@.len(),
                forall|j: int| 0 <= j < i ==> fv[j].0 != name@,
            decreases fields.len() - i,
        {
            if crate::text::str_eq(fields[i].name.as_str(), name) {
                assert(fv[i as int].0 == name@);
                let ghost k = first_field_named(fv, name@);
                proof {
                    let c = choose|c: int| 0 <= c < fv.len() && fv[c].0 == name@
                        && forall|j: int| 0 <= j < c ==> fv[j].0 != name@;
                    assert(c == i as int) by {
                        if c < i {
                            assert(fv[c].0 != name@);
                        }
                        if c > i {
                            assert(fv[i as int].0 != name@);
                        }
                    }
                }
                return Some(fields[i]);
            }
            i = i + 1;
        }
        None
    }
}

impl Default for PropertiesSpec {
    fn default() -> (s: Self)
        ensures
            s@ == Seq::<SectionView>::empty(),
    {
        PropertiesSpec::new()
    }
}

/// The value of a property.
#[derive(Debug, Clone)]
pub enum PropertyValue {
    Numeric(u16),
    Text(String),
    Choice(String),
    Boolean(bool),
}

/// `PropertyValue` with its strings taken as character sequences.
pub enum PropertyValueView {
    Numeric(u16),
    Text(Seq<char>),
    Choice(Seq<char>),
    Boolean(bool),
}

impl View for PropertyValue {
    type V = PropertyValueView;

    open spec fn view(&self) -> PropertyValueView {
        match self {
            PropertyValue::Numeric(n) => PropertyValueView::Numeric(*n),
            PropertyValue::Text(s) => PropertyValueView::Text(s@),
            PropertyValue::Choice(s) => PropertyValueView::Choice(s@),
            PropertyValue::Boolean(b) => PropertyValueView::Boolean(*b),
        }
    }
}

impl PropertyValue {
    /// The number, when the value is numeric.
    pub fn as_numeric(&self) -> (r: Result<u16, PropertyError>)
        ensures
            match self {
                PropertyValue::Numeric(n) => r == Ok::<u16, PropertyError>(*n),
                _ => r == Err::<u16, PropertyError>(PropertyError::NotNumeric),
            },
    {
        match self {
            PropertyValue::Numeric(n) => Ok(*n),
            _ => Err(PropertyError::NotNumeric),
        }
    }

    /// The text, when the value is text.
    pub fn as_text(&self) -> (r: Result<&str, PropertyError>)
        ensures
            match self {
                PropertyValue::Text(s) => r is Ok && r->Ok_0@ == s@,
                _ => r == Err::<&str, PropertyError>(PropertyError::NotText),
            },
    {
        match self {
            PropertyValue::Text(s) => Ok(s.as_str()),
            _ => Err(PropertyError::NotText),
        }
    }

    /// The chosen option, when the value is a choice.
    pub fn as_choice(&self) -> (r: Result<&str, PropertyError>)
        ensures
            match self {
                PropertyValue::Choice(s) => r is Ok && r->Ok_0@ == s@,
                _ => r == Err::<&str, PropertyError>(PropertyError::NotChoice),
            },
    {
        match self {
            PropertyValue::Choice(s) => Ok(s.as_str()),
            _ => Err(PropertyError::NotChoice),
        }
    }

    /// The flag, when the value is boolean.
    pub fn as_boolean(&self) -> (r: Result<bool, PropertyError>)
        ensures
            match self {
                PropertyValue::Boolean(b) => r == Ok::<bool, PropertyError>(*b),
                _ => r == Err::<bool, PropertyError>(PropertyError::NotBoolean),
            },
    {
        match self {
            PropertyValue::Boolean(b) => Ok(*b),
            _ => Err(PropertyError::NotBoolean),
        }
    }
}

/// Elements whose properties can be listed, read and set by name.
pub trait HasProperties {
    /// The element's sizes leave room for any accepted change of property `name`.
    spec fn settable(&self, name: Seq<char>) -> bool;

    fn properties_spec(&self) -> PropertiesSpec;

    fn get_property(&self, name: &str) -> Option<PropertyValue>;

    fn set_property(&mut self, name: &str, value: PropertyValue) -> Result<(), PropertyError>
        requires
            old(self).settable(name@),
    ;
}

} // verus!
