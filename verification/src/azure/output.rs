//! What a command reports: named values, row by row.

use vstd::prelude::*;
use vstd::string::*;

verus! {

/// A value that a command reports.
#[derive(Debug, Clone, PartialEq, Eq)]
pub enum FieldValue {
    Text(String),
    Integer(i64),
    Unsigned(u64),
    Bool(bool),
    /// A floating-point number, by its bits as `f64::to_bits` gives them.
    Float(u64),
}

/// A [`FieldValue`] as a plain value.
pub enum FieldValueView {
    Text(Seq<char>),
    Integer(i64),
    Unsigned(u64),
    Bool(bool),
    Float(u64),
}

impl View for FieldValue {
    type V = FieldValueView;

    open spec fn view(&self) -> FieldValueView {
        match *self {
            FieldValue::Text(text) => FieldValueView::Text(text@),
            FieldValue::Integer(n) => FieldValueView::Integer(n),
            FieldValue::Unsigned(n) => FieldValueView::Unsigned(n),
            FieldValue::Bool(b) => FieldValueView::Bool(b),
            FieldValue::Float(bits) => FieldValueView::Float(bits),
        }
    }
}

/// A named value that a command reports.
#[derive(Debug, Clone, PartialEq, Eq)]
pub struct Field {
    pub name: String,
    pub value: FieldValue,
}

/// A [`Field`] as a plain value.
pub struct FieldView {
    pub name: Seq<char>,
    pub value: FieldValueView,
}

impl View for Field {
    type V = FieldView;

    open spec fn view(&self) -> FieldView {
        FieldView { name: self.name@, value: self.value@ }
    }
}

/// The fields of a list as plain values.
pub open spec fn field_views(fields: Seq<Field>) -> Seq<FieldView> {
    fields.map_values(|field: Field| field@)
}

/// A field that holds a text.
pub open spec fn text_field(name: Seq<char>, text: Seq<char>) -> FieldView {
    FieldView { name, value: FieldValueView::Text(text) }
}

/// A field that holds a signed integer.
pub open spec fn integer_field(name: Seq<char>, n: i64) -> FieldView {
    FieldView { name, value: FieldValueView::Integer(n) }
}

/// A field that holds a truth value.
pub open spec fn bool_field(name: Seq<char>, b: bool) -> FieldView {
    FieldView { name, value: FieldValueView::Bool(b) }
}

/// The field for a text that may be missing: one field, or none.
pub open spec fn text_if(name: Seq<char>, text: Option<String>) -> Seq<FieldView> {
    match text {
        Some(t) => seq![text_field(name, t@)],
        None => Seq::empty(),
    }
}

/// The field for a count that may be missing: one field, or none.
pub open spec fn count_if(name: Seq<char>, count: Option<i32>) -> Seq<FieldView> {
    match count {
        Some(n) => seq![integer_field(name, n as i64)],
        None => Seq::empty(),
    }
}

/// The field for a name that may be missing: one field, or none.
pub open spec fn name_if(name: Seq<char>, value: Option<Seq<char>>) -> Seq<FieldView> {
    match value {
        Some(v) => seq![text_field(name, v)],
        None => Seq::empty(),
    }
}

/// Adds a field that holds a text.
pub fn push_text(fields: &mut Vec<Field>, name: &str, text: &str)
    ensures
        field_views(final(fields)@) == field_views(old(fields)@).push(text_field(name@, text@)),
{
    fields.push(
        Field { name: String::from_str(name), value: FieldValue::Text(String::from_str(text)) },
    );
}

/// Adds a field for a text, where there is one.
pub fn push_text_if(fields: &mut Vec<Field>, name: &str, text: &Option<String>)
    ensures
        field_views(final(fields)@) == field_views(old(fields)@) + text_if(name@, *text),
{
    match text {
        Some(t) => {
            push_text(fields, name, t.as_str());
        },
        None => {
        },
    }
}

/// Adds a field for a count, where there is one.
pub fn push_count_if(fields: &mut Vec<Field>, name: &str, count: Option<i32>)
    ensures
        field_views(final(fields)@) == field_views(old(fields)@) + count_if(name@, count),
{
    match count {
        Some(n) => {
            fields.push(
                Field { name: String::from_str(name), value: FieldValue::Integer(n as i64) },
            );
        },
        None => {
        },
    }
}

/// The view of a name that may be missing.
pub open spec fn name_view(name: Option<&str>) -> Option<Seq<char>> {
    match name {
        Some(n) => Some(n@),
        None => None,
    }
}

/// Adds a field for a name, where there is one.
pub fn push_name_if(fields: &mut Vec<Field>, name: &str, value: Option<&str>)
    ensures
        field_views(final(fields)@) == field_views(old(fields)@) + name_if(name@, name_view(value)),
{
    match value {
        Some(v) => {
            push_text(fields, name, v);
        },
        None => {
        },
    }
}

/// The field for a floating-point number that may be missing: one field, or
/// none.
pub open spec fn float_if(name: Seq<char>, bits: Option<u64>) -> Seq<FieldView> {
    match bits {
        Some(b) => seq![FieldView { name, value: FieldValueView::Float(b) }],
        None => Seq::empty(),
    }
}

/// Adds a field for a floating-point number, where there is one.
pub fn push_float_if(fields: &mut Vec<Field>, name: &str, bits: Option<u64>)
    ensures
        field_views(final(fields)@) == field_views(old(fields)@) + float_if(name@, bits),
{
    match bits {
        Some(b) => {
            fields.push(Field { name: String::from_str(name), value: FieldValue::Float(b) });
        },
        None => {
        },
    }
}

/// No fields.
pub fn no_fields() -> (fields: Vec<Field>)
    ensures
        field_views(fields@) == Seq::<FieldView>::empty(),
{
    Vec::new()
}

/// Adds a field that holds a truth value.
pub fn push_bool(fields: &mut Vec<Field>, name: &str, b: bool)
    ensures
        field_views(final(fields)@) == field_views(old(fields)@).push(bool_field(name@, b)),
{
    fields.push(Field { name: String::from_str(name), value: FieldValue::Bool(b) });
}

/// The fields of one row of what a command reports. A command that reports
/// one thing reports it in a row without an index.
#[derive(Debug, Clone, PartialEq, Eq)]
pub struct Row {
    pub index: Option<usize>,
    pub fields: Vec<Field>,
}

/// A [`Row`] as a plain value.
pub struct RowView {
    pub index: Option<usize>,
    pub fields: Seq<FieldView>,
}

impl View for Row {
    type V = RowView;

    open spec fn view(&self) -> RowView {
        RowView { index: self.index, fields: field_views(self.fields@) }
    }
}

/// The rows of a list as plain values.
pub open spec fn row_views(rows: Seq<Row>) -> Seq<RowView> {
    rows.map_values(|row: Row| row@)
}

} // verus!
