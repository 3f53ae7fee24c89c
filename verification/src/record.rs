//! The record that the host's callback receives for the kind of an event.
//!
//! The host is handed an object whose `type` holds a `direction` and what
//! goes with it: the key or button by name, the position of the pointer, or
//! the deltas of the wheel. This module says which properties there are, in
//! which order, and what each holds.

use vstd::prelude::*;
use crate::event::{Coord, EventKind};

verus! {

/// What a property holds.
#[derive(Debug, PartialEq, Eq)]
pub enum Value {
    Integer(i64),
    Number(Coord),
    Text(String),
}

/// A `Value` in specifications.
pub enum ValueView {
    Integer(i64),
    Number(Coord),
    Text(Seq<char>),
}

impl View for Value {
    type V = ValueView;

    open spec fn view(&self) -> ValueView {
        match self {
            Value::Integer(n) => ValueView::Integer(*n),
            Value::Number(c) => ValueView::Number(*c),
            Value::Text(t) => ValueView::Text(t@),
        }
    }
}

/// One property of the record: its name and what it holds.
#[derive(Debug, PartialEq, Eq)]
pub struct Property {
    pub name: &'static str,
    pub value: Value,
}

/// A `Property` in specifications.
pub struct PropertyView {
    pub name: Seq<char>,
    pub value: ValueView,
}

impl View for Property {
    type V = PropertyView;

    open spec fn view(&self) -> PropertyView {
        PropertyView { name: self.name@, value: self.value@ }
    }
}

/// The properties in `properties`, each by its view.
pub open spec fn views(properties: Seq<Property>) -> Seq<PropertyView> {
    properties.map_values(|p: Property| p@)
}

impl EventKind {
    /// The properties of the record for this kind. The `direction` comes
    /// first. A key or a button follows under `key`, by its name; a position
    /// under `x` and `y`; the deltas of the wheel under `deltaX` and
    /// `deltaY`.
    pub open spec fn properties_of(self) -> Seq<PropertyView> {
        let direction = PropertyView {
            name: "direction"@,
            value: ValueView::Text(self.direction_of()),
        };
        match self {
            EventKind::KeyPress { key } | EventKind::KeyRelease { key } => seq![
                direction,
                PropertyView { name: "key"@, value: ValueView::Text(key.name_of()) },
            ],
            EventKind::ButtonPress { button } | EventKind::ButtonRelease { button } => seq![
                direction,
                PropertyView { name: "key"@, value: ValueView::Text(button.name_of()) },
            ],
            EventKind::MouseMove { x, y } => seq![
                direction,
                PropertyView { name: "x"@, value: ValueView::Number(x) },
                PropertyView { name: "y"@, value: ValueView::Number(y) },
            ],
            EventKind::Wheel { delta_x, delta_y } => seq![
                direction,
                PropertyView { name: "deltaX"@, value: ValueView::Integer(delta_x) },
                PropertyView { name: "deltaY"@, value: ValueView::Integer(delta_y) },
            ],
        }
    }

    /// Lays this kind out as the record that the host receives.
    pub fn properties(self) -> (record: Vec<Property>)
        ensures
            views(record@) == self.properties_of(),
    {
        let mut record: Vec<Property> = Vec::new();
        record.push(
            Property { name: "direction", value: Value::Text(self.direction().to_owned()) },
        );
        match self {
            EventKind::KeyPress { key } | EventKind::KeyRelease { key } => {
                record.push(Property { name: "key", value: Value::Text(key.name().to_owned()) });
            },
            EventKind::ButtonPress { button } | EventKind::ButtonRelease { button } => {
                record.push(Property { name: "key", value: Value::Text(button.name().to_owned()) });
            },
            EventKind::MouseMove { x, y } => {
                record.push(Property { name: "x", value: Value::Number(x) });
                record.push(Property { name: "y", value: Value::Number(y) });
            },
            EventKind::Wheel { delta_x, delta_y } => {
                record.push(Property { name: "deltaX", value: Value::Integer(delta_x) });
                record.push(Property { name: "deltaY", value: Value::Integer(delta_y) });
            },
        }
        assert(views(record@) =~= self.properties_of());
        record
    }
}

/// No two properties of a record share a name, so none overwrites another
/// when the record is filled in.
pub proof fn lemma_property_names_differ(kind: EventKind, i: int, j: int)
    requires
        0 <= i < j < kind.properties_of().len(),
    ensures
        kind.properties_of()[i].name != kind.properties_of()[j].name,
{
    reveal_strlit("direction");
    reveal_strlit("key");
    reveal_strlit("x");
    reveal_strlit("y");
    reveal_strlit("deltaX");
    reveal_strlit("deltaY");
    assert("direction"@.len() == 9);
    assert("key"@.len() == 3);
    assert("x"@[0] == 'x');
    assert("y"@[0] == 'y');
    assert("deltaX"@[5] == 'X');
    assert("deltaY"@[5] == 'Y');
}

} // verus!
