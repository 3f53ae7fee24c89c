//! The mouse-button half of the symbol vocabulary.
//!
//! A button is known to the host by its symbol and to the platform layer by
//! the text it prints for the button. This module holds the table in both
//! directions and proves that going one way and back loses nothing.

use vstd::prelude::*;
use crate::text::same_text;

verus! {

/// A mouse button of the shared vocabulary.
#[derive(Clone, Copy, Debug, PartialEq, Eq, Hash, Structural)]
pub enum Button {
    Left,
    Right,
    Middle,
}

impl Button {
    /// The text by which the platform layer identifies this button.
    pub open spec fn name_of(self) -> Seq<char> {
        match self {
            Button::Left => "Left"@,
            Button::Right => "Right"@,
            Button::Middle => "Middle"@,
        }
    }

    /// The button that the platform layer identifies by `text`, if there is one.
    pub open spec fn named(text: Seq<char>) -> Option<Button> {
        if exists|b: Button| b.name_of() == text {
            Some(choose|b: Button| b.name_of() == text)
        } else {
            None
        }
    }

    /// The name of this button, as the platform layer prints it.
    pub fn name(self) -> (text: &'static str)
        ensures
            text@ == self.name_of(),
    {
        match self {
            Button::Left => "Left",
            Button::Right => "Right",
            Button::Middle => "Middle",
        }
    }

    /// Looks `name` up in the vocabulary. A text that names no button, such
    /// as the platform layer's form for an extra button, gives `None`. By
    /// `lemma_button_name_round_trip` the name of a button gives that button.
    pub fn from_name(name: &str) -> (button: Option<Button>)
        ensures
            button == Button::named(name@),
            button matches Some(b) ==> b.name_of() == name@,
            button is None ==> forall|b: Button| b.name_of() != name@,
    {
        let found = if same_text(name, "Left") {
            Some(Button::Left)
        } else if same_text(name, "Right") {
            Some(Button::Right)
        } else if same_text(name, "Middle") {
            Some(Button::Middle)
        } else {
            None
        };
        proof {
            match found {
                Some(b) => {
                    assert(b.name_of() == name@);
                    lemma_button_names_distinct(b, Button::named(name@).unwrap());
                },
                None => {
                    assert forall|b: Button| b.name_of() != name@ by {}
                },
            }
        }
        found
    }
}

/// No two buttons share a name.
pub proof fn lemma_button_names_distinct(a: Button, b: Button)
    requires
        a.name_of() == b.name_of(),
    ensures
        a == b,
{
    reveal_strlit("Left");
    reveal_strlit("Right");
    reveal_strlit("Middle");
    assert("Left"@.len() == 4);
    assert("Right"@.len() == 5);
    assert("Middle"@.len() == 6);
}

/// Symbol to name and back: the name of a button identifies that button and
/// no other.
pub proof fn lemma_button_name_round_trip(b: Button)
    ensures
        Button::named(b.name_of()) == Some(b),
{
    lemma_button_names_distinct(b, Button::named(b.name_of()).unwrap());
}

/// Name to symbol and back: a text that identifies a button is exactly the
/// name that this button is given, so nothing is lost on the way.
pub proof fn lemma_button_named_round_trip(text: Seq<char>)
    requires
        Button::named(text) is Some,
    ensures
        Button::named(text).unwrap().name_of() == text,
{
}

} // verus!
