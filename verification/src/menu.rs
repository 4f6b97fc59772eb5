//! Names of menus.
use crate::table::Key;
use crate::text::{debug_form, debug_text, decimal, decimal_text};
use vstd::prelude::*;
use vstd::string::StringExecFns;

verus! {

/// A menu: one with a name of its own, or one written in place inside a named menu.
#[derive(Debug, PartialEq, Eq, Hash)]
pub enum MenuId {
    Named(String),
    Inline { parent: String, ordinal: u32 },
}

impl View for MenuId {
    type V = (Seq<char>, Option<u32>);

    open spec fn view(&self) -> (Seq<char>, Option<u32>) {
        match self {
            MenuId::Named(name) => (name@, None),
            MenuId::Inline { parent, ordinal } => (parent@, Some(*ordinal)),
        }
    }
}

impl MenuId {
    pub fn new(name: &str) -> (r: Self)
        ensures
            r is Named,
            r@ == (name@, None::<u32>),
    {
        MenuId::Named(name.to_owned())
    }
}

impl MenuId {
    /// How the menu reads in an error.
    pub open spec fn text(self) -> Seq<char> {
        match self {
            MenuId::Named(name) => "Named("@ + debug_form(name@) + ")"@,
            MenuId::Inline { parent, ordinal } => "Inline { parent: "@ + debug_form(parent@)
                + ", ordinal: "@ + decimal(ordinal as nat) + " }"@,
        }
    }

    /// How the menu reads in an error.
    pub fn message(&self) -> (r: String)
        ensures
            r@ == self.text(),
    {
        match self {
            MenuId::Named(name) => {
                let quoted = debug_text(name.as_str());
                "Named(".to_owned().concat(quoted.as_str()).concat(")")
            },
            MenuId::Inline { parent, ordinal } => {
                let quoted = debug_text(parent.as_str());
                let number = decimal_text(*ordinal as u64);
                "Inline { parent: ".to_owned().concat(quoted.as_str()).concat(", ordinal: ").concat(
                    number.as_str(),
                ).concat(" }")
            },
        }
    }
}

impl Clone for MenuId {
    fn clone(&self) -> (r: Self)
        ensures
            r == *self,
    {
        match self {
            MenuId::Named(name) => MenuId::Named(name.clone()),
            MenuId::Inline { parent, ordinal } => MenuId::Inline {
                parent: parent.clone(),
                ordinal: *ordinal,
            },
        }
    }
}

impl Key for MenuId {
    fn same(&self, other: &Self) -> (r: bool) {
        match (self, other) {
            (MenuId::Named(left), MenuId::Named(right)) => *left == *right,
            (
                MenuId::Inline { parent: left, ordinal: first },
                MenuId::Inline { parent: right, ordinal: second },
            ) => *left == *right && *first == *second,
            _ => false,
        }
    }

    fn duplicate(&self) -> (r: Self) {
        self.clone()
    }
}

} // verus!
