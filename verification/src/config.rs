//! Options of a widget as the configuration gives them.

use vstd::prelude::*;
use vstd::string::*;

use crate::names::NameMap;

verus! {

/// The value of an option, as far as widgets read it.
#[derive(Debug)]
pub enum OptionValue {
    Text(String),
    Integer(i64),
    Boolean(bool),
    Other,
}

/// A widget's section of the configuration.
pub struct WidgetEntry {
    pub name: String,
    pub options: NameMap<OptionValue>,
}

/// The options of an entry by name.
pub type OptionMap = Map<Seq<char>, OptionValue>;

/// An option that is a text; one of another kind counts as absent.
pub open spec fn text_option(m: OptionMap, key: Seq<char>) -> Option<Seq<char>> {
    if m.dom().contains(key) {
        match m[key] {
            OptionValue::Text(s) => Some(s@),
            _ => None,
        }
    } else {
        None
    }
}

/// An option that is an integer; one of another kind counts as absent.
pub open spec fn integer_option(m: OptionMap, key: Seq<char>) -> Option<i64> {
    if m.dom().contains(key) {
        match m[key] {
            OptionValue::Integer(n) => Some(n),
            _ => None,
        }
    } else {
        None
    }
}

/// An option that is a truth value; one of another kind counts as absent.
pub open spec fn boolean_option(m: OptionMap, key: Seq<char>) -> Option<bool> {
    if m.dom().contains(key) {
        match m[key] {
            OptionValue::Boolean(b) => Some(b),
            _ => None,
        }
    } else {
        None
    }
}

impl WidgetEntry {
    pub fn text(&self, key: &str) -> (r: Option<&str>)
        ensures
            crate::text::opt_view(r) == text_option(self.options@, key@),
    {
        match self.options.get(key) {
            Some(OptionValue::Text(s)) => Some(s.as_str()),
            _ => None,
        }
    }

    pub fn owned_text(&self, key: &str) -> (r: Option<String>)
        ensures
            crate::text::opt_string_view(r) == text_option(self.options@, key@),
    {
        match self.text(key) {
            Some(s) => Some(s.to_string()),
            None => None,
        }
    }

    pub fn integer(&self, key: &str) -> (r: Option<i64>)
        ensures
            r == integer_option(self.options@, key@),
    {
        match self.options.get(key) {
            Some(OptionValue::Integer(n)) => Some(*n),
            _ => None,
        }
    }

    pub fn boolean(&self, key: &str) -> (r: Option<bool>)
        ensures
            r == boolean_option(self.options@, key@),
    {
        match self.options.get(key) {
            Some(OptionValue::Boolean(b)) => Some(*b),
            _ => None,
        }
    }

    /// A truth value, or `otherwise` where the option is absent.
    pub fn boolean_or(&self, key: &str, otherwise: bool) -> (r: bool)
        ensures
            r == boolean_or(self.options@, key@, otherwise),
    {
        match self.boolean(key) {
            Some(b) => b,
            None => otherwise,
        }
    }
}

pub open spec fn boolean_or(m: OptionMap, key: Seq<char>, otherwise: bool) -> bool {
    match boolean_option(m, key) {
        Some(b) => b,
        None => otherwise,
    }
}

} // verus!
