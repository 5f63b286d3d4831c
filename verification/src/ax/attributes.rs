//! Attributes of an element as the tool reports them, and how raw display
//! strings are read as text or booleans.

use vstd::prelude::*;
use crate::ax::tree::{carries_value, opt_view};
use crate::text::{chars_of, str_eq};

verus! {

/// One attribute of an element: its name, displayed value, and whether it
/// can be written.
#[derive(Debug, Clone, PartialEq, Eq)]
pub struct AttributeInfo {
    pub name: String,
    pub value: String,
    pub settable: bool,
}

/// The basic facts about an element that `inspect` shows first.
#[derive(Debug, Clone, PartialEq, Eq)]
pub struct ElementInfo {
    pub role: String,
    pub subrole: Option<String>,
    pub title: Option<String>,
    pub description: Option<String>,
    pub value: Option<String>,
    pub identifier: Option<String>,
    pub enabled: Option<bool>,
    pub focused: Option<bool>,
    pub position: Option<String>,
    pub size: Option<String>,
    pub children_count: Option<usize>,
}

/// A display string as text: `None` when it is empty or a `<...>`
/// placeholder for a value that is not text.
pub fn text_of_display(display: String) -> (r: Option<String>)
    ensures
        opt_view(r) == if carries_value(display@) {
            Some(display@)
        } else {
            None::<Seq<char>>
        },
{
    let cs = chars_of(display.as_str());
    if cs.len() == 0 || cs[0] == '<' {
        None
    } else {
        Some(display)
    }
}

/// The boolean a display string denotes (`true`/`1`, `false`/`0`).
pub open spec fn display_bool(s: Seq<char>) -> Option<bool> {
    if s == "true"@ || s == "1"@ {
        Some(true)
    } else if s == "false"@ || s == "0"@ {
        Some(false)
    } else {
        None
    }
}

/// The boolean a display string denotes, if any.
pub fn bool_of_display(display: &str) -> (r: Option<bool>)
    ensures
        r == display_bool(display@),
{
    if str_eq(display, "true") || str_eq(display, "1") {
        Some(true)
    } else if str_eq(display, "false") || str_eq(display, "0") {
        Some(false)
    } else {
        None
    }
}

/// An attribute as `inspect` and `attrs` list it; an attribute without a
/// value is shown as `<no value>`.
pub fn attribute_entry(name: String, display: Option<String>, settable: bool) -> (r: AttributeInfo)
    ensures
        r.name == name,
        r.value@ == match display {
            Some(d) => d@,
            None => "<no value>"@,
        },
        r.settable == settable,
{
    let value = match display {
        Some(d) => d,
        None => "<no value>".to_string(),
    };
    AttributeInfo { name, value, settable }
}

} // verus!
