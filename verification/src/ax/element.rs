//! Display strings for attribute values: the human-readable form the tool
//! prints for each kind of value an element can report.

use vstd::prelude::*;
use crate::ax::attributes::display_bool;
use crate::text::{i64_text, int_text, join, join_strings, nat_text, push_str, u64_text, views};

verus! {

/// How an array value is shown: `[]` when empty, its items when there are at
/// most five, otherwise its size.
pub open spec fn array_display_spec(count: nat, items: Seq<Seq<char>>) -> Seq<char> {
    if count == 0 {
        "[]"@
    } else if count <= 5 {
        "["@ + join(items, ", "@) + "]"@
    } else {
        "["@ + nat_text(count) + " items]"@
    }
}

/// How an array value is shown, given its size and the display strings of
/// its items (read only when there are at most five).
pub fn array_display(count: usize, items: &Vec<String>) -> (r: String)
    ensures
        r@ == array_display_spec(count as nat, views(items@)),
{
    if count == 0 {
        return "[]".to_string();
    }
    if count <= 5 {
        let mut r = "[".to_string();
        let joined = join_strings(items, ", ");
        push_str(&mut r, joined.as_str());
        push_str(&mut r, "]");
        return r;
    }
    let mut r = "[".to_string();
    let n = u64_text(count as u64);
    push_str(&mut r, n.as_str());
    push_str(&mut r, " items]");
    r
}

/// How a nested element is shown: its role, or `?` when it has none.
pub open spec fn element_display_spec(role: Option<Seq<char>>) -> Seq<char> {
    "<AXUIElement "@ + match role {
        Some(r) => r,
        None => "?"@,
    } + ">"@
}

/// How a nested element is shown.
pub fn element_display(role: Option<&str>) -> (r: String)
    ensures
        r@ == element_display_spec(
            match role {
                Some(s) => Some(s@),
                None => None,
            },
        ),
{
    let mut r = "<AXUIElement ".to_string();
    match role {
        Some(s) => push_str(&mut r, s),
        None => push_str(&mut r, "?"),
    }
    push_str(&mut r, ">");
    r
}

/// How a value of an unknown platform type is shown.
pub fn unknown_type_display(type_id: u64) -> (r: String)
    ensures
        r@ == "<CFType typeID="@ + nat_text(type_id as nat) + ">"@,
{
    let mut r = "<CFType typeID=".to_string();
    let n = u64_text(type_id);
    push_str(&mut r, n.as_str());
    push_str(&mut r, ">");
    r
}

/// An attribute value as the display logic sees it. Numbers that are not
/// integers, and the coordinates of points, sizes and rectangles, arrive as
/// their text (one or two decimals, rendered where the value was read).
#[derive(Debug)]
pub enum CfValue {
    /// A string.
    Text(String),
    /// A number that fits a 64-bit integer.
    Integer(i64),
    /// Any other number, rendered with two decimals.
    Decimal(String),
    /// A number that is neither.
    OtherNumber,
    /// A boolean.
    Boolean(bool),
    /// An array of `count` values; `items` holds them when there are at most
    /// five.
    Array { count: usize, items: Vec<CfValue> },
    /// A nested element, with the value of its role when it has one.
    Element { role: Option<Box<CfValue>> },
    /// A URL.
    Url(String),
    /// A point `(x, y)`, or `None` when it could not be unpacked.
    Point(Option<(String, String)>),
    /// A size `(width, height)`, or `None` when it could not be unpacked.
    Size(Option<(String, String)>),
    /// A rectangle `(x, y, width, height)`, or `None` when it could not be
    /// unpacked.
    Rect(Option<(String, String, String, String)>),
    /// A text range `(location, length)`, or `None` when it could not be
    /// unpacked.
    Range(Option<(i64, i64)>),
    /// A geometric value of another kind.
    OtherAxValue,
    /// A value of a type the tool does not know, with its type ID.
    Unknown(u64),
}

/// The display string of a value.
pub open spec fn value_text(v: CfValue) -> Seq<char>
    decreases v,
{
    match v {
        CfValue::Text(s) => s@,
        CfValue::Integer(i) => int_text(i as int),
        CfValue::Decimal(s) => s@,
        CfValue::OtherNumber => "<number>"@,
        CfValue::Boolean(b) => if b {
            "true"@
        } else {
            "false"@
        },
        CfValue::Array { count, items } => array_display_spec(count as nat, items_text(items@)),
        CfValue::Element { role } => element_display_spec(
            match role {
                Some(r) => Some(value_text(*r)),
                None => None,
            },
        ),
        CfValue::Url(s) => s@,
        CfValue::Point(p) => match p {
            Some((x, y)) => "("@ + x@ + ", "@ + y@ + ")"@,
            None => "<CGPoint>"@,
        },
        CfValue::Size(p) => match p {
            Some((w, h)) => "("@ + w@ + " x "@ + h@ + ")"@,
            None => "<CGSize>"@,
        },
        CfValue::Rect(p) => match p {
            Some((x, y, w, h)) => "(("@ + x@ + ", "@ + y@ + "), ("@ + w@ + " x "@ + h@ + "))"@,
            None => "<CGRect>"@,
        },
        CfValue::Range(p) => match p {
            Some((l, n)) => "(location: "@ + int_text(l as int) + ", length: "@ + int_text(
                n as int,
            ) + ")"@,
            None => "<CFRange>"@,
        },
        CfValue::OtherAxValue => "<AXValue>"@,
        CfValue::Unknown(t) => "<CFType typeID="@ + nat_text(t as nat) + ">"@,
    }
}

/// The display strings of a list of values.
pub open spec fn items_text(items: Seq<CfValue>) -> Seq<Seq<char>>
    decreases items,
{
    if items.len() == 0 {
        Seq::empty()
    } else {
        items_text(items.drop_last()).push(value_text(items.last()))
    }
}

/// Convert a value to a human-readable display string.
pub fn cftype_to_string(value: &CfValue) -> (r: String)
    ensures
        r@ == value_text(*value),
    decreases value,
{
    match value {
        CfValue::Text(s) => s.clone(),
        CfValue::Integer(i) => i64_text(*i),
        CfValue::Decimal(s) => s.clone(),
        CfValue::OtherNumber => "<number>".to_string(),
        CfValue::Boolean(b) => if *b {
            "true".to_string()
        } else {
            "false".to_string()
        },
        CfValue::Array { count, items } => {
            let mut parts: Vec<String> = Vec::new();
            if *count > 0 && *count <= 5 {
                let mut i: usize = 0;
                #[verifier::loop_isolation(false)]
                while i < items.len()
                    invariant
                        i <= items@.len(),
                        views(parts@) == items_text(items@.take(i as int)),
                    decreases items.len() - i,
                {
                    assert(decreases_to!(*value => *items));
                    assert(decreases_to!(*items => items@));
                    assert(decreases_to!(items@ => items@[i as int]));
                    let t = cftype_to_string(&items[i]);
                    let ghost p0 = parts@;
                    parts.push(t);
                    proof {
                        assert(items@.take(i + 1).drop_last() =~= items@.take(i as int));
                        assert(views(parts@) =~= views(p0).push(t@));
                    }
                    i = i + 1;
                }
                assert(items@.take(items@.len() as int) =~= items@);
            }
            array_display(*count, &parts)
        },
        CfValue::Element { role } => match role {
            Some(r) => {
                let t = cftype_to_string(r);
                element_display(Some(t.as_str()))
            },
            None => element_display(None),
        },
        CfValue::Url(s) => s.clone(),
        CfValue::Point(p) => match p {
            Some((x, y)) => {
                let mut r = "(".to_string();
                push_str(&mut r, x.as_str());
                push_str(&mut r, ", ");
                push_str(&mut r, y.as_str());
                push_str(&mut r, ")");
                r
            },
            None => "<CGPoint>".to_string(),
        },
        CfValue::Size(p) => match p {
            Some((w, h)) => {
                let mut r = "(".to_string();
                push_str(&mut r, w.as_str());
                push_str(&mut r, " x ");
                push_str(&mut r, h.as_str());
                push_str(&mut r, ")");
                r
            },
            None => "<CGSize>".to_string(),
        },
        CfValue::Rect(p) => match p {
            Some((x, y, w, h)) => {
                let mut r = "((".to_string();
                push_str(&mut r, x.as_str());
                push_str(&mut r, ", ");
                push_str(&mut r, y.as_str());
                push_str(&mut r, "), (");
                push_str(&mut r, w.as_str());
                push_str(&mut r, " x ");
                push_str(&mut r, h.as_str());
                push_str(&mut r, "))");
                r
            },
            None => "<CGRect>".to_string(),
        },
        CfValue::Range(p) => match p {
            Some((l, n)) => {
                let mut r = "(location: ".to_string();
                let lt = i64_text(*l);
                push_str(&mut r, lt.as_str());
                push_str(&mut r, ", length: ");
                let nt = i64_text(*n);
                push_str(&mut r, nt.as_str());
                push_str(&mut r, ")");
                r
            },
            None => "<CFRange>".to_string(),
        },
        CfValue::OtherAxValue => "<AXValue>".to_string(),
        CfValue::Unknown(t) => unknown_type_display(*t),
    }
}

/// A boolean value is displayed as the word for that same boolean (`true`
/// or `false`), so the two booleans display differently.
pub proof fn lemma_boolean_display_denotes_value(b: bool)
    ensures
        display_bool(value_text(CfValue::Boolean(b))) == Some(b),
        value_text(CfValue::Boolean(b)) == (if b {
            "true"@
        } else {
            "false"@
        }),
        value_text(CfValue::Boolean(true)) != value_text(CfValue::Boolean(false)),
{
    reveal_strlit("true");
    reveal_strlit("false");
    reveal_strlit("1");
    reveal_strlit("0");
    assert("true"@.len() == 4);
    assert("false"@.len() == 5);
    assert("1"@.len() == 1);
    assert("0"@.len() == 1);
}

} // verus!
