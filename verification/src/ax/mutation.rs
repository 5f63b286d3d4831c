//! Typed values for `ax set`: the type hint and the parsing of the raw text.

use vstd::prelude::*;
use crate::error::{ax_error_message, ax_error_text, is_invalid_argument, AxError};
use crate::text::{
    ascii_lower, int_text, lemma_parse_i64_int_text, parse_i64, parse_i64_spec, push_str, str_eq,
    to_ascii_lower,
};

verus! {

/// The type hint provided by the caller for `ax set`.
#[derive(Debug, Clone, Copy, PartialEq, Eq)]
pub enum ValueType {
    String,
    Bool,
    Int,
    Float,
}

/// The value type that an (already ASCII-lower-cased) word names.
pub open spec fn value_type_named(s: Seq<char>) -> Option<ValueType> {
    if s == "string"@ || s == "str"@ || s == "s"@ {
        Some(ValueType::String)
    } else if s == "bool"@ || s == "boolean"@ || s == "b"@ {
        Some(ValueType::Bool)
    } else if s == "int"@ || s == "integer"@ || s == "i"@ {
        Some(ValueType::Int)
    } else if s == "float"@ || s == "double"@ || s == "f"@ || s == "number"@ || s == "num"@ {
        Some(ValueType::Float)
    } else {
        None
    }
}

/// The label of a value type.
pub open spec fn value_type_label(t: ValueType) -> Seq<char> {
    match t {
        ValueType::String => "string"@,
        ValueType::Bool => "bool"@,
        ValueType::Int => "int"@,
        ValueType::Float => "float"@,
    }
}

impl ValueType {
    /// The value type a word names, ignoring ASCII case.
    pub fn from_str(s: &str) -> (r: Option<Self>)
        ensures
            r == value_type_named(ascii_lower(s@)),
    {
        let l = to_ascii_lower(s);
        let l = l.as_str();
        if str_eq(l, "string") || str_eq(l, "str") || str_eq(l, "s") {
            Some(ValueType::String)
        } else if str_eq(l, "bool") || str_eq(l, "boolean") || str_eq(l, "b") {
            Some(ValueType::Bool)
        } else if str_eq(l, "int") || str_eq(l, "integer") || str_eq(l, "i") {
            Some(ValueType::Int)
        } else if str_eq(l, "float") || str_eq(l, "double") || str_eq(l, "f") || str_eq(
            l,
            "number",
        ) || str_eq(l, "num") {
            Some(ValueType::Float)
        } else {
            None
        }
    }

    /// The label of the value type.
    pub fn label(&self) -> (r: &'static str)
        ensures
            r@ == value_type_label(*self),
    {
        match self {
            ValueType::String => "string",
            ValueType::Bool => "bool",
            ValueType::Int => "int",
            ValueType::Float => "float",
        }
    }
}

/// The value to write, once the raw text has been read under its type hint.
/// A float keeps its raw text: the caller that builds the platform number
/// parses it.
#[derive(Debug, Clone, PartialEq)]
pub enum TypedValue {
    Text(String),
    Bool(bool),
    Int(i64),
    Float(String),
}

/// The boolean that a word denotes, ignoring ASCII case.
pub open spec fn bool_named(s: Seq<char>) -> Option<bool> {
    let l = ascii_lower(s);
    if l == "true"@ || l == "1"@ || l == "yes"@ || l == "on"@ {
        Some(true)
    } else if l == "false"@ || l == "0"@ || l == "no"@ || l == "off"@ {
        Some(false)
    } else {
        None
    }
}

/// What reading `raw` under the hint `t` gives, said of the result `r`.
pub open spec fn typed_value_result(raw: Seq<char>, t: ValueType, r: Result<TypedValue, AxError>) -> bool {
    match t {
        ValueType::String => r matches Ok(TypedValue::Text(s)) && s@ == raw,
        ValueType::Bool => match bool_named(raw) {
            Some(b) => r matches Ok(TypedValue::Bool(x)) && x == b,
            None => r matches Err(e) && is_invalid_argument(
                e,
                "Cannot parse '"@ + raw + "' as bool (expected true/false/1/0/yes/no)"@,
            ),
        },
        ValueType::Int => match parse_i64_spec(raw) {
            Some(n) => r matches Ok(TypedValue::Int(x)) && x == n,
            None => r matches Err(e) && is_invalid_argument(
                e,
                "Cannot parse '"@ + raw + "' as integer"@,
            ),
        },
        ValueType::Float => r matches Ok(TypedValue::Float(s)) && s@ == raw,
    }
}

/// An integer's decimal text, read under the `int` hint, is that integer.
pub proof fn lemma_int_value_round_trip(n: i64, r: Result<TypedValue, AxError>)
    requires
        typed_value_result(int_text(n as int), ValueType::Int, r),
    ensures
        r matches Ok(TypedValue::Int(x)) && x == n,
{
    lemma_parse_i64_int_text(n);
}

/// Under the `bool` hint every word the tool names is accepted, in any ASCII
/// case: `true`, `1`, `yes` and `on` read as true, `false`, `0`, `no` and
/// `off` as false; any other text is refused.
pub proof fn lemma_bool_words_read_back(raw: Seq<char>, r: Result<TypedValue, AxError>)
    requires
        typed_value_result(raw, ValueType::Bool, r),
    ensures
        (ascii_lower(raw) == "true"@ || ascii_lower(raw) == "1"@ || ascii_lower(raw) == "yes"@
            || ascii_lower(raw) == "on"@) ==> r == Ok::<TypedValue, AxError>(TypedValue::Bool(true)),
        (ascii_lower(raw) == "false"@ || ascii_lower(raw) == "0"@ || ascii_lower(raw) == "no"@
            || ascii_lower(raw) == "off"@) ==> r == Ok::<TypedValue, AxError>(TypedValue::Bool(false)),
        !(ascii_lower(raw) == "true"@ || ascii_lower(raw) == "1"@ || ascii_lower(raw) == "yes"@
            || ascii_lower(raw) == "on"@ || ascii_lower(raw) == "false"@ || ascii_lower(raw) == "0"@
            || ascii_lower(raw) == "no"@ || ascii_lower(raw) == "off"@) ==> r is Err,
{
    reveal_strlit("true");
    reveal_strlit("1");
    reveal_strlit("yes");
    reveal_strlit("on");
    reveal_strlit("false");
    reveal_strlit("0");
    reveal_strlit("no");
    reveal_strlit("off");
    assert("true"@.len() == 4 && "false"@.len() == 5 && "yes"@.len() == 3 && "off"@.len() == 3);
    assert("1"@.len() == 1 && "0"@.len() == 1 && "on"@.len() == 2 && "no"@.len() == 2);
    assert("1"@[0] != "0"@[0]);
    assert("on"@[0] != "no"@[0]);
    assert("yes"@[0] != "off"@[0]);
}

/// The text of a boolean (`true` or `false`), read under the `bool` hint,
/// is that boolean, and so is the same word in capitals.
pub proof fn lemma_bool_text_reads_back(b: bool, upper: bool, r: Result<TypedValue, AxError>)
    requires
        typed_value_result(
            if b {
                if upper {
                    "TRUE"@
                } else {
                    "true"@
                }
            } else {
                if upper {
                    "FALSE"@
                } else {
                    "false"@
                }
            },
            ValueType::Bool,
            r,
        ),
    ensures
        r == Ok::<TypedValue, AxError>(TypedValue::Bool(b)),
{
    reveal_strlit("true");
    reveal_strlit("false");
    reveal_strlit("TRUE");
    reveal_strlit("FALSE");
    reveal_strlit("1");
    reveal_strlit("yes");
    reveal_strlit("on");
    reveal_strlit("0");
    reveal_strlit("no");
    reveal_strlit("off");
    assert(ascii_lower("true"@) =~= "true"@);
    assert(ascii_lower("TRUE"@) =~= "true"@);
    assert(ascii_lower("false"@) =~= "false"@);
    assert(ascii_lower("FALSE"@) =~= "false"@);
    assert("true"@ != "false"@ && "true"@ != "0"@ && "true"@ != "no"@ && "true"@ != "off"@);
    assert("false"@ != "true"@ && "false"@ != "1"@ && "false"@ != "yes"@ && "false"@ != "on"@);
}

/// The text between a literal prefix and suffix.
fn quoted(prefix: &str, s: &str, suffix: &str) -> (r: String)
    ensures
        r@ == prefix@ + s@ + suffix@,
{
    let mut r = prefix.to_string();
    push_str(&mut r, s);
    push_str(&mut r, suffix);
    r
}

/// Reads the raw text of `ax set` under its type hint.
pub fn parse_typed_value(raw: &str, vtype: ValueType) -> (r: Result<TypedValue, AxError>)
    ensures
        typed_value_result(raw@, vtype, r),
{
    match vtype {
        ValueType::String => Ok(TypedValue::Text(raw.to_string())),
        ValueType::Bool => {
            let l = to_ascii_lower(raw);
            let l = l.as_str();
            if str_eq(l, "true") || str_eq(l, "1") || str_eq(l, "yes") || str_eq(l, "on") {
                Ok(TypedValue::Bool(true))
            } else if str_eq(l, "false") || str_eq(l, "0") || str_eq(l, "no") || str_eq(l, "off") {
                Ok(TypedValue::Bool(false))
            } else {
                Err(
                    AxError::InvalidArgument(
                        quoted(
                            "Cannot parse '",
                            raw,
                            "' as bool (expected true/false/1/0/yes/no)",
                        ),
                    ),
                )
            }
        },
        ValueType::Int => match parse_i64(raw) {
            Some(n) => Ok(TypedValue::Int(n)),
            None => Err(AxError::InvalidArgument(quoted("Cannot parse '", raw, "' as integer"))),
        },
        ValueType::Float => Ok(TypedValue::Float(raw.to_string())),
    }
}

/// The error for a raw text that does not read as a float.
pub fn float_parse_error(raw: &str) -> (r: AxError)
    ensures
        is_invalid_argument(r, "Cannot parse '"@ + raw@ + "' as float"@),
{
    AxError::InvalidArgument(quoted("Cannot parse '", raw, "' as float"))
}

/// The error for an unknown value type word.
pub fn unknown_value_type_error(word: &str) -> (r: AxError)
    ensures
        is_invalid_argument(
            r,
            "Unknown value type '"@ + word@ + "'. Valid: string, bool, int, float"@,
        ),
{
    AxError::InvalidArgument(quoted("Unknown value type '", word, "'. Valid: string, bool, int, float"))
}

/// Whether an attribute can be written, from the status and the flag the
/// accessibility API reported when asked (status 0 is success).
pub fn check_settable(attribute: &str, status: i32, flag: bool) -> (r: Result<bool, AxError>)
    ensures
        status == 0 ==> r == Ok::<bool, AxError>(flag),
        status != 0 ==> (r matches Err(AxError::AttributeError { name, message }) && name@
            == attribute@ && message@ == ax_error_text(status)),
{
    if status != 0 {
        return Err(AxError::AttributeError { name: attribute.to_string(), message: ax_error_message(status) });
    }
    Ok(flag)
}

/// The outcome of writing an attribute, from the status the accessibility
/// API reported.
pub fn set_attribute(attribute: &str, status: i32) -> (r: Result<(), AxError>)
    ensures
        status == 0 ==> r is Ok,
        status != 0 ==> (r matches Err(AxError::SetAttributeError { attribute: a, message })
            && a@ == attribute@ && message@ == ax_error_text(status)),
{
    if status != 0 {
        return Err(AxError::SetAttributeError { attribute: attribute.to_string(), message: ax_error_message(status) });
    }
    Ok(())
}

/// What `ax set` writes, once it knows whether the attribute is settable:
/// the error of that check, a refusal for an attribute that cannot be
/// written, or the raw text read under its type hint.
pub fn set_attribute_typed(
    attribute: &str,
    settable: Result<bool, AxError>,
    raw_value: &str,
    vtype: ValueType,
) -> (r: Result<TypedValue, AxError>)
    ensures
        match settable {
            Err(e) => r == Err::<TypedValue, AxError>(e),
            Ok(false) => r matches Err(AxError::SetAttributeError { attribute: a, message }) && a@
                == attribute@ && message@ == "Attribute is not settable on this element"@,
            Ok(true) => typed_value_result(raw_value@, vtype, r),
        },
{
    match settable {
        Err(e) => Err(e),
        Ok(false) => Err(
            AxError::SetAttributeError {
                attribute: attribute.to_string(),
                message: "Attribute is not settable on this element".to_string(),
            },
        ),
        Ok(true) => parse_typed_value(raw_value, vtype),
    }
}

/// The error of `ax type` when the element refuses the text.
pub fn type_text_error(role: &str) -> (r: AxError)
    ensures
        r matches AxError::SetAttributeError { attribute, message } && attribute@ == "AXValue"@
            && message@ == "Cannot set text on this element (role: "@ + role@
            + "). The element may not be editable."@,
{
    AxError::SetAttributeError {
        attribute: "AXValue".to_string(),
        message: quoted("Cannot set text on this element (role: ", role, "). The element may not be editable."),
    }
}

} // verus!
