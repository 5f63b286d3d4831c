//! Parameterized attributes: the parameter each one expects, and reading
//! the parameter from the command line.

use vstd::prelude::*;
use crate::ax::catalog::known_parameterized_attributes_spec;
use crate::cli::PgetArgs;
use crate::error::{is_invalid_argument, AxError};
use crate::text::{
    int_text, lemma_parse_i64_int_text, lemma_split_append, lemma_split_none, lemma_trim_unchanged,
    parse_i64, parse_i64_spec, push_str, split_char, split_on, str_eq, trim, trim_seq, views,
};

verus! {

/// The type of parameter expected by a parameterized attribute.
#[derive(Debug, Clone, Copy, PartialEq, Eq)]
pub enum ParamKind {
    /// A single integer index.
    Index,
    /// A range: location,length.
    Range,
    /// A screen point: x,y.
    Point,
    /// Two integers: col,row.
    ColumnAndRow,
}

/// The parameter kind of a known parameterized attribute.
pub open spec fn param_kind_spec(name: Seq<char>) -> Option<ParamKind> {
    if name == "AXLineForIndex"@ || name == "AXRangeForIndex"@ || name == "AXStyleRangeForIndex"@
        || name == "AXRangeForLine"@ {
        Some(ParamKind::Index)
    } else if name == "AXStringForRange"@ || name == "AXBoundsForRange"@ || name
        == "AXRTFForRange"@ || name == "AXAttributedStringForRange"@ {
        Some(ParamKind::Range)
    } else if name == "AXRangeForPosition"@ || name == "AXLayoutPointForScreenPoint"@ || name
        == "AXScreenPointForLayoutPoint"@ {
        Some(ParamKind::Point)
    } else if name == "AXLayoutSizeForScreenSize"@ || name == "AXScreenSizeForLayoutSize"@ {
        Some(ParamKind::Point)
    } else if name == "AXCellForColumnAndRow"@ {
        Some(ParamKind::ColumnAndRow)
    } else {
        None
    }
}

/// Determine the expected parameter kind for a known parameterized attribute.
pub fn param_kind_for_attr(name: &str) -> (r: Option<ParamKind>)
    ensures
        r == param_kind_spec(name@),
{
    if str_eq(name, "AXLineForIndex") || str_eq(name, "AXRangeForIndex") || str_eq(
        name,
        "AXStyleRangeForIndex",
    ) || str_eq(name, "AXRangeForLine") {
        Some(ParamKind::Index)
    } else if str_eq(name, "AXStringForRange") || str_eq(name, "AXBoundsForRange") || str_eq(
        name,
        "AXRTFForRange",
    ) || str_eq(name, "AXAttributedStringForRange") {
        Some(ParamKind::Range)
    } else if str_eq(name, "AXRangeForPosition") || str_eq(name, "AXLayoutPointForScreenPoint")
        || str_eq(name, "AXScreenPointForLayoutPoint") {
        Some(ParamKind::Point)
    } else if str_eq(name, "AXLayoutSizeForScreenSize") || str_eq(
        name,
        "AXScreenSizeForLayoutSize",
    ) {
        Some(ParamKind::Point)
    } else if str_eq(name, "AXCellForColumnAndRow") {
        Some(ParamKind::ColumnAndRow)
    } else {
        None
    }
}

/// What `parse_range` returns for the text `s`: the two trimmed pieces
/// around the single comma, read as integers, or the message of the first
/// thing that is wrong.
pub open spec fn parse_range_spec(s: Seq<char>) -> Result<(i64, i64), Seq<char>> {
    let parts = split_on(s, ',');
    if parts.len() != 2 {
        Err("Invalid range format '"@ + s + "', expected 'location,length'"@)
    } else {
        match parse_i64_spec(trim_seq(parts[0])) {
            None => Err("Invalid location: '"@ + parts[0] + "'"@),
            Some(location) => match parse_i64_spec(trim_seq(parts[1])) {
                None => Err("Invalid length: '"@ + parts[1] + "'"@),
                Some(length) => Ok((location, length)),
            },
        }
    }
}

/// Two integers written as `location,length` read back as the same pair.
pub proof fn lemma_parse_range_round_trip(location: i64, length: i64)
    ensures
        parse_range_spec(int_text(location as int) + ","@ + int_text(length as int)) == Ok::<
            (i64, i64),
            Seq<char>,
        >((location, length)),
{
    let a = int_text(location as int);
    let b = int_text(length as int);
    lemma_parse_i64_int_text(location);
    lemma_parse_i64_int_text(length);
    assert(","@ =~= seq![',']) by {
        reveal_strlit(",");
    }
    lemma_split_none(a, ',');
    lemma_split_append(a, ',', b);
    assert(a + ","@ + b =~= a + seq![','] + b);
    let parts = split_on(a + ","@ + b, ',');
    assert(parts =~= seq![a, b]);
    lemma_trim_unchanged(a);
    lemma_trim_unchanged(b);
}

/// A parameter kind is known exactly for the parameterized attributes of the
/// catalog (names compared exactly, case included).
pub proof fn lemma_param_kind_known_exactly_for_catalog(name: Seq<char>)
    ensures
        param_kind_spec(name) is Some <==> exists|i: int|
            0 <= i < known_parameterized_attributes_spec().len()
                && #[trigger] known_parameterized_attributes_spec()[i].name@ == name,
{
    let t = known_parameterized_attributes_spec();
    assert(t.len() == 14);
    if param_kind_spec(name) is Some {
        if name == t[0].name@ {
        } else if name == t[1].name@ {
        } else if name == t[2].name@ {
        } else if name == t[3].name@ {
        } else if name == t[4].name@ {
        } else if name == t[5].name@ {
        } else if name == t[6].name@ {
        } else if name == t[7].name@ {
        } else if name == t[8].name@ {
        } else if name == t[9].name@ {
        } else if name == t[10].name@ {
        } else if name == t[11].name@ {
        } else if name == t[12].name@ {
        } else {
            assert(name == t[13].name@);
        }
    }
    if exists|i: int| 0 <= i < t.len() && #[trigger] t[i].name@ == name {
        let i = choose|i: int| 0 <= i < t.len() && #[trigger] t[i].name@ == name;
        assert(0 <= i < 14);
        if i == 0 {
        } else if i == 1 {
        } else if i == 2 {
        } else if i == 3 {
        } else if i == 4 {
        } else if i == 5 {
        } else if i == 6 {
        } else if i == 7 {
        } else if i == 8 {
        } else if i == 9 {
        } else if i == 10 {
        } else if i == 11 {
        } else if i == 12 {
        } else {
            assert(i == 13);
        }
    }
}

/// Three pieces of text joined.
fn concat3(a: &str, b: &str, c: &str) -> (r: String)
    ensures
        r@ == a@ + b@ + c@,
{
    let mut r = a.to_string();
    push_str(&mut r, b);
    push_str(&mut r, c);
    r
}

/// Parse a "location,length" string into two i64 values.
pub fn parse_range(s: &str) -> (r: std::result::Result<(i64, i64), String>)
    ensures
        match r {
            Ok(v) => parse_range_spec(s@) == Ok::<(i64, i64), Seq<char>>(v),
            Err(m) => parse_range_spec(s@) == Err::<(i64, i64), Seq<char>>(m@),
        },
{
    let parts = split_char(s, ',');
    if parts.len() != 2 {
        return Err(concat3("Invalid range format '", s, "', expected 'location,length'"));
    }
    assert(views(parts@)[0] == parts@[0]@);
    assert(views(parts@)[1] == parts@[1]@);
    let first = trim(parts[0].as_str());
    let location = match parse_i64(first.as_str()) {
        Some(v) => v,
        None => {
            return Err(concat3("Invalid location: '", parts[0].as_str(), "'"));
        },
    };
    let second = trim(parts[1].as_str());
    let length = match parse_i64(second.as_str()) {
        Some(v) => v,
        None => {
            return Err(concat3("Invalid length: '", parts[1].as_str(), "'"));
        },
    };
    Ok((location, length))
}


/// The parameter of `ax pget`, as given on the command line. A point keeps
/// its raw `x,y` text: the caller that builds the platform point reads it.
#[derive(Debug, Clone, PartialEq)]
pub enum ParamRequest {
    Index(i64),
    Range(i64, i64),
    Point(String),
    ColumnAndRow(i64, i64),
}

/// The flag that supplies the parameter an attribute expects.
pub open spec fn param_flag_hint(kind: Option<ParamKind>) -> Seq<char> {
    match kind {
        Some(ParamKind::Index) => "--index <n>"@,
        Some(ParamKind::Range) => "--range <location,length>"@,
        Some(ParamKind::Point) => "--param-point <x,y>"@,
        Some(ParamKind::ColumnAndRow) => "--col-row <col,row>"@,
        None => "--index, --range, --param-point, or --col-row"@,
    }
}

/// The name of a parameter kind in JSON output.
pub open spec fn param_type_text(kind: ParamKind) -> Seq<char> {
    match kind {
        ParamKind::Index => "index"@,
        ParamKind::Range => "range"@,
        ParamKind::Point => "point"@,
        ParamKind::ColumnAndRow => "column_and_row"@,
    }
}

/// The name of a parameter kind in JSON output.
pub fn param_type_name(kind: ParamKind) -> (r: &'static str)
    ensures
        r@ == param_type_text(kind),
{
    match kind {
        ParamKind::Index => "index",
        ParamKind::Range => "range",
        ParamKind::Point => "point",
        ParamKind::ColumnAndRow => "column_and_row",
    }
}

/// What `choose_param` returns for the arguments of `ax pget`: the first
/// parameter flag given, in the order index, range, point, col-row.
pub open spec fn param_request_result(args: PgetArgs, r: Result<ParamRequest, AxError>) -> bool {
    match args.index {
        Some(i) => r matches Ok(ParamRequest::Index(x)) && x == i,
        None => match args.range {
            Some(s) => match parse_range_spec(s@) {
                Ok((a, b)) => r matches Ok(ParamRequest::Range(x, y)) && x == a && y == b,
                Err(m) => r matches Err(e) && is_invalid_argument(e, m),
            },
            None => match args.param_point {
                Some(p) => r matches Ok(ParamRequest::Point(x)) && x@ == p@,
                None => match args.col_row {
                    Some(c) => match parse_range_spec(c@) {
                        Ok((a, b)) => r matches Ok(ParamRequest::ColumnAndRow(x, y)) && x == a
                            && y == b,
                        Err(_) => r matches Err(e) && is_invalid_argument(
                            e,
                            "Invalid col,row format '"@ + c@ + "', expected 'col,row'"@,
                        ),
                    },
                    None => r matches Err(e) && is_invalid_argument(
                        e,
                        "No parameter provided. '"@ + args.attribute@ + "' expects: "@
                            + param_flag_hint(param_kind_spec(args.attribute@)),
                    ),
                },
            },
        },
    }
}

/// The flag that supplies the parameter an attribute expects.
fn param_flag_hint_text(kind: Option<ParamKind>) -> (r: &'static str)
    ensures
        r@ == param_flag_hint(kind),
{
    match kind {
        Some(ParamKind::Index) => "--index <n>",
        Some(ParamKind::Range) => "--range <location,length>",
        Some(ParamKind::Point) => "--param-point <x,y>",
        Some(ParamKind::ColumnAndRow) => "--col-row <col,row>",
        None => "--index, --range, --param-point, or --col-row",
    }
}

/// Reads the parameter of `ax pget` from its flags.
pub fn choose_param(args: &PgetArgs) -> (r: Result<ParamRequest, AxError>)
    ensures
        param_request_result(*args, r),
{
    if let Some(i) = args.index {
        return Ok(ParamRequest::Index(i));
    }
    if let Some(range) = &args.range {
        return match parse_range(range.as_str()) {
            Ok((a, b)) => Ok(ParamRequest::Range(a, b)),
            Err(m) => Err(AxError::InvalidArgument(m)),
        };
    }
    if let Some(point) = &args.param_point {
        return Ok(ParamRequest::Point(point.clone()));
    }
    if let Some(cr) = &args.col_row {
        return match parse_range(cr.as_str()) {
            Ok((a, b)) => Ok(ParamRequest::ColumnAndRow(a, b)),
            Err(_) => Err(
                AxError::InvalidArgument(
                    concat3("Invalid col,row format '", cr.as_str(), "', expected 'col,row'"),
                ),
            ),
        };
    }
    let kind = param_kind_for_attr(args.attribute.as_str());
    Err(
        AxError::InvalidArgument(
            concat3(
                "No parameter provided. '",
                args.attribute.as_str(),
                "' expects: ",
            ).concat(param_flag_hint_text(kind)),
        ),
    )
}
} // verus!
