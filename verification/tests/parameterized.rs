use ax::ax::catalog::CatalogCategory;
use ax::ax::parameterized::{
    choose_param, param_kind_for_attr, param_type_name, parse_range, ParamKind, ParamRequest,
};
use ax::cli::{ElementTargetArgs, PgetArgs, TargetArgs};
use ax::error::AxError;

#[test]
fn parse_range_accepts_valid_values() {
    assert_eq!(parse_range("4,12").unwrap(), (4, 12));
}

#[test]
fn parse_range_rejects_invalid_values() {
    assert!(parse_range("4").is_err());
    assert!(parse_range("x,12").is_err());
}

#[test]
fn param_kind_maps_known_point_attributes() {
    assert_eq!(param_kind_for_attr("AXRangeForPosition"), Some(ParamKind::Point));
}

#[test]
fn parse_range_trims_pieces_and_takes_signs() {
    assert_eq!(parse_range(" -3 , +7 ").unwrap(), (-3, 7));
    assert_eq!(
        parse_range("9223372036854775807,-9223372036854775808").unwrap(),
        (i64::MAX, i64::MIN)
    );
}

#[test]
fn parse_range_error_messages() {
    assert_eq!(
        parse_range("1,2,3").unwrap_err(),
        "Invalid range format '1,2,3', expected 'location,length'"
    );
    assert_eq!(parse_range("a,2").unwrap_err(), "Invalid location: 'a'");
    assert_eq!(parse_range("1, b").unwrap_err(), "Invalid length: ' b'");
    assert_eq!(
        parse_range("9223372036854775808,1").unwrap_err(),
        "Invalid location: '9223372036854775808'"
    );
    assert_eq!(parse_range(",1").unwrap_err(), "Invalid location: ''");
}

#[test]
fn parse_range_round_trip_on_written_pairs() {
    for (a, b) in [(0i64, 0i64), (-1, 1), (123456, -987654), (i64::MIN, i64::MAX)] {
        let text = format!("{},{}", a, b);
        assert_eq!(parse_range(&text).unwrap(), (a, b));
    }
}

#[test]
fn param_kinds_of_known_attributes() {
    assert_eq!(param_kind_for_attr("AXLineForIndex"), Some(ParamKind::Index));
    assert_eq!(param_kind_for_attr("AXStringForRange"), Some(ParamKind::Range));
    assert_eq!(param_kind_for_attr("AXScreenSizeForLayoutSize"), Some(ParamKind::Point));
    assert_eq!(param_kind_for_attr("AXCellForColumnAndRow"), Some(ParamKind::ColumnAndRow));
    assert_eq!(param_kind_for_attr("AXTitle"), None);
    assert_eq!(param_type_name(ParamKind::ColumnAndRow), "column_and_row");
    assert_eq!(param_type_name(ParamKind::Index), "index");
}

fn pget(attribute: &str) -> PgetArgs {
    PgetArgs {
        attribute: attribute.to_string(),
        element: ElementTargetArgs {
            target: TargetArgs { app: Some("Notes".to_string()), pid: None },
            focused: false,
            point: None,
            identifier: None,
            path: None,
        },
        index: None,
        range: None,
        param_point: None,
        col_row: None,
    }
}

#[test]
fn choose_param_prefers_index_then_range() {
    let mut args = pget("AXStringForRange");
    args.index = Some(3);
    args.range = Some("1,2".to_string());
    assert_eq!(choose_param(&args).unwrap(), ParamRequest::Index(3));
    args.index = None;
    assert_eq!(choose_param(&args).unwrap(), ParamRequest::Range(1, 2));
    args.range = None;
    args.param_point = Some("10.5,20".to_string());
    assert_eq!(choose_param(&args).unwrap(), ParamRequest::Point("10.5,20".to_string()));
    args.param_point = None;
    args.col_row = Some("2,5".to_string());
    assert_eq!(choose_param(&args).unwrap(), ParamRequest::ColumnAndRow(2, 5));
}

#[test]
fn choose_param_errors() {
    let mut args = pget("AXCellForColumnAndRow");
    args.col_row = Some("x".to_string());
    assert_eq!(
        choose_param(&args).unwrap_err(),
        AxError::InvalidArgument("Invalid col,row format 'x', expected 'col,row'".to_string())
    );
    args.col_row = None;
    args.range = Some("4".to_string());
    assert_eq!(
        choose_param(&args).unwrap_err(),
        AxError::InvalidArgument("Invalid range format '4', expected 'location,length'".to_string())
    );
    let args = pget("AXCellForColumnAndRow");
    assert_eq!(
        choose_param(&args).unwrap_err(),
        AxError::InvalidArgument(
            "No parameter provided. 'AXCellForColumnAndRow' expects: --col-row <col,row>".to_string()
        )
    );
    let args = pget("AXSomethingElse");
    assert_eq!(
        choose_param(&args).unwrap_err(),
        AxError::InvalidArgument(
            "No parameter provided. 'AXSomethingElse' expects: --index, --range, --param-point, or --col-row"
                .to_string()
        )
    );
}

#[test]
fn range_for_line_takes_a_line_number() {
    assert_eq!(param_kind_for_attr("AXRangeForLine"), Some(ParamKind::Index));
    assert_eq!(
        choose_param(&pget("AXRangeForLine")).unwrap_err(),
        AxError::InvalidArgument("No parameter provided. 'AXRangeForLine' expects: --index <n>".to_string())
    );
}

#[test]
fn param_kinds_exactly_for_catalog_names() {
    let names: Vec<&str> =
        CatalogCategory::ParameterizedAttributes.entries().iter().map(|e| e.name).collect();
    for n in &names {
        assert!(param_kind_for_attr(n).is_some(), "{}", n);
    }
    assert_eq!(param_kind_for_attr("axstringforrange"), None);
    assert_eq!(param_kind_for_attr("AXValue"), None);
}
