use ax::ax::actions::{action_info, perform_action};
use ax::ax::attributes::{attribute_entry, bool_of_display, text_of_display};
use ax::ax::element::{array_display, cftype_to_string, element_display, CfValue};
use ax::ax::mutation::{
    check_settable, float_parse_error, parse_typed_value, set_attribute, set_attribute_typed,
    type_text_error, unknown_value_type_error, TypedValue, ValueType,
};
use ax::ax::observer::{
    common_notifications, notification_event, notification_names, observer_create_error,
    registration_result, registration_warning,
};
use ax::cli::{command_needs_accessibility, command_needs_screen_capture, CommandKind};
use ax::error::{ax_error_message, AxError};

#[test]
fn status_code_messages() {
    assert_eq!(ax_error_message(0), "Success");
    assert_eq!(ax_error_message(-25204), "Attribute unsupported");
    assert_eq!(ax_error_message(-25214), "Not enough precision");
    assert_eq!(ax_error_message(7), "Unknown error (7)");
    assert_eq!(ax_error_message(-1), "Unknown error (-1)");
}

#[test]
fn error_texts_and_exit_codes() {
    assert_eq!(AxError::AppNotFound("'X'".to_string()).message(), "Application not found: 'X'");
    assert_eq!(AxError::AppNotFound(String::new()).exit_code(), 2);
    assert_eq!(AxError::AccessibilityNotTrusted.exit_code(), 1);
    assert_eq!(AxError::ElementNotFound.exit_code(), 3);
    let e = AxError::ActionFailed { action: "AXPress".to_string(), message: "m".to_string() };
    assert_eq!(e.message(), "Action failed: AXPress — m");
    assert_eq!(e.exit_code(), 4);
    assert_eq!(AxError::InvalidArgument("x".to_string()).exit_code(), 5);
    assert_eq!(AxError::Timeout("x".to_string()).exit_code(), 5);
    let e = AxError::SetAttributeError { attribute: "AXValue".to_string(), message: "no".to_string() };
    assert_eq!(e.message(), "Cannot set attribute 'AXValue': no");
    assert_eq!(e.exit_code(), 6);
    assert_eq!(AxError::ScreenCaptureNotTrusted.exit_code(), 7);
    let e = AxError::from_ax_code(-25212);
    assert_eq!(e, AxError::AXError { code: -25212, message: "No value".to_string() });
    assert_eq!(e.message(), "AX API error (code -25212): No value");
    assert_eq!(
        AxError::from_ax_code_with_context(-25205, "AXPress"),
        AxError::AttributeError { name: "AXPress".to_string(), message: "Action unsupported".to_string() }
    );
}

#[test]
fn value_display_strings() {
    assert_eq!(cftype_to_string(&CfValue::Text("hi".to_string())), "hi");
    assert_eq!(cftype_to_string(&CfValue::Integer(-42)), "-42");
    assert_eq!(cftype_to_string(&CfValue::Decimal("0.50".to_string())), "0.50");
    assert_eq!(cftype_to_string(&CfValue::OtherNumber), "<number>");
    assert_eq!(cftype_to_string(&CfValue::Boolean(false)), "false");
    assert_eq!(cftype_to_string(&CfValue::Url("file:///".to_string())), "file:///");
    assert_eq!(
        cftype_to_string(&CfValue::Point(Some(("1.0".to_string(), "2.5".to_string())))),
        "(1.0, 2.5)"
    );
    assert_eq!(cftype_to_string(&CfValue::Size(None)), "<CGSize>");
    assert_eq!(
        cftype_to_string(&CfValue::Size(Some(("3.0".to_string(), "4.0".to_string())))),
        "(3.0 x 4.0)"
    );
    assert_eq!(
        cftype_to_string(&CfValue::Rect(Some((
            "1.0".to_string(),
            "2.0".to_string(),
            "3.0".to_string(),
            "4.0".to_string()
        )))),
        "((1.0, 2.0), (3.0 x 4.0))"
    );
    assert_eq!(cftype_to_string(&CfValue::Range(Some((5, 10)))), "(location: 5, length: 10)");
    assert_eq!(cftype_to_string(&CfValue::Range(None)), "<CFRange>");
    assert_eq!(cftype_to_string(&CfValue::Point(None)), "<CGPoint>");
    assert_eq!(cftype_to_string(&CfValue::Rect(None)), "<CGRect>");
    assert_eq!(cftype_to_string(&CfValue::OtherAxValue), "<AXValue>");
    assert_eq!(cftype_to_string(&CfValue::Unknown(269)), "<CFType typeID=269>");
}

#[test]
fn nested_value_display_strings() {
    let role = CfValue::Text("AXButton".to_string());
    let el = CfValue::Element { role: Some(Box::new(role)) };
    assert_eq!(cftype_to_string(&el), "<AXUIElement AXButton>");
    assert_eq!(cftype_to_string(&CfValue::Element { role: None }), "<AXUIElement ?>");
    let arr = CfValue::Array {
        count: 2,
        items: vec![CfValue::Integer(1), CfValue::Element { role: None }],
    };
    assert_eq!(cftype_to_string(&arr), "[1, <AXUIElement ?>]");
    assert_eq!(cftype_to_string(&CfValue::Array { count: 0, items: vec![] }), "[]");
    assert_eq!(cftype_to_string(&CfValue::Array { count: 9, items: vec![] }), "[9 items]");
    assert_eq!(array_display(6, &vec![]), "[6 items]");
    assert_eq!(element_display(Some("AXRow")), "<AXUIElement AXRow>");
}

#[test]
fn display_strings_as_text_and_booleans() {
    assert_eq!(text_of_display("OK".to_string()), Some("OK".to_string()));
    assert_eq!(text_of_display("".to_string()), None);
    assert_eq!(text_of_display("<AXUIElement ?>".to_string()), None);
    assert_eq!(bool_of_display("1"), Some(true));
    assert_eq!(bool_of_display("false"), Some(false));
    assert_eq!(bool_of_display("yes"), None);
    let a = attribute_entry("AXHelp".to_string(), None, true);
    assert_eq!(a.value, "<no value>");
    assert!(a.settable);
    assert_eq!(action_info("AXPress".to_string(), None).description, "");
}

#[test]
fn typed_values() {
    assert_eq!(ValueType::from_str("Boolean"), Some(ValueType::Bool));
    assert_eq!(ValueType::from_str("NUM"), Some(ValueType::Float));
    assert_eq!(ValueType::from_str("text"), None);
    assert_eq!(ValueType::Int.label(), "int");
    assert_eq!(parse_typed_value("On", ValueType::Bool), Ok(TypedValue::Bool(true)));
    assert_eq!(parse_typed_value("0", ValueType::Bool), Ok(TypedValue::Bool(false)));
    assert_eq!(
        parse_typed_value("maybe", ValueType::Bool),
        Err(AxError::InvalidArgument(
            "Cannot parse 'maybe' as bool (expected true/false/1/0/yes/no)".to_string()
        ))
    );
    assert_eq!(parse_typed_value("-17", ValueType::Int), Ok(TypedValue::Int(-17)));
    assert_eq!(
        parse_typed_value("1.5", ValueType::Int),
        Err(AxError::InvalidArgument("Cannot parse '1.5' as integer".to_string()))
    );
    assert_eq!(parse_typed_value("1.5", ValueType::Float), Ok(TypedValue::Float("1.5".to_string())));
    assert_eq!(parse_typed_value(" x ", ValueType::String), Ok(TypedValue::Text(" x ".to_string())));
    assert_eq!(
        float_parse_error("nan?"),
        AxError::InvalidArgument("Cannot parse 'nan?' as float".to_string())
    );
    assert_eq!(
        unknown_value_type_error("date"),
        AxError::InvalidArgument("Unknown value type 'date'. Valid: string, bool, int, float".to_string())
    );
}

#[test]
fn integer_text_reads_back() {
    for n in [0i64, 7, -7, i64::MAX, i64::MIN] {
        assert_eq!(parse_typed_value(&n.to_string(), ValueType::Int), Ok(TypedValue::Int(n)));
    }
}

#[test]
fn writing_attributes() {
    assert_eq!(check_settable("AXValue", 0, true), Ok(true));
    assert_eq!(
        check_settable("AXValue", -25204, false),
        Err(AxError::AttributeError {
            name: "AXValue".to_string(),
            message: "Attribute unsupported".to_string()
        })
    );
    assert_eq!(set_attribute("AXValue", 0), Ok(()));
    assert_eq!(
        set_attribute("AXValue", -25200),
        Err(AxError::SetAttributeError {
            attribute: "AXValue".to_string(),
            message: "API disabled".to_string()
        })
    );
    assert_eq!(
        set_attribute_typed("AXValue", Ok(false), "1", ValueType::Int),
        Err(AxError::SetAttributeError {
            attribute: "AXValue".to_string(),
            message: "Attribute is not settable on this element".to_string()
        })
    );
    assert_eq!(set_attribute_typed("AXValue", Ok(true), "12", ValueType::Int), Ok(TypedValue::Int(12)));
    assert_eq!(
        set_attribute_typed("AXValue", Err(AxError::ElementNotFound), "12", ValueType::Int),
        Err(AxError::ElementNotFound)
    );
    assert_eq!(
        type_text_error("AXStaticText"),
        AxError::SetAttributeError {
            attribute: "AXValue".to_string(),
            message: "Cannot set text on this element (role: AXStaticText). The element may not be editable."
                .to_string()
        }
    );
    assert_eq!(perform_action("AXPress", 0), Ok(()));
    assert_eq!(
        perform_action("AXPress", -25205),
        Err(AxError::ActionFailed {
            action: "AXPress".to_string(),
            message: "Action unsupported".to_string()
        })
    );
}

#[test]
fn notifications() {
    let all = notification_names("all");
    assert_eq!(all, common_notifications());
    assert_eq!(all.len(), 28);
    assert_eq!(all[0], "AXFocusedUIElementChanged");
    assert_eq!(
        notification_names(" AXValueChanged , AXTitleChanged,"),
        vec!["AXValueChanged".to_string(), "AXTitleChanged".to_string(), String::new()]
    );
    let e = notification_event("AXMoved".to_string(), None, Some("W".to_string()));
    assert_eq!(e.element_role, "Unknown");
    assert_eq!(e.element_title, Some("W".to_string()));
    assert_eq!(
        observer_create_error(-25200),
        AxError::ObserverError("Failed to create observer (code -25200)".to_string())
    );
    assert_eq!(
        registration_warning("AXFoo", -25207),
        "Warning: Failed to add notification 'AXFoo' (code -25207)"
    );
    assert_eq!(registration_result(&vec![0, -25207, 0]), Ok(2));
    assert_eq!(
        registration_result(&vec![-25207]),
        Err(AxError::ObserverError(
            "No notifications could be registered. Check notification names and app support."
                .to_string()
        ))
    );
}

#[test]
fn permissions_by_command() {
    assert!(!command_needs_accessibility(CommandKind::List, false));
    assert!(!command_needs_accessibility(CommandKind::Discover, false));
    assert!(command_needs_accessibility(CommandKind::Screenshot, false));
    assert!(!command_needs_accessibility(CommandKind::Screenshot, true));
    assert!(command_needs_accessibility(CommandKind::Tree, true));
    assert!(command_needs_screen_capture(CommandKind::Screenshot));
    assert!(!command_needs_screen_capture(CommandKind::Tree));
}

#[test]
fn every_error_message() {
    let s = |x: &str| x.to_string();
    let cases = vec![
        (AxError::AccessibilityNotTrusted, "Accessibility permission not granted. Enable it in System Settings > Privacy & Security > Accessibility"),
        (AxError::ScreenCaptureNotTrusted, "Screen Recording permission not granted. Enable it in System Settings > Privacy & Security > Screen & System Audio Recording"),
        (AxError::ElementNotFound, "No element found at the specified target"),
        (AxError::AttributeError { name: s("AXTitle"), message: s("No value") }, "Attribute error for 'AXTitle': No value"),
        (AxError::InvalidArgument(s("bad")), "Invalid argument: bad"),
        (AxError::InvalidScreenshotTarget(s("t")), "Invalid screenshot target: t"),
        (AxError::ObserverError(s("o")), "Observer error: o"),
        (AxError::ScreenshotUnavailable(s("u")), "Screenshot unavailable: u"),
        (AxError::Timeout(s("5s")), "Timed out: 5s"),
        (AxError::AXError { code: 3, message: s("m") }, "AX API error (code 3): m"),
    ];
    for (e, text) in cases {
        assert_eq!(e.message(), text);
        assert_eq!(e.exit_code(), match e {
            AxError::AccessibilityNotTrusted => 1,
            AxError::ElementNotFound => 3,
            AxError::ScreenCaptureNotTrusted => 7,
            _ => 5,
        });
    }
}
