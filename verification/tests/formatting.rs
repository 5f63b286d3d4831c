use ax::ax::actions::ActionInfo;
use ax::ax::app::AppInfo;
use ax::ax::attributes::{AttributeInfo, ElementInfo};
use ax::ax::observer::NotificationEvent;
use ax::output::plain_fmt::{
    format_action_result, format_app_list, format_attributes, format_element_info,
    format_focus_result, format_notification, format_parameterized_attrs, format_set_result,
    format_supported, format_type_result,
};
use ax::output::{resolve_output_format, OutputFormat};

fn app_info(name: &str, pid: i32, bundle: &str) -> AppInfo {
    AppInfo { pid, name: name.to_string(), bundle_id: bundle.to_string() }
}

#[test]
fn app_table_plain() {
    let apps = vec![
        app_info("Calculator", 1234, "com.apple.calculator"),
        app_info("Finder", 1979, "com.apple.finder"),
        app_info("Safari", 12345, "com.apple.Safari"),
    ];
    assert_eq!(
        format_app_list(&apps, false),
        "NAME            PID  BUNDLE ID\n\
         Calculator     1234  com.apple.calculator\n\
         Finder         1979  com.apple.finder\n\
         Safari        12345  com.apple.Safari\n"
    );
    assert_eq!(format_app_list(&Vec::new(), false), "No applications found.");
}

#[test]
fn app_table_name_column_is_at_least_four() {
    let apps = vec![app_info("Ab", 7, "x")];
    assert_eq!(format_app_list(&apps, false), "NAME      PID  BUNDLE ID\nAb          7  x\n");
}

#[test]
fn attributes_plain() {
    let attrs = vec![
        AttributeInfo { name: "AXRole".to_string(), value: "AXButton".to_string(), settable: false },
        AttributeInfo { name: "AXValue".to_string(), value: "3".to_string(), settable: true },
    ];
    assert_eq!(
        format_attributes(&attrs, false),
        "   AXRole  AXButton\n  AXValue  3 (settable)\n"
    );
    assert_eq!(format_attributes(&Vec::new(), false), "No attributes found.\n");
}

#[test]
fn notification_plain() {
    let e = NotificationEvent {
        notification: "AXValueChanged".to_string(),
        element_role: "AXTextField".to_string(),
        element_title: Some("Search".to_string()),
    };
    assert_eq!(format_notification(&e, false), ">> AXValueChanged AXTextField \"Search\"");
    let e = NotificationEvent { element_title: None, ..e };
    assert_eq!(format_notification(&e, false), ">> AXValueChanged AXTextField");
}

#[test]
fn element_info_plain() {
    let info = ElementInfo {
        role: "AXButton".to_string(),
        subrole: None,
        title: Some("OK".to_string()),
        description: None,
        value: None,
        identifier: None,
        enabled: Some(true),
        focused: None,
        position: None,
        size: None,
        children_count: Some(2),
    };
    let attrs = vec![
        AttributeInfo { name: "AXRole".to_string(), value: "AXButton".to_string(), settable: false },
        AttributeInfo { name: "AXHelp".to_string(), value: "Press".to_string(), settable: true },
    ];
    let actions = vec![
        ActionInfo { name: "AXPress".to_string(), description: "press".to_string() },
        ActionInfo { name: "AXShowMenu".to_string(), description: String::new() },
    ];
    let out = format_element_info(&info, &attrs, &actions, false);
    assert_eq!(
        out,
        "── Basic ──\n\
         \x20           Role  AXButton\n\
         \x20          Title  OK\n\
         \x20        Enabled  true\n\
         \x20       Children  2 items\n\
         \n── Attributes ──\n\
         \x20 AXHelp  Press (settable)\n\
         \n── Actions ──\n\
         \x20 AXPress  (press)\n\
         \x20 AXShowMenu\n"
    );
}

#[test]
fn element_info_without_extras() {
    let info = ElementInfo {
        role: "AXWindow".to_string(),
        subrole: None,
        title: None,
        description: None,
        value: None,
        identifier: None,
        enabled: None,
        focused: None,
        position: None,
        size: None,
        children_count: None,
    };
    assert_eq!(
        format_element_info(&info, &Vec::new(), &Vec::new(), false),
        "── Basic ──\n            Role  AXWindow\n"
    );
}

#[test]
fn one_line_results_plain() {
    assert_eq!(
        format_set_result("AXValue", Some("a"), None, false),
        "Set AXValue  a → <no value>"
    );
    assert_eq!(
        format_action_result("AXPress", "AXButton", Some("OK"), false),
        "Performed AXPress on AXButton \"OK\""
    );
    assert_eq!(
        format_action_result("AXPress", "AXButton", Some(""), false),
        "Performed AXPress on AXButton"
    );
    assert_eq!(format_focus_result("AXTextField", None, true, false), "Focused AXTextField");
    assert_eq!(
        format_focus_result("AXTextField", Some("Name"), false, false),
        "Focus sent (unverified) AXTextField \"Name\""
    );
    assert_eq!(
        format_type_result("AXTextField", None, Some("hi"), false),
        "Typed into AXTextField  <empty> → hi"
    );
}

#[test]
fn supported_plain() {
    let attrs = vec!["AXRole".to_string(), "AXTitle".to_string()];
    let actions = vec!["AXPress".to_string()];
    assert_eq!(
        format_supported(&attrs, &Vec::new(), &actions, false),
        "── Attributes (2) ──\n  AXRole\n  AXTitle\n\n\
         ── Parameterized Attributes (0) ──\n  (none)\n\n\
         ── Actions (1) ──\n  AXPress\n"
    );
}

#[test]
fn parameterized_attrs_plain() {
    let names = vec!["AXLineForIndex".to_string(), "AXCustom".to_string()];
    assert_eq!(
        format_parameterized_attrs(&names, false),
        "  AXLineForIndex  param: --index <n>\n        AXCustom  \n"
    );
    assert_eq!(format_parameterized_attrs(&Vec::new(), false), "No parameterized attributes.\n");
}

#[test]
fn output_format_json_flag_wins() {
    assert_eq!(resolve_output_format(true, OutputFormat::Tree), OutputFormat::Json);
    assert_eq!(resolve_output_format(false, OutputFormat::Tree), OutputFormat::Tree);
}
