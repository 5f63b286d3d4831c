use ax::ax::attributes::AttributeInfo;
use ax::output::plain_fmt::{format_attributes, format_set_result};
use ax::output::style::{styled, Style};

#[test]
fn forced_colors_wrap_each_piece() {
    colored::control::set_override(true);
    assert_eq!(
        format_set_result("AXValue", Some("a"), Some("b"), true),
        "\x1b[1;32mSet\x1b[0m \x1b[36mAXValue\x1b[0m \x1b[2ma\x1b[0m → \x1b[1mb\x1b[0m"
    );
}

#[test]
fn forced_colors_pad_inside_the_escapes() {
    colored::control::set_override(true);
    let attrs = vec![
        AttributeInfo { name: "AXRole".to_string(), value: "AXButton".to_string(), settable: false },
        AttributeInfo { name: "AXValue".to_string(), value: "3".to_string(), settable: true },
    ];
    assert_eq!(
        format_attributes(&attrs, true),
        "  \x1b[36m AXRole\x1b[0m  AXButton\x1b[2m\x1b[0m\n  \x1b[36mAXValue\x1b[0m  3\x1b[2m (settable)\x1b[0m\n"
    );
    assert_eq!(styled(true, Style::Blue, "x", 3), "\x1b[34m  x\x1b[0m");
    assert_eq!(styled(true, Style::Yellow, "y", 0), "\x1b[33my\x1b[0m");
}

#[test]
fn colors_switched_off_give_plain_text() {
    colored::control::set_override(false);
    assert_eq!(styled(true, Style::Cyan, "x", 2), " x");
    assert_eq!(styled(false, Style::Cyan, "x", 2), " x");
}
