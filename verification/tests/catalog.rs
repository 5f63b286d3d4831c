use ax::ax::catalog::{discover_category, search_catalog, CatalogCategory, CatalogEntry};
use ax::error::AxError;
use ax::output::plain_fmt::{format_catalog_list, format_catalog_search};

#[test]
fn category_words_and_labels() {
    assert_eq!(CatalogCategory::from_str("attrs"), Some(CatalogCategory::Attributes));
    assert_eq!(CatalogCategory::from_str("pattrs"), Some(CatalogCategory::ParameterizedAttributes));
    assert_eq!(
        CatalogCategory::from_str("parameterized_attributes"),
        Some(CatalogCategory::ParameterizedAttributes)
    );
    assert_eq!(CatalogCategory::from_str("Roles"), None);
    for c in CatalogCategory::all() {
        assert_eq!(CatalogCategory::from_str(c.label()), Some(c));
    }
    assert_eq!(CatalogCategory::all().len(), 6);
}

#[test]
fn catalog_sizes() {
    assert_eq!(CatalogCategory::Attributes.entries().len(), 110);
    assert_eq!(CatalogCategory::ParameterizedAttributes.entries().len(), 14);
    assert_eq!(CatalogCategory::Actions.entries().len(), 14);
    assert_eq!(CatalogCategory::Notifications.entries().len(), 36);
    assert_eq!(CatalogCategory::Roles.entries().len(), 59);
    assert_eq!(CatalogCategory::Subroles.entries().len(), 37);
}

#[test]
fn discover_category_error_lists_valid_words() {
    assert_eq!(discover_category("actions").unwrap(), CatalogCategory::Actions);
    assert_eq!(
        discover_category("widgets").unwrap_err(),
        AxError::InvalidArgument(
            "Unknown category 'widgets'. Valid: attributes, parameterized-attributes (pattrs), actions, notifications, roles, subroles"
                .to_string()
        )
    );
}

#[test]
fn search_ignores_case_and_keeps_catalog_order() {
    let r = search_catalog(Some(CatalogCategory::Actions), "PRESS");
    let names: Vec<&str> = r.iter().map(|(_, e)| e.name).collect();
    assert_eq!(names, vec!["AXPress", "AXConfirm", "AXCancel"]);
    assert!(r.iter().all(|(c, _)| *c == CatalogCategory::Actions));
}

#[test]
fn search_finds_exactly_the_matching_entries() {
    let term = "window";
    let r = search_catalog(None, term);
    let mut expected = Vec::new();
    for c in CatalogCategory::all() {
        for e in c.entries() {
            if e.name.to_lowercase().contains(term) || e.description.to_lowercase().contains(term) {
                expected.push((c, e));
            }
        }
    }
    assert!(!expected.is_empty());
    assert_eq!(r, expected);
}

#[test]
fn search_without_matches_is_empty() {
    assert!(search_catalog(None, "zzzz-no-such-thing").is_empty());
}

#[test]
fn catalog_search_plain_output() {
    let r = search_catalog(Some(CatalogCategory::Actions), "press");
    let out = format_catalog_search(&r, false);
    assert_eq!(
        out,
        "── 3 match(es) ──\n\
         \x20   AXPress  [actions]  Simulate a press (click) on the element\n\
         \x20 AXConfirm  [actions]  Confirm the current action (e.g. press Enter)\n\
         \x20  AXCancel  [actions]  Cancel the current action (e.g. press Escape)\n"
    );
    assert_eq!(format_catalog_search(&Vec::new(), false), "No matches found.\n");
}

#[test]
fn catalog_list_plain_output() {
    let entries = vec![
        CatalogEntry { name: "AXRole", description: "The role" },
        CatalogEntry { name: "AXDescription", description: "Text" },
    ];
    let out = format_catalog_list("attributes", &entries, false);
    assert_eq!(
        out,
        "── attributes (2 entries) ──\n         AXRole  The role\n  AXDescription  Text\n"
    );
    assert_eq!(format_catalog_list("roles", &Vec::new(), false), "── roles (0 entries) ──\n");
}

#[test]
fn catalog_list_with_color_wraps_pieces() {
    let entries = vec![CatalogEntry { name: "AXRole", description: "The role" }];
    let out = format_catalog_list("attributes", &entries, true);
    assert!(out.starts_with("── "));
    assert!(out.contains("attributes (1 entries)"));
    assert!(out.contains("AXRole"));
    assert!(out.contains("The role"));
}

#[test]
fn actions_catalog_has_the_common_actions() {
    let actions = CatalogCategory::Actions.entries();
    for n in ["AXPress", "AXShowMenu", "AXConfirm", "AXCancel", "AXIncrement", "AXDecrement", "AXRaise"] {
        assert!(actions.iter().any(|e| e.name == n), "{}", n);
    }
}

#[test]
fn every_category_is_well_formed() {
    for c in CatalogCategory::all() {
        let entries = c.entries();
        assert!(!entries.is_empty());
        let mut names: Vec<&str> = entries.iter().map(|e| e.name).collect();
        assert!(entries.iter().all(|e| e.name.starts_with("AX") && !e.description.is_empty()));
        let n = names.len();
        names.sort();
        names.dedup();
        assert_eq!(names.len(), n);
    }
}
