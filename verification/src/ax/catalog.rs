//! The catalog of known macOS accessibility symbols (attributes,
//! parameterized attributes, actions, notifications, roles and subroles),
//! and search over it.

use vstd::prelude::*;
use crate::ax::app::{lemma_text_lt_asymmetric, lemma_text_lt_transitive, text_lt};
use crate::error::AxError;
use crate::text::{contains, has_substring, lowercase, push_str, str_eq, to_lower};

verus! {

/// A catalog entry for a known AX symbol.
#[derive(Debug, Clone, Copy, PartialEq, Eq)]
pub struct CatalogEntry {
    pub name: &'static str,
    pub description: &'static str,
}

/// The category of AX symbol.
#[derive(Debug, Clone, Copy, PartialEq, Eq)]
pub enum CatalogCategory {
    Attributes,
    ParameterizedAttributes,
    Actions,
    Notifications,
    Roles,
    Subroles,
}

/// Every category, in the order in which searches visit them.
pub open spec fn all_categories() -> Seq<CatalogCategory> {
    seq![
        CatalogCategory::Attributes,
        CatalogCategory::ParameterizedAttributes,
        CatalogCategory::Actions,
        CatalogCategory::Notifications,
        CatalogCategory::Roles,
        CatalogCategory::Subroles,
    ]
}

/// The category that a command-line word names, if any.
pub open spec fn category_named(s: Seq<char>) -> Option<CatalogCategory> {
    if s == "attributes"@ || s == "attrs"@ {
        Some(CatalogCategory::Attributes)
    } else if s == "parameterized-attributes"@ || s == "parameterized_attributes"@ || s
        == "pattrs"@ {
        Some(CatalogCategory::ParameterizedAttributes)
    } else if s == "actions"@ {
        Some(CatalogCategory::Actions)
    } else if s == "notifications"@ {
        Some(CatalogCategory::Notifications)
    } else if s == "roles"@ {
        Some(CatalogCategory::Roles)
    } else if s == "subroles"@ {
        Some(CatalogCategory::Subroles)
    } else {
        None
    }
}

/// The display label of a category.
pub open spec fn category_label(c: CatalogCategory) -> Seq<char> {
    match c {
        CatalogCategory::Attributes => "attributes"@,
        CatalogCategory::ParameterizedAttributes => "parameterized-attributes"@,
        CatalogCategory::Actions => "actions"@,
        CatalogCategory::Notifications => "notifications"@,
        CatalogCategory::Roles => "roles"@,
        CatalogCategory::Subroles => "subroles"@,
    }
}

/// The entries of a category.
pub open spec fn catalog(c: CatalogCategory) -> Seq<CatalogEntry> {
    match c {
        CatalogCategory::Attributes => known_attributes_spec(),
        CatalogCategory::ParameterizedAttributes => known_parameterized_attributes_spec(),
        CatalogCategory::Actions => known_actions_spec(),
        CatalogCategory::Notifications => known_notifications_spec(),
        CatalogCategory::Roles => known_roles_spec(),
        CatalogCategory::Subroles => known_subroles_spec(),
    }
}

/// An entry matches a search term when the lower-cased term occurs in its
/// lower-cased name or description.
pub open spec fn entry_matches(e: CatalogEntry, term: Seq<char>) -> bool {
    has_substring(lowercase(e.name@), lowercase(term)) || has_substring(
        lowercase(e.description@),
        lowercase(term),
    )
}

/// The matching entries among `es`, tagged with their category, in order.
pub open spec fn matching(c: CatalogCategory, es: Seq<CatalogEntry>, term: Seq<char>) -> Seq<
    (CatalogCategory, CatalogEntry),
>
    decreases es.len(),
{
    if es.len() == 0 {
        Seq::empty()
    } else {
        let before = matching(c, es.drop_last(), term);
        if entry_matches(es.last(), term) {
            before.push((c, es.last()))
        } else {
            before
        }
    }
}

/// The matching entries of each category in `cats`, category by category.
pub open spec fn search_in(cats: Seq<CatalogCategory>, term: Seq<char>) -> Seq<
    (CatalogCategory, CatalogEntry),
>
    decreases cats.len(),
{
    if cats.len() == 0 {
        Seq::empty()
    } else {
        search_in(cats.drop_last(), term) + matching(cats.last(), catalog(cats.last()), term)
    }
}

/// The categories a search visits.
pub open spec fn search_scope(category: Option<CatalogCategory>) -> Seq<CatalogCategory> {
    match category {
        Some(c) => seq![c],
        None => all_categories(),
    }
}

impl CatalogCategory {
    /// Every category.
    pub fn all() -> (r: Vec<CatalogCategory>)
        ensures
            r@ == all_categories(),
    {
        vec![
            CatalogCategory::Attributes,
            CatalogCategory::ParameterizedAttributes,
            CatalogCategory::Actions,
            CatalogCategory::Notifications,
            CatalogCategory::Roles,
            CatalogCategory::Subroles,
        ]
    }

    /// The category that a command-line word names, if any.
    pub fn from_str(s: &str) -> (r: Option<CatalogCategory>)
        ensures
            r == category_named(s@),
    {
        if str_eq(s, "attributes") || str_eq(s, "attrs") {
            Some(CatalogCategory::Attributes)
        } else if str_eq(s, "parameterized-attributes") || str_eq(s, "parameterized_attributes")
            || str_eq(s, "pattrs") {
            Some(CatalogCategory::ParameterizedAttributes)
        } else if str_eq(s, "actions") {
            Some(CatalogCategory::Actions)
        } else if str_eq(s, "notifications") {
            Some(CatalogCategory::Notifications)
        } else if str_eq(s, "roles") {
            Some(CatalogCategory::Roles)
        } else if str_eq(s, "subroles") {
            Some(CatalogCategory::Subroles)
        } else {
            None
        }
    }

    /// The display label of the category.
    pub fn label(&self) -> (r: &'static str)
        ensures
            r@ == category_label(*self),
    {
        match self {
            CatalogCategory::Attributes => "attributes",
            CatalogCategory::ParameterizedAttributes => "parameterized-attributes",
            CatalogCategory::Actions => "actions",
            CatalogCategory::Notifications => "notifications",
            CatalogCategory::Roles => "roles",
            CatalogCategory::Subroles => "subroles",
        }
    }

    /// The known entries of the category.
    pub fn entries(&self) -> (r: Vec<CatalogEntry>)
        ensures
            r@ == catalog(*self),
    {
        match self {
            CatalogCategory::Attributes => known_attributes(),
            CatalogCategory::ParameterizedAttributes => known_parameterized_attributes(),
            CatalogCategory::Actions => known_actions(),
            CatalogCategory::Notifications => known_notifications(),
            CatalogCategory::Roles => known_roles(),
            CatalogCategory::Subroles => known_subroles(),
        }
    }
}

/// The message given for a word that names no category.
pub open spec fn unknown_category_text(s: Seq<char>) -> Seq<char> {
    "Unknown category '"@ + s
        + "'. Valid: attributes, parameterized-attributes (pattrs), actions, notifications, roles, subroles"@
}

/// The category a `discover` argument names, or the error that lists the
/// valid ones.
pub fn discover_category(s: &str) -> (r: Result<CatalogCategory, AxError>)
    ensures
        match category_named(s@) {
            Some(c) => r == Ok::<CatalogCategory, AxError>(c),
            None => r matches Err(AxError::InvalidArgument(m)) && m@ == unknown_category_text(s@),
        },
{
    match CatalogCategory::from_str(s) {
        Some(c) => Ok(c),
        None => {
            let mut m = "Unknown category '".to_string();
            push_str(&mut m, s);
            push_str(
                &mut m,
                "'. Valid: attributes, parameterized-attributes (pattrs), actions, notifications, roles, subroles",
            );
            Err(AxError::InvalidArgument(m))
        },
    }
}

/// Whether an entry matches an already lower-cased term.
fn entry_matches_lower(e: &CatalogEntry, term_lower: &String, term: Ghost<Seq<char>>) -> (r: bool)
    requires
        term_lower@ == lowercase(term@),
    ensures
        r == entry_matches(*e, term@),
{
    let name = to_lower(e.name);
    if contains(name.as_str(), term_lower.as_str()) {
        return true;
    }
    let description = to_lower(e.description);
    contains(description.as_str(), term_lower.as_str())
}

/// Search one category, or all of them, for entries whose name or
/// description contains the term, ignoring case.
pub fn search_catalog(category: Option<CatalogCategory>, term: &str) -> (r: Vec<
    (CatalogCategory, CatalogEntry),
>)
    ensures
        r@ == search_in(search_scope(category), term@),
{
    let term_lower = to_lower(term);
    let categories = match category {
        Some(c) => vec![c],
        None => CatalogCategory::all(),
    };
    let mut results: Vec<(CatalogCategory, CatalogEntry)> = Vec::new();
    let mut i: usize = 0;
    while i < categories.len()
        invariant
            categories@ == search_scope(category),
            term_lower@ == lowercase(term@),
            i <= categories@.len(),
            results@ == search_in(categories@.subrange(0, i as int), term@),
        decreases categories.len() - i,
    {
        let cat = categories[i];
        let entries = cat.entries();
        let ghost before = results@;
        let mut j: usize = 0;
        while j < entries.len()
            invariant
                entries@ == catalog(cat),
                term_lower@ == lowercase(term@),
                j <= entries@.len(),
                results@ == before + matching(cat, entries@.subrange(0, j as int), term@),
            decreases entries.len() - j,
        {
            let e = entries[j];
            assert(entries@.subrange(0, j + 1).drop_last() =~= entries@.subrange(0, j as int));
            if entry_matches_lower(&e, &term_lower, Ghost(term@)) {
                results.push((cat, e));
            }
            j = j + 1;
        }
        assert(entries@.subrange(0, entries@.len() as int) =~= entries@);
        assert(categories@.subrange(0, i + 1).drop_last() =~= categories@.subrange(0, i as int));
        i = i + 1;
    }
    assert(categories@.subrange(0, categories@.len() as int) =~= categories@);
    results
}

// ---------------------------------------------------------------------------
// Laws
// ---------------------------------------------------------------------------

/// A category's label names that category again.
pub proof fn lemma_label_names_category(c: CatalogCategory)
    ensures
        category_named(category_label(c)) == Some(c),
{
    reveal_strlit("attributes");
    reveal_strlit("attrs");
    reveal_strlit("parameterized-attributes");
    reveal_strlit("parameterized_attributes");
    reveal_strlit("pattrs");
    reveal_strlit("actions");
    reveal_strlit("notifications");
    reveal_strlit("roles");
    reveal_strlit("subroles");
    let l = category_label(c);
    match c {
        CatalogCategory::Attributes => {},
        CatalogCategory::ParameterizedAttributes => {
            assert(l[0] != "attributes"@[0]);
            assert(l[0] != "attrs"@[0]);
        },
        CatalogCategory::Actions => {
            assert(l.len() != "attributes"@.len());
            assert(l[1] != "attrs"@[1]);
            assert(l.len() != "parameterized-attributes"@.len());
            assert(l.len() != "parameterized_attributes"@.len());
            assert(l.len() != "pattrs"@.len());
        },
        CatalogCategory::Notifications => {
            assert(l.len() != "attributes"@.len());
            assert(l.len() != "attrs"@.len());
            assert(l.len() != "parameterized-attributes"@.len());
            assert(l.len() != "parameterized_attributes"@.len());
            assert(l.len() != "pattrs"@.len());
            assert(l.len() != "actions"@.len());
        },
        CatalogCategory::Roles => {
            assert(l.len() != "attributes"@.len());
            assert(l[0] != "attrs"@[0]);
            assert(l.len() != "parameterized-attributes"@.len());
            assert(l.len() != "parameterized_attributes"@.len());
            assert(l.len() != "pattrs"@.len());
            assert(l.len() != "actions"@.len());
            assert(l.len() != "notifications"@.len());
        },
        CatalogCategory::Subroles => {
            assert(l.len() != "attributes"@.len());
            assert(l.len() != "attrs"@.len());
            assert(l.len() != "parameterized-attributes"@.len());
            assert(l.len() != "parameterized_attributes"@.len());
            assert(l.len() != "pattrs"@.len());
            assert(l[0] != "actions"@[0]);
            assert(l.len() != "notifications"@.len());
            assert(l.len() != "roles"@.len());
        },
    }
}

proof fn lemma_matching_members(
    c: CatalogCategory,
    es: Seq<CatalogEntry>,
    term: Seq<char>,
    x: (CatalogCategory, CatalogEntry),
)
    ensures
        matching(c, es, term).contains(x) <==> (x.0 == c && es.contains(x.1) && entry_matches(
            x.1,
            term,
        )),
    decreases es.len(),
{
    if es.len() > 0 {
        lemma_matching_members(c, es.drop_last(), term, x);
        if es.contains(x.1) && !es.drop_last().contains(x.1) {
            let k = choose|k: int| 0 <= k < es.len() && es[k] == x.1;
            if k < es.len() - 1 {
                assert(es.drop_last()[k] == x.1);
            }
        }
        if es.drop_last().contains(x.1) {
            let k = choose|k: int| 0 <= k < es.drop_last().len() && es.drop_last()[k] == x.1;
            assert(es[k] == x.1);
        }
        let before = matching(c, es.drop_last(), term);
        if entry_matches(es.last(), term) {
            assert(before.push((c, es.last()))[before.len() as int] == (c, es.last()));
            if before.contains(x) {
                let k = choose|k: int| 0 <= k < before.len() && before[k] == x;
                assert(before.push((c, es.last()))[k] == x);
            }
            if before.push((c, es.last())).contains(x) && x != (c, es.last()) {
                let k = choose|k: int|
                    0 <= k < before.len() + 1 && before.push((c, es.last()))[k] == x;
                assert(before[k] == x);
            }
        }
    }
}

/// Search is sound and complete: an entry is found exactly when it belongs
/// to a searched category and its name or description contains the term,
/// ignoring case.
pub proof fn lemma_search_finds_exactly_the_matches(
    cats: Seq<CatalogCategory>,
    term: Seq<char>,
    x: (CatalogCategory, CatalogEntry),
)
    ensures
        search_in(cats, term).contains(x) <==> (cats.contains(x.0) && catalog(x.0).contains(x.1)
            && entry_matches(x.1, term)),
    decreases cats.len(),
{
    if cats.len() > 0 {
        let prev = search_in(cats.drop_last(), term);
        let last = matching(cats.last(), catalog(cats.last()), term);
        lemma_search_finds_exactly_the_matches(cats.drop_last(), term, x);
        lemma_matching_members(cats.last(), catalog(cats.last()), term, x);
        if (prev + last).contains(x) {
            let k = choose|k: int| 0 <= k < (prev + last).len() && (prev + last)[k] == x;
            if k < prev.len() {
                assert(prev[k] == x);
            } else {
                assert(last[k - prev.len()] == x);
            }
        }
        if prev.contains(x) {
            let k = choose|k: int| 0 <= k < prev.len() && prev[k] == x;
            assert((prev + last)[k] == x);
        }
        if last.contains(x) {
            let k = choose|k: int| 0 <= k < last.len() && last[k] == x;
            assert((prev + last)[prev.len() + k] == x);
        }
        if cats.drop_last().contains(x.0) {
            let k = choose|k: int| 0 <= k < cats.drop_last().len() && cats.drop_last()[k] == x.0;
            assert(cats[k] == x.0);
        }
        if cats.contains(x.0) && x.0 != cats.last() {
            let k = choose|k: int| 0 <= k < cats.len() && cats[k] == x.0;
            assert(cats.drop_last()[k] == x.0);
        }
        assert(cats[cats.len() - 1] == cats.last());
    }
}

// ---------------------------------------------------------------------------
// Data (from the macOS SDK headers: AXAttributeConstants.h,
// AXActionConstants.h, AXNotificationConstants.h, AXRoleConstants.h)
// ---------------------------------------------------------------------------

/// The known attributes.
pub open spec fn known_attributes_spec() -> Seq<CatalogEntry> {
    seq![
        CatalogEntry { name: "AXRole", description: "The role of the element (e.g. AXButton, AXWindow)" },
        CatalogEntry { name: "AXSubrole", description: "The subrole of the element (e.g. AXCloseButton)" },
        CatalogEntry { name: "AXRoleDescription", description: "Localized description of the element's role" },
        CatalogEntry { name: "AXTitle", description: "The title of the element" },
        CatalogEntry { name: "AXDescription", description: "The accessibility description" },
        CatalogEntry { name: "AXHelp", description: "The help text for the element" },
        CatalogEntry { name: "AXValue", description: "The current value of the element" },
        CatalogEntry { name: "AXValueDescription", description: "Localized description of the value" },
        CatalogEntry { name: "AXMinValue", description: "Minimum value (for sliders, etc.)" },
        CatalogEntry { name: "AXMaxValue", description: "Maximum value (for sliders, etc.)" },
        CatalogEntry { name: "AXEnabled", description: "Whether the element is enabled" },
        CatalogEntry { name: "AXFocused", description: "Whether the element has keyboard focus" },
        CatalogEntry { name: "AXParent", description: "The parent element in the hierarchy" },
        CatalogEntry { name: "AXChildren", description: "The child elements" },
        CatalogEntry { name: "AXSelectedChildren", description: "The currently selected children" },
        CatalogEntry { name: "AXVisibleChildren", description: "The children currently visible" },
        CatalogEntry { name: "AXWindow", description: "The window containing this element" },
        CatalogEntry { name: "AXTopLevelUIElement", description: "The top-level UI element containing this element" },
        CatalogEntry { name: "AXPosition", description: "The position of the element in screen coordinates" },
        CatalogEntry { name: "AXSize", description: "The size of the element" },
        CatalogEntry { name: "AXFrame", description: "The frame (position + size) of the element" },
        CatalogEntry { name: "AXIdentifier", description: "The identifier of the element (developer-assigned)" },
        CatalogEntry { name: "AXSelectedText", description: "The currently selected text" },
        CatalogEntry { name: "AXSelectedTextRange", description: "The range of the selected text" },
        CatalogEntry { name: "AXSelectedTextRanges", description: "Array of selected text ranges" },
        CatalogEntry { name: "AXNumberOfCharacters", description: "Total number of characters in the text" },
        CatalogEntry { name: "AXVisibleCharacterRange", description: "Range of characters currently visible" },
        CatalogEntry { name: "AXSharedTextUIElements", description: "Other elements sharing this text store" },
        CatalogEntry { name: "AXSharedCharacterRange", description: "Character range shared with other elements" },
        CatalogEntry { name: "AXInsertionPointLineNumber", description: "Line number of the insertion point" },
        CatalogEntry { name: "AXSharedFocusElements", description: "Elements sharing focus" },
        CatalogEntry { name: "AXMain", description: "Whether this is the main window" },
        CatalogEntry { name: "AXMinimized", description: "Whether the window is minimized" },
        CatalogEntry { name: "AXCloseButton", description: "The window's close button" },
        CatalogEntry { name: "AXZoomButton", description: "The window's zoom button" },
        CatalogEntry { name: "AXMinimizeButton", description: "The window's minimize button" },
        CatalogEntry { name: "AXToolbarButton", description: "The window's toolbar button" },
        CatalogEntry { name: "AXFullScreenButton", description: "The window's full screen button" },
        CatalogEntry { name: "AXProxy", description: "The window's document proxy icon" },
        CatalogEntry { name: "AXGrowArea", description: "The window's grow (resize) area" },
        CatalogEntry { name: "AXModal", description: "Whether the window is modal" },
        CatalogEntry { name: "AXDefaultButton", description: "The default button in a dialog" },
        CatalogEntry { name: "AXCancelButton", description: "The cancel button in a dialog" },
        CatalogEntry { name: "AXMenuBar", description: "The application's menu bar" },
        CatalogEntry { name: "AXWindows", description: "All windows of the application" },
        CatalogEntry { name: "AXFocusedWindow", description: "The currently focused window" },
        CatalogEntry { name: "AXFocusedUIElement", description: "The currently focused UI element" },
        CatalogEntry { name: "AXFrontmost", description: "Whether the application is frontmost" },
        CatalogEntry { name: "AXHidden", description: "Whether the application is hidden" },
        CatalogEntry { name: "AXMainWindow", description: "The main window of the application" },
        CatalogEntry { name: "AXExtrasMenuBar", description: "The extras (status) menu bar" },
        CatalogEntry { name: "AXRows", description: "All rows in the table" },
        CatalogEntry { name: "AXVisibleRows", description: "Currently visible rows" },
        CatalogEntry { name: "AXSelectedRows", description: "Currently selected rows" },
        CatalogEntry { name: "AXColumns", description: "All columns in the table" },
        CatalogEntry { name: "AXVisibleColumns", description: "Currently visible columns" },
        CatalogEntry { name: "AXSelectedColumns", description: "Currently selected columns" },
        CatalogEntry { name: "AXSortDirection", description: "Sort direction of a column" },
        CatalogEntry { name: "AXHeader", description: "The header element" },
        CatalogEntry { name: "AXColumnHeaderUIElements", description: "The column header UI elements" },
        CatalogEntry { name: "AXRowHeaderUIElements", description: "The row header UI elements" },
        CatalogEntry { name: "AXIndex", description: "The index of the element (row, column, etc.)" },
        CatalogEntry { name: "AXRowCount", description: "Number of rows" },
        CatalogEntry { name: "AXColumnCount", description: "Number of columns" },
        CatalogEntry { name: "AXOrderedByRow", description: "Whether the table is ordered by row" },
        CatalogEntry { name: "AXDisclosing", description: "Whether the outline row is expanded" },
        CatalogEntry { name: "AXDisclosedRows", description: "Rows disclosed by this row" },
        CatalogEntry { name: "AXDisclosedByRow", description: "The row disclosing this row" },
        CatalogEntry { name: "AXDisclosureLevel", description: "The indentation level" },
        CatalogEntry { name: "AXLinkedUIElements", description: "Elements linked to this element" },
        CatalogEntry { name: "AXTabs", description: "Tab elements in a tab group" },
        CatalogEntry { name: "AXContents", description: "The contents of a scroll area or group" },
        CatalogEntry { name: "AXOverflowButton", description: "The overflow button" },
        CatalogEntry { name: "AXOrientation", description: "The orientation (horizontal/vertical)" },
        CatalogEntry { name: "AXPlaceholderValue", description: "Placeholder text" },
        CatalogEntry { name: "AXDocument", description: "The document URL" },
        CatalogEntry { name: "AXURL", description: "The URL of the element" },
        CatalogEntry { name: "AXLabelValue", description: "The value of a label" },
        CatalogEntry { name: "AXLabelUIElements", description: "Label elements for this element" },
        CatalogEntry { name: "AXServesAsTitleForUIElements", description: "Elements this serves as title for" },
        CatalogEntry { name: "AXTitleUIElement", description: "The element serving as this element's title" },
        CatalogEntry { name: "AXDecrementButton", description: "The decrement button (stepper)" },
        CatalogEntry { name: "AXIncrementButton", description: "The increment button (stepper)" },
        CatalogEntry { name: "AXAllowedValues", description: "Allowed values for the element" },
        CatalogEntry { name: "AXHorizontalScrollBar", description: "The horizontal scroll bar" },
        CatalogEntry { name: "AXVerticalScrollBar", description: "The vertical scroll bar" },
        CatalogEntry { name: "AXSearchButton", description: "The search button" },
        CatalogEntry { name: "AXClearButton", description: "The clear button" },
        CatalogEntry { name: "AXColumnTitles", description: "Column title elements" },
        CatalogEntry { name: "AXEdited", description: "Whether the document has unsaved changes" },
        CatalogEntry { name: "AXValueIncrement", description: "The increment amount for the value" },
        CatalogEntry { name: "AXValueWraps", description: "Whether the value wraps around" },
        CatalogEntry { name: "AXSelected", description: "Whether the element is selected" },
        CatalogEntry { name: "AXMarkerUIElements", description: "Marker elements (ruler)" },
        CatalogEntry { name: "AXUnits", description: "Unit type for ruler" },
        CatalogEntry { name: "AXUnitDescription", description: "Description of units" },
        CatalogEntry { name: "AXMarkerType", description: "Type of ruler marker" },
        CatalogEntry { name: "AXMarkerTypeDescription", description: "Description of marker type" },
        CatalogEntry { name: "AXHandles", description: "Handle elements for a layout area" },
        CatalogEntry { name: "AXIsApplicationRunning", description: "Whether the application process is running" },
        CatalogEntry { name: "AXElementBusy", description: "Whether the element is busy (loading)" },
        CatalogEntry { name: "AXAlternateUIVisible", description: "Whether alternate UI is visible" },
        CatalogEntry { name: "AXRequired", description: "Whether input is required" },
        CatalogEntry { name: "AXAMPMField", description: "AM/PM field in a time picker" },
        CatalogEntry { name: "AXDayField", description: "Day field in a date picker" },
        CatalogEntry { name: "AXMonthField", description: "Month field in a date picker" },
        CatalogEntry { name: "AXYearField", description: "Year field in a date picker" },
        CatalogEntry { name: "AXHourField", description: "Hour field in a time picker" },
        CatalogEntry { name: "AXMinuteField", description: "Minute field in a time picker" },
        CatalogEntry { name: "AXSecondField", description: "Second field in a time picker" },
    ]
}

/// The known attributes.
pub fn known_attributes() -> (r: Vec<CatalogEntry>)
    ensures
        r@ == known_attributes_spec(),
{
    vec![
        CatalogEntry { name: "AXRole", description: "The role of the element (e.g. AXButton, AXWindow)" },
        CatalogEntry { name: "AXSubrole", description: "The subrole of the element (e.g. AXCloseButton)" },
        CatalogEntry { name: "AXRoleDescription", description: "Localized description of the element's role" },
        CatalogEntry { name: "AXTitle", description: "The title of the element" },
        CatalogEntry { name: "AXDescription", description: "The accessibility description" },
        CatalogEntry { name: "AXHelp", description: "The help text for the element" },
        CatalogEntry { name: "AXValue", description: "The current value of the element" },
        CatalogEntry { name: "AXValueDescription", description: "Localized description of the value" },
        CatalogEntry { name: "AXMinValue", description: "Minimum value (for sliders, etc.)" },
        CatalogEntry { name: "AXMaxValue", description: "Maximum value (for sliders, etc.)" },
        CatalogEntry { name: "AXEnabled", description: "Whether the element is enabled" },
        CatalogEntry { name: "AXFocused", description: "Whether the element has keyboard focus" },
        CatalogEntry { name: "AXParent", description: "The parent element in the hierarchy" },
        CatalogEntry { name: "AXChildren", description: "The child elements" },
        CatalogEntry { name: "AXSelectedChildren", description: "The currently selected children" },
        CatalogEntry { name: "AXVisibleChildren", description: "The children currently visible" },
        CatalogEntry { name: "AXWindow", description: "The window containing this element" },
        CatalogEntry { name: "AXTopLevelUIElement", description: "The top-level UI element containing this element" },
        CatalogEntry { name: "AXPosition", description: "The position of the element in screen coordinates" },
        CatalogEntry { name: "AXSize", description: "The size of the element" },
        CatalogEntry { name: "AXFrame", description: "The frame (position + size) of the element" },
        CatalogEntry { name: "AXIdentifier", description: "The identifier of the element (developer-assigned)" },
        CatalogEntry { name: "AXSelectedText", description: "The currently selected text" },
        CatalogEntry { name: "AXSelectedTextRange", description: "The range of the selected text" },
        CatalogEntry { name: "AXSelectedTextRanges", description: "Array of selected text ranges" },
        CatalogEntry { name: "AXNumberOfCharacters", description: "Total number of characters in the text" },
        CatalogEntry { name: "AXVisibleCharacterRange", description: "Range of characters currently visible" },
        CatalogEntry { name: "AXSharedTextUIElements", description: "Other elements sharing this text store" },
        CatalogEntry { name: "AXSharedCharacterRange", description: "Character range shared with other elements" },
        CatalogEntry { name: "AXInsertionPointLineNumber", description: "Line number of the insertion point" },
        CatalogEntry { name: "AXSharedFocusElements", description: "Elements sharing focus" },
        CatalogEntry { name: "AXMain", description: "Whether this is the main window" },
        CatalogEntry { name: "AXMinimized", description: "Whether the window is minimized" },
        CatalogEntry { name: "AXCloseButton", description: "The window's close button" },
        CatalogEntry { name: "AXZoomButton", description: "The window's zoom button" },
        CatalogEntry { name: "AXMinimizeButton", description: "The window's minimize button" },
        CatalogEntry { name: "AXToolbarButton", description: "The window's toolbar button" },
        CatalogEntry { name: "AXFullScreenButton", description: "The window's full screen button" },
        CatalogEntry { name: "AXProxy", description: "The window's document proxy icon" },
        CatalogEntry { name: "AXGrowArea", description: "The window's grow (resize) area" },
        CatalogEntry { name: "AXModal", description: "Whether the window is modal" },
        CatalogEntry { name: "AXDefaultButton", description: "The default button in a dialog" },
        CatalogEntry { name: "AXCancelButton", description: "The cancel button in a dialog" },
        CatalogEntry { name: "AXMenuBar", description: "The application's menu bar" },
        CatalogEntry { name: "AXWindows", description: "All windows of the application" },
        CatalogEntry { name: "AXFocusedWindow", description: "The currently focused window" },
        CatalogEntry { name: "AXFocusedUIElement", description: "The currently focused UI element" },
        CatalogEntry { name: "AXFrontmost", description: "Whether the application is frontmost" },
        CatalogEntry { name: "AXHidden", description: "Whether the application is hidden" },
        CatalogEntry { name: "AXMainWindow", description: "The main window of the application" },
        CatalogEntry { name: "AXExtrasMenuBar", description: "The extras (status) menu bar" },
        CatalogEntry { name: "AXRows", description: "All rows in the table" },
        CatalogEntry { name: "AXVisibleRows", description: "Currently visible rows" },
        CatalogEntry { name: "AXSelectedRows", description: "Currently selected rows" },
        CatalogEntry { name: "AXColumns", description: "All columns in the table" },
        CatalogEntry { name: "AXVisibleColumns", description: "Currently visible columns" },
        CatalogEntry { name: "AXSelectedColumns", description: "Currently selected columns" },
        CatalogEntry { name: "AXSortDirection", description: "Sort direction of a column" },
        CatalogEntry { name: "AXHeader", description: "The header element" },
        CatalogEntry { name: "AXColumnHeaderUIElements", description: "The column header UI elements" },
        CatalogEntry { name: "AXRowHeaderUIElements", description: "The row header UI elements" },
        CatalogEntry { name: "AXIndex", description: "The index of the element (row, column, etc.)" },
        CatalogEntry { name: "AXRowCount", description: "Number of rows" },
        CatalogEntry { name: "AXColumnCount", description: "Number of columns" },
        CatalogEntry { name: "AXOrderedByRow", description: "Whether the table is ordered by row" },
        CatalogEntry { name: "AXDisclosing", description: "Whether the outline row is expanded" },
        CatalogEntry { name: "AXDisclosedRows", description: "Rows disclosed by this row" },
        CatalogEntry { name: "AXDisclosedByRow", description: "The row disclosing this row" },
        CatalogEntry { name: "AXDisclosureLevel", description: "The indentation level" },
        CatalogEntry { name: "AXLinkedUIElements", description: "Elements linked to this element" },
        CatalogEntry { name: "AXTabs", description: "Tab elements in a tab group" },
        CatalogEntry { name: "AXContents", description: "The contents of a scroll area or group" },
        CatalogEntry { name: "AXOverflowButton", description: "The overflow button" },
        CatalogEntry { name: "AXOrientation", description: "The orientation (horizontal/vertical)" },
        CatalogEntry { name: "AXPlaceholderValue", description: "Placeholder text" },
        CatalogEntry { name: "AXDocument", description: "The document URL" },
        CatalogEntry { name: "AXURL", description: "The URL of the element" },
        CatalogEntry { name: "AXLabelValue", description: "The value of a label" },
        CatalogEntry { name: "AXLabelUIElements", description: "Label elements for this element" },
        CatalogEntry { name: "AXServesAsTitleForUIElements", description: "Elements this serves as title for" },
        CatalogEntry { name: "AXTitleUIElement", description: "The element serving as this element's title" },
        CatalogEntry { name: "AXDecrementButton", description: "The decrement button (stepper)" },
        CatalogEntry { name: "AXIncrementButton", description: "The increment button (stepper)" },
        CatalogEntry { name: "AXAllowedValues", description: "Allowed values for the element" },
        CatalogEntry { name: "AXHorizontalScrollBar", description: "The horizontal scroll bar" },
        CatalogEntry { name: "AXVerticalScrollBar", description: "The vertical scroll bar" },
        CatalogEntry { name: "AXSearchButton", description: "The search button" },
        CatalogEntry { name: "AXClearButton", description: "The clear button" },
        CatalogEntry { name: "AXColumnTitles", description: "Column title elements" },
        CatalogEntry { name: "AXEdited", description: "Whether the document has unsaved changes" },
        CatalogEntry { name: "AXValueIncrement", description: "The increment amount for the value" },
        CatalogEntry { name: "AXValueWraps", description: "Whether the value wraps around" },
        CatalogEntry { name: "AXSelected", description: "Whether the element is selected" },
        CatalogEntry { name: "AXMarkerUIElements", description: "Marker elements (ruler)" },
        CatalogEntry { name: "AXUnits", description: "Unit type for ruler" },
        CatalogEntry { name: "AXUnitDescription", description: "Description of units" },
        CatalogEntry { name: "AXMarkerType", description: "Type of ruler marker" },
        CatalogEntry { name: "AXMarkerTypeDescription", description: "Description of marker type" },
        CatalogEntry { name: "AXHandles", description: "Handle elements for a layout area" },
        CatalogEntry { name: "AXIsApplicationRunning", description: "Whether the application process is running" },
        CatalogEntry { name: "AXElementBusy", description: "Whether the element is busy (loading)" },
        CatalogEntry { name: "AXAlternateUIVisible", description: "Whether alternate UI is visible" },
        CatalogEntry { name: "AXRequired", description: "Whether input is required" },
        CatalogEntry { name: "AXAMPMField", description: "AM/PM field in a time picker" },
        CatalogEntry { name: "AXDayField", description: "Day field in a date picker" },
        CatalogEntry { name: "AXMonthField", description: "Month field in a date picker" },
        CatalogEntry { name: "AXYearField", description: "Year field in a date picker" },
        CatalogEntry { name: "AXHourField", description: "Hour field in a time picker" },
        CatalogEntry { name: "AXMinuteField", description: "Minute field in a time picker" },
        CatalogEntry { name: "AXSecondField", description: "Second field in a time picker" },
    ]
}

/// The known parameterized attributes.
pub open spec fn known_parameterized_attributes_spec() -> Seq<CatalogEntry> {
    seq![
        CatalogEntry { name: "AXLineForIndex", description: "Line number for a character index (param: index as CFNumber)" },
        CatalogEntry { name: "AXRangeForLine", description: "Character range for a line number (param: line as CFNumber)" },
        CatalogEntry { name: "AXStringForRange", description: "String for a character range (param: CFRange)" },
        CatalogEntry { name: "AXRangeForPosition", description: "Character range at a screen position (param: CGPoint)" },
        CatalogEntry { name: "AXRangeForIndex", description: "Range of the word/unit at a character index (param: index as CFNumber)" },
        CatalogEntry { name: "AXBoundsForRange", description: "Screen bounds for a character range (param: CFRange)" },
        CatalogEntry { name: "AXRTFForRange", description: "RTF data for a character range (param: CFRange)" },
        CatalogEntry { name: "AXAttributedStringForRange", description: "Attributed string for a character range (param: CFRange)" },
        CatalogEntry { name: "AXStyleRangeForIndex", description: "Range of same style at a character index (param: index as CFNumber)" },
        CatalogEntry { name: "AXCellForColumnAndRow", description: "Cell element at column and row (param: array of [col, row] as CFNumbers)" },
        CatalogEntry { name: "AXLayoutPointForScreenPoint", description: "Convert screen point to layout point (param: CGPoint)" },
        CatalogEntry { name: "AXLayoutSizeForScreenSize", description: "Convert screen size to layout size (param: CGSize)" },
        CatalogEntry { name: "AXScreenPointForLayoutPoint", description: "Convert layout point to screen point (param: CGPoint)" },
        CatalogEntry { name: "AXScreenSizeForLayoutSize", description: "Convert layout size to screen size (param: CGSize)" },
    ]
}

/// The known parameterized attributes.
pub fn known_parameterized_attributes() -> (r: Vec<CatalogEntry>)
    ensures
        r@ == known_parameterized_attributes_spec(),
{
    vec![
        CatalogEntry { name: "AXLineForIndex", description: "Line number for a character index (param: index as CFNumber)" },
        CatalogEntry { name: "AXRangeForLine", description: "Character range for a line number (param: line as CFNumber)" },
        CatalogEntry { name: "AXStringForRange", description: "String for a character range (param: CFRange)" },
        CatalogEntry { name: "AXRangeForPosition", description: "Character range at a screen position (param: CGPoint)" },
        CatalogEntry { name: "AXRangeForIndex", description: "Range of the word/unit at a character index (param: index as CFNumber)" },
        CatalogEntry { name: "AXBoundsForRange", description: "Screen bounds for a character range (param: CFRange)" },
        CatalogEntry { name: "AXRTFForRange", description: "RTF data for a character range (param: CFRange)" },
        CatalogEntry { name: "AXAttributedStringForRange", description: "Attributed string for a character range (param: CFRange)" },
        CatalogEntry { name: "AXStyleRangeForIndex", description: "Range of same style at a character index (param: index as CFNumber)" },
        CatalogEntry { name: "AXCellForColumnAndRow", description: "Cell element at column and row (param: array of [col, row] as CFNumbers)" },
        CatalogEntry { name: "AXLayoutPointForScreenPoint", description: "Convert screen point to layout point (param: CGPoint)" },
        CatalogEntry { name: "AXLayoutSizeForScreenSize", description: "Convert screen size to layout size (param: CGSize)" },
        CatalogEntry { name: "AXScreenPointForLayoutPoint", description: "Convert layout point to screen point (param: CGPoint)" },
        CatalogEntry { name: "AXScreenSizeForLayoutSize", description: "Convert layout size to screen size (param: CGSize)" },
    ]
}

/// The known actions.
pub open spec fn known_actions_spec() -> Seq<CatalogEntry> {
    seq![
        CatalogEntry { name: "AXPress", description: "Simulate a press (click) on the element" },
        CatalogEntry { name: "AXIncrement", description: "Increment the value" },
        CatalogEntry { name: "AXDecrement", description: "Decrement the value" },
        CatalogEntry { name: "AXConfirm", description: "Confirm the current action (e.g. press Enter)" },
        CatalogEntry { name: "AXCancel", description: "Cancel the current action (e.g. press Escape)" },
        CatalogEntry { name: "AXShowAlternateUI", description: "Show alternate UI (e.g. full toolbar)" },
        CatalogEntry { name: "AXShowDefaultUI", description: "Show default UI" },
        CatalogEntry { name: "AXRaise", description: "Raise the window to front" },
        CatalogEntry { name: "AXShowMenu", description: "Show the element's contextual menu" },
        CatalogEntry { name: "AXPick", description: "Pick (select) the element" },
        CatalogEntry { name: "AXScrollLeftByPage", description: "Scroll left by one page" },
        CatalogEntry { name: "AXScrollRightByPage", description: "Scroll right by one page" },
        CatalogEntry { name: "AXScrollUpByPage", description: "Scroll up by one page" },
        CatalogEntry { name: "AXScrollDownByPage", description: "Scroll down by one page" },
    ]
}

/// The known actions.
pub fn known_actions() -> (r: Vec<CatalogEntry>)
    ensures
        r@ == known_actions_spec(),
{
    vec![
        CatalogEntry { name: "AXPress", description: "Simulate a press (click) on the element" },
        CatalogEntry { name: "AXIncrement", description: "Increment the value" },
        CatalogEntry { name: "AXDecrement", description: "Decrement the value" },
        CatalogEntry { name: "AXConfirm", description: "Confirm the current action (e.g. press Enter)" },
        CatalogEntry { name: "AXCancel", description: "Cancel the current action (e.g. press Escape)" },
        CatalogEntry { name: "AXShowAlternateUI", description: "Show alternate UI (e.g. full toolbar)" },
        CatalogEntry { name: "AXShowDefaultUI", description: "Show default UI" },
        CatalogEntry { name: "AXRaise", description: "Raise the window to front" },
        CatalogEntry { name: "AXShowMenu", description: "Show the element's contextual menu" },
        CatalogEntry { name: "AXPick", description: "Pick (select) the element" },
        CatalogEntry { name: "AXScrollLeftByPage", description: "Scroll left by one page" },
        CatalogEntry { name: "AXScrollRightByPage", description: "Scroll right by one page" },
        CatalogEntry { name: "AXScrollUpByPage", description: "Scroll up by one page" },
        CatalogEntry { name: "AXScrollDownByPage", description: "Scroll down by one page" },
    ]
}

/// The known notifications.
pub open spec fn known_notifications_spec() -> Seq<CatalogEntry> {
    seq![
        CatalogEntry { name: "AXApplicationActivated", description: "Application was activated" },
        CatalogEntry { name: "AXApplicationDeactivated", description: "Application was deactivated" },
        CatalogEntry { name: "AXApplicationHidden", description: "Application was hidden" },
        CatalogEntry { name: "AXApplicationShown", description: "Application was shown" },
        CatalogEntry { name: "AXFocusedUIElementChanged", description: "Focused UI element changed" },
        CatalogEntry { name: "AXFocusedWindowChanged", description: "Focused window changed" },
        CatalogEntry { name: "AXMainWindowChanged", description: "Main window changed" },
        CatalogEntry { name: "AXWindowCreated", description: "A new window was created" },
        CatalogEntry { name: "AXWindowDeminiaturized", description: "Window was unminimized" },
        CatalogEntry { name: "AXWindowMiniaturized", description: "Window was minimized" },
        CatalogEntry { name: "AXWindowMoved", description: "Window was moved" },
        CatalogEntry { name: "AXWindowResized", description: "Window was resized" },
        CatalogEntry { name: "AXCreated", description: "Element was created" },
        CatalogEntry { name: "AXUIElementDestroyed", description: "Element was destroyed" },
        CatalogEntry { name: "AXMoved", description: "Element was moved" },
        CatalogEntry { name: "AXResized", description: "Element was resized" },
        CatalogEntry { name: "AXValueChanged", description: "Element value changed" },
        CatalogEntry { name: "AXTitleChanged", description: "Element title changed" },
        CatalogEntry { name: "AXSelectedTextChanged", description: "Selected text changed" },
        CatalogEntry { name: "AXSelectedChildrenChanged", description: "Selected children changed" },
        CatalogEntry { name: "AXSelectedRowsChanged", description: "Selected rows changed" },
        CatalogEntry { name: "AXSelectedColumnsChanged", description: "Selected columns changed" },
        CatalogEntry { name: "AXSelectedCellsChanged", description: "Selected cells changed" },
        CatalogEntry { name: "AXLayoutChanged", description: "Element layout changed" },
        CatalogEntry { name: "AXRowCountChanged", description: "Number of rows changed" },
        CatalogEntry { name: "AXRowExpanded", description: "Outline row expanded" },
        CatalogEntry { name: "AXRowCollapsed", description: "Outline row collapsed" },
        CatalogEntry { name: "AXMenuOpened", description: "Menu was opened" },
        CatalogEntry { name: "AXMenuClosed", description: "Menu was closed" },
        CatalogEntry { name: "AXMenuItemSelected", description: "Menu item was selected" },
        CatalogEntry { name: "AXElementBusyChanged", description: "Element busy state changed" },
        CatalogEntry { name: "AXAnnouncementRequested", description: "VoiceOver announcement requested" },
        CatalogEntry { name: "AXDrawerCreated", description: "A drawer was created" },
        CatalogEntry { name: "AXSheetCreated", description: "A sheet was created" },
        CatalogEntry { name: "AXHelpTagCreated", description: "A help tag was created" },
        CatalogEntry { name: "AXUnitsChanged", description: "Ruler units changed" },
    ]
}

/// The known notifications.
pub fn known_notifications() -> (r: Vec<CatalogEntry>)
    ensures
        r@ == known_notifications_spec(),
{
    vec![
        CatalogEntry { name: "AXApplicationActivated", description: "Application was activated" },
        CatalogEntry { name: "AXApplicationDeactivated", description: "Application was deactivated" },
        CatalogEntry { name: "AXApplicationHidden", description: "Application was hidden" },
        CatalogEntry { name: "AXApplicationShown", description: "Application was shown" },
        CatalogEntry { name: "AXFocusedUIElementChanged", description: "Focused UI element changed" },
        CatalogEntry { name: "AXFocusedWindowChanged", description: "Focused window changed" },
        CatalogEntry { name: "AXMainWindowChanged", description: "Main window changed" },
        CatalogEntry { name: "AXWindowCreated", description: "A new window was created" },
        CatalogEntry { name: "AXWindowDeminiaturized", description: "Window was unminimized" },
        CatalogEntry { name: "AXWindowMiniaturized", description: "Window was minimized" },
        CatalogEntry { name: "AXWindowMoved", description: "Window was moved" },
        CatalogEntry { name: "AXWindowResized", description: "Window was resized" },
        CatalogEntry { name: "AXCreated", description: "Element was created" },
        CatalogEntry { name: "AXUIElementDestroyed", description: "Element was destroyed" },
        CatalogEntry { name: "AXMoved", description: "Element was moved" },
        CatalogEntry { name: "AXResized", description: "Element was resized" },
        CatalogEntry { name: "AXValueChanged", description: "Element value changed" },
        CatalogEntry { name: "AXTitleChanged", description: "Element title changed" },
        CatalogEntry { name: "AXSelectedTextChanged", description: "Selected text changed" },
        CatalogEntry { name: "AXSelectedChildrenChanged", description: "Selected children changed" },
        CatalogEntry { name: "AXSelectedRowsChanged", description: "Selected rows changed" },
        CatalogEntry { name: "AXSelectedColumnsChanged", description: "Selected columns changed" },
        CatalogEntry { name: "AXSelectedCellsChanged", description: "Selected cells changed" },
        CatalogEntry { name: "AXLayoutChanged", description: "Element layout changed" },
        CatalogEntry { name: "AXRowCountChanged", description: "Number of rows changed" },
        CatalogEntry { name: "AXRowExpanded", description: "Outline row expanded" },
        CatalogEntry { name: "AXRowCollapsed", description: "Outline row collapsed" },
        CatalogEntry { name: "AXMenuOpened", description: "Menu was opened" },
        CatalogEntry { name: "AXMenuClosed", description: "Menu was closed" },
        CatalogEntry { name: "AXMenuItemSelected", description: "Menu item was selected" },
        CatalogEntry { name: "AXElementBusyChanged", description: "Element busy state changed" },
        CatalogEntry { name: "AXAnnouncementRequested", description: "VoiceOver announcement requested" },
        CatalogEntry { name: "AXDrawerCreated", description: "A drawer was created" },
        CatalogEntry { name: "AXSheetCreated", description: "A sheet was created" },
        CatalogEntry { name: "AXHelpTagCreated", description: "A help tag was created" },
        CatalogEntry { name: "AXUnitsChanged", description: "Ruler units changed" },
    ]
}

/// The known roles.
pub open spec fn known_roles_spec() -> Seq<CatalogEntry> {
    seq![
        CatalogEntry { name: "AXApplication", description: "An application" },
        CatalogEntry { name: "AXSystemWide", description: "The system-wide accessibility element" },
        CatalogEntry { name: "AXWindow", description: "A window" },
        CatalogEntry { name: "AXSheet", description: "A sheet (attached dialog)" },
        CatalogEntry { name: "AXDrawer", description: "A drawer panel" },
        CatalogEntry { name: "AXGrowArea", description: "A window resize area" },
        CatalogEntry { name: "AXImage", description: "An image" },
        CatalogEntry { name: "AXUnknown", description: "Unknown role" },
        CatalogEntry { name: "AXButton", description: "A button" },
        CatalogEntry { name: "AXRadioButton", description: "A radio button" },
        CatalogEntry { name: "AXCheckBox", description: "A checkbox" },
        CatalogEntry { name: "AXPopUpButton", description: "A pop-up button (dropdown)" },
        CatalogEntry { name: "AXMenuButton", description: "A menu button" },
        CatalogEntry { name: "AXTabGroup", description: "A tab group" },
        CatalogEntry { name: "AXTable", description: "A table" },
        CatalogEntry { name: "AXColumn", description: "A table column" },
        CatalogEntry { name: "AXRow", description: "A table row" },
        CatalogEntry { name: "AXCell", description: "A table cell" },
        CatalogEntry { name: "AXOutline", description: "An outline (tree view)" },
        CatalogEntry { name: "AXBrowser", description: "A column browser" },
        CatalogEntry { name: "AXScrollArea", description: "A scroll area" },
        CatalogEntry { name: "AXScrollBar", description: "A scroll bar" },
        CatalogEntry { name: "AXRadioGroup", description: "A group of radio buttons" },
        CatalogEntry { name: "AXList", description: "A list" },
        CatalogEntry { name: "AXGroup", description: "A group of related elements" },
        CatalogEntry { name: "AXValueIndicator", description: "A value indicator (slider thumb)" },
        CatalogEntry { name: "AXComboBox", description: "A combo box (editable dropdown)" },
        CatalogEntry { name: "AXSlider", description: "A slider" },
        CatalogEntry { name: "AXIncrementor", description: "A stepper control" },
        CatalogEntry { name: "AXBusyIndicator", description: "A busy/progress indicator" },
        CatalogEntry { name: "AXProgressIndicator", description: "A progress bar" },
        CatalogEntry { name: "AXRelevanceIndicator", description: "A relevance indicator" },
        CatalogEntry { name: "AXToolbar", description: "A toolbar" },
        CatalogEntry { name: "AXDisclosureTriangle", description: "A disclosure triangle" },
        CatalogEntry { name: "AXTextField", description: "A text field" },
        CatalogEntry { name: "AXTextArea", description: "A multi-line text area" },
        CatalogEntry { name: "AXStaticText", description: "Static (non-editable) text" },
        CatalogEntry { name: "AXMenuBar", description: "A menu bar" },
        CatalogEntry { name: "AXMenuBarItem", description: "A menu bar item" },
        CatalogEntry { name: "AXMenu", description: "A menu" },
        CatalogEntry { name: "AXMenuItem", description: "A menu item" },
        CatalogEntry { name: "AXSplitGroup", description: "A split view group" },
        CatalogEntry { name: "AXSplitter", description: "A split view divider" },
        CatalogEntry { name: "AXColorWell", description: "A color well" },
        CatalogEntry { name: "AXTimeField", description: "A time input field" },
        CatalogEntry { name: "AXDateField", description: "A date input field" },
        CatalogEntry { name: "AXHelpTag", description: "A help tag (tooltip)" },
        CatalogEntry { name: "AXMatte", description: "A matte (visual overlay)" },
        CatalogEntry { name: "AXDockItem", description: "A Dock item" },
        CatalogEntry { name: "AXRuler", description: "A ruler" },
        CatalogEntry { name: "AXRulerMarker", description: "A ruler marker" },
        CatalogEntry { name: "AXGrid", description: "A grid" },
        CatalogEntry { name: "AXLevelIndicator", description: "A level indicator" },
        CatalogEntry { name: "AXLayoutArea", description: "A layout area" },
        CatalogEntry { name: "AXLayoutItem", description: "A layout item" },
        CatalogEntry { name: "AXHandle", description: "A handle for drag operations" },
        CatalogEntry { name: "AXPopover", description: "A popover" },
        CatalogEntry { name: "AXLink", description: "A hyperlink" },
        CatalogEntry { name: "AXWebArea", description: "A web content area" },
    ]
}

/// The known roles.
pub fn known_roles() -> (r: Vec<CatalogEntry>)
    ensures
        r@ == known_roles_spec(),
{
    vec![
        CatalogEntry { name: "AXApplication", description: "An application" },
        CatalogEntry { name: "AXSystemWide", description: "The system-wide accessibility element" },
        CatalogEntry { name: "AXWindow", description: "A window" },
        CatalogEntry { name: "AXSheet", description: "A sheet (attached dialog)" },
        CatalogEntry { name: "AXDrawer", description: "A drawer panel" },
        CatalogEntry { name: "AXGrowArea", description: "A window resize area" },
        CatalogEntry { name: "AXImage", description: "An image" },
        CatalogEntry { name: "AXUnknown", description: "Unknown role" },
        CatalogEntry { name: "AXButton", description: "A button" },
        CatalogEntry { name: "AXRadioButton", description: "A radio button" },
        CatalogEntry { name: "AXCheckBox", description: "A checkbox" },
        CatalogEntry { name: "AXPopUpButton", description: "A pop-up button (dropdown)" },
        CatalogEntry { name: "AXMenuButton", description: "A menu button" },
        CatalogEntry { name: "AXTabGroup", description: "A tab group" },
        CatalogEntry { name: "AXTable", description: "A table" },
        CatalogEntry { name: "AXColumn", description: "A table column" },
        CatalogEntry { name: "AXRow", description: "A table row" },
        CatalogEntry { name: "AXCell", description: "A table cell" },
        CatalogEntry { name: "AXOutline", description: "An outline (tree view)" },
        CatalogEntry { name: "AXBrowser", description: "A column browser" },
        CatalogEntry { name: "AXScrollArea", description: "A scroll area" },
        CatalogEntry { name: "AXScrollBar", description: "A scroll bar" },
        CatalogEntry { name: "AXRadioGroup", description: "A group of radio buttons" },
        CatalogEntry { name: "AXList", description: "A list" },
        CatalogEntry { name: "AXGroup", description: "A group of related elements" },
        CatalogEntry { name: "AXValueIndicator", description: "A value indicator (slider thumb)" },
        CatalogEntry { name: "AXComboBox", description: "A combo box (editable dropdown)" },
        CatalogEntry { name: "AXSlider", description: "A slider" },
        CatalogEntry { name: "AXIncrementor", description: "A stepper control" },
        CatalogEntry { name: "AXBusyIndicator", description: "A busy/progress indicator" },
        CatalogEntry { name: "AXProgressIndicator", description: "A progress bar" },
        CatalogEntry { name: "AXRelevanceIndicator", description: "A relevance indicator" },
        CatalogEntry { name: "AXToolbar", description: "A toolbar" },
        CatalogEntry { name: "AXDisclosureTriangle", description: "A disclosure triangle" },
        CatalogEntry { name: "AXTextField", description: "A text field" },
        CatalogEntry { name: "AXTextArea", description: "A multi-line text area" },
        CatalogEntry { name: "AXStaticText", description: "Static (non-editable) text" },
        CatalogEntry { name: "AXMenuBar", description: "A menu bar" },
        CatalogEntry { name: "AXMenuBarItem", description: "A menu bar item" },
        CatalogEntry { name: "AXMenu", description: "A menu" },
        CatalogEntry { name: "AXMenuItem", description: "A menu item" },
        CatalogEntry { name: "AXSplitGroup", description: "A split view group" },
        CatalogEntry { name: "AXSplitter", description: "A split view divider" },
        CatalogEntry { name: "AXColorWell", description: "A color well" },
        CatalogEntry { name: "AXTimeField", description: "A time input field" },
        CatalogEntry { name: "AXDateField", description: "A date input field" },
        CatalogEntry { name: "AXHelpTag", description: "A help tag (tooltip)" },
        CatalogEntry { name: "AXMatte", description: "A matte (visual overlay)" },
        CatalogEntry { name: "AXDockItem", description: "A Dock item" },
        CatalogEntry { name: "AXRuler", description: "A ruler" },
        CatalogEntry { name: "AXRulerMarker", description: "A ruler marker" },
        CatalogEntry { name: "AXGrid", description: "A grid" },
        CatalogEntry { name: "AXLevelIndicator", description: "A level indicator" },
        CatalogEntry { name: "AXLayoutArea", description: "A layout area" },
        CatalogEntry { name: "AXLayoutItem", description: "A layout item" },
        CatalogEntry { name: "AXHandle", description: "A handle for drag operations" },
        CatalogEntry { name: "AXPopover", description: "A popover" },
        CatalogEntry { name: "AXLink", description: "A hyperlink" },
        CatalogEntry { name: "AXWebArea", description: "A web content area" },
    ]
}

/// The known subroles.
pub open spec fn known_subroles_spec() -> Seq<CatalogEntry> {
    seq![
        CatalogEntry { name: "AXCloseButton", description: "Window close button" },
        CatalogEntry { name: "AXMinimizeButton", description: "Window minimize button" },
        CatalogEntry { name: "AXZoomButton", description: "Window zoom button" },
        CatalogEntry { name: "AXToolbarButton", description: "Toolbar button" },
        CatalogEntry { name: "AXFullScreenButton", description: "Full screen button" },
        CatalogEntry { name: "AXSecureTextField", description: "Password text field" },
        CatalogEntry { name: "AXTableRow", description: "A table row" },
        CatalogEntry { name: "AXOutlineRow", description: "An outline row" },
        CatalogEntry { name: "AXUnknown", description: "Unknown subrole" },
        CatalogEntry { name: "AXStandardWindow", description: "Standard window" },
        CatalogEntry { name: "AXDialog", description: "Dialog window" },
        CatalogEntry { name: "AXSystemDialog", description: "System dialog" },
        CatalogEntry { name: "AXFloatingWindow", description: "Floating window" },
        CatalogEntry { name: "AXSystemFloatingWindow", description: "System floating window" },
        CatalogEntry { name: "AXIncrementArrow", description: "Increment arrow (stepper)" },
        CatalogEntry { name: "AXDecrementArrow", description: "Decrement arrow (stepper)" },
        CatalogEntry { name: "AXIncrementPage", description: "Increment page (scroll bar)" },
        CatalogEntry { name: "AXDecrementPage", description: "Decrement page (scroll bar)" },
        CatalogEntry { name: "AXSortButton", description: "Column sort button" },
        CatalogEntry { name: "AXSearchField", description: "Search text field" },
        CatalogEntry { name: "AXTimeline", description: "Timeline control" },
        CatalogEntry { name: "AXRatingIndicator", description: "Star rating indicator" },
        CatalogEntry { name: "AXContentList", description: "Content list" },
        CatalogEntry { name: "AXDefinitionList", description: "Definition list" },
        CatalogEntry { name: "AXDescriptionList", description: "Description list" },
        CatalogEntry { name: "AXToggle", description: "Toggle switch" },
        CatalogEntry { name: "AXSwitch", description: "Switch control" },
        CatalogEntry { name: "AXApplicationDockItem", description: "Dock application item" },
        CatalogEntry { name: "AXDocumentDockItem", description: "Dock document item" },
        CatalogEntry { name: "AXFolderDockItem", description: "Dock folder item" },
        CatalogEntry { name: "AXMinimizedWindowDockItem", description: "Dock minimized window item" },
        CatalogEntry { name: "AXURLDockItem", description: "Dock URL item" },
        CatalogEntry { name: "AXDockExtraDockItem", description: "Dock extra item" },
        CatalogEntry { name: "AXTrashDockItem", description: "Dock trash item" },
        CatalogEntry { name: "AXSeparatorDockItem", description: "Dock separator" },
        CatalogEntry { name: "AXProcessSwitcherList", description: "Process switcher list" },
        CatalogEntry { name: "AXTab", description: "A tab" },
    ]
}

/// The known subroles.
pub fn known_subroles() -> (r: Vec<CatalogEntry>)
    ensures
        r@ == known_subroles_spec(),
{
    vec![
        CatalogEntry { name: "AXCloseButton", description: "Window close button" },
        CatalogEntry { name: "AXMinimizeButton", description: "Window minimize button" },
        CatalogEntry { name: "AXZoomButton", description: "Window zoom button" },
        CatalogEntry { name: "AXToolbarButton", description: "Toolbar button" },
        CatalogEntry { name: "AXFullScreenButton", description: "Full screen button" },
        CatalogEntry { name: "AXSecureTextField", description: "Password text field" },
        CatalogEntry { name: "AXTableRow", description: "A table row" },
        CatalogEntry { name: "AXOutlineRow", description: "An outline row" },
        CatalogEntry { name: "AXUnknown", description: "Unknown subrole" },
        CatalogEntry { name: "AXStandardWindow", description: "Standard window" },
        CatalogEntry { name: "AXDialog", description: "Dialog window" },
        CatalogEntry { name: "AXSystemDialog", description: "System dialog" },
        CatalogEntry { name: "AXFloatingWindow", description: "Floating window" },
        CatalogEntry { name: "AXSystemFloatingWindow", description: "System floating window" },
        CatalogEntry { name: "AXIncrementArrow", description: "Increment arrow (stepper)" },
        CatalogEntry { name: "AXDecrementArrow", description: "Decrement arrow (stepper)" },
        CatalogEntry { name: "AXIncrementPage", description: "Increment page (scroll bar)" },
        CatalogEntry { name: "AXDecrementPage", description: "Decrement page (scroll bar)" },
        CatalogEntry { name: "AXSortButton", description: "Column sort button" },
        CatalogEntry { name: "AXSearchField", description: "Search text field" },
        CatalogEntry { name: "AXTimeline", description: "Timeline control" },
        CatalogEntry { name: "AXRatingIndicator", description: "Star rating indicator" },
        CatalogEntry { name: "AXContentList", description: "Content list" },
        CatalogEntry { name: "AXDefinitionList", description: "Definition list" },
        CatalogEntry { name: "AXDescriptionList", description: "Description list" },
        CatalogEntry { name: "AXToggle", description: "Toggle switch" },
        CatalogEntry { name: "AXSwitch", description: "Switch control" },
        CatalogEntry { name: "AXApplicationDockItem", description: "Dock application item" },
        CatalogEntry { name: "AXDocumentDockItem", description: "Dock document item" },
        CatalogEntry { name: "AXFolderDockItem", description: "Dock folder item" },
        CatalogEntry { name: "AXMinimizedWindowDockItem", description: "Dock minimized window item" },
        CatalogEntry { name: "AXURLDockItem", description: "Dock URL item" },
        CatalogEntry { name: "AXDockExtraDockItem", description: "Dock extra item" },
        CatalogEntry { name: "AXTrashDockItem", description: "Dock trash item" },
        CatalogEntry { name: "AXSeparatorDockItem", description: "Dock separator" },
        CatalogEntry { name: "AXProcessSwitcherList", description: "Process switcher list" },
        CatalogEntry { name: "AXTab", description: "A tab" },
    ]
}



// ---------------------------------------------------------------------------
// The tables are well formed
// ---------------------------------------------------------------------------

/// An entry names an `AX` symbol and describes it.
pub open spec fn entry_well_formed(e: CatalogEntry) -> bool {
    &&& e.name@.len() >= 2
    &&& e.name@[0] == 'A'
    &&& e.name@[1] == 'X'
    &&& e.description@.len() > 0
}

/// A catalog table is not empty and each of its entries names an `AX`
/// symbol and describes it.
pub open spec fn entries_well_formed(t: Seq<CatalogEntry>) -> bool {
    &&& t.len() > 0
    &&& forall|i: int| 0 <= i < t.len() ==> #[trigger] entry_well_formed(t[i])
}

/// Every category of the catalog is non-empty, each of its entries has an
/// `AX` name and a description, and no name occurs twice in it.
pub proof fn lemma_catalog_well_formed(c: CatalogCategory)
    ensures
        entries_well_formed(catalog(c)),
        names_distinct(catalog(c)),
{
    match c {
        CatalogCategory::Attributes => {
            lemma_attributes_well_formed();
            lemma_attribute_names_distinct();
        },
        CatalogCategory::ParameterizedAttributes => {
            lemma_parameterized_attributes_well_formed();
            lemma_parameterized_attribute_names_distinct();
        },
        CatalogCategory::Actions => {
            lemma_actions_well_formed();
            lemma_action_names_distinct();
        },
        CatalogCategory::Notifications => {
            lemma_notifications_well_formed();
            lemma_notification_names_distinct();
        },
        CatalogCategory::Roles => {
            lemma_roles_well_formed();
            lemma_role_names_distinct();
        },
        CatalogCategory::Subroles => {
            lemma_subroles_well_formed();
            lemma_subrole_names_distinct();
        },
    }
}

/// The table of attributes is well formed.
proof fn lemma_attributes_well_formed()
    ensures
        entries_well_formed(known_attributes_spec()),
{
    let t = known_attributes_spec();
    reveal_strlit("AXRole");
    reveal_strlit("The role of the element (e.g. AXButton, AXWindow)");
    reveal_strlit("AXSubrole");
    reveal_strlit("The subrole of the element (e.g. AXCloseButton)");
    reveal_strlit("AXRoleDescription");
    reveal_strlit("Localized description of the element's role");
    reveal_strlit("AXTitle");
    reveal_strlit("The title of the element");
    reveal_strlit("AXDescription");
    reveal_strlit("The accessibility description");
    reveal_strlit("AXHelp");
    reveal_strlit("The help text for the element");
    reveal_strlit("AXValue");
    reveal_strlit("The current value of the element");
    reveal_strlit("AXValueDescription");
    reveal_strlit("Localized description of the value");
    reveal_strlit("AXMinValue");
    reveal_strlit("Minimum value (for sliders, etc.)");
    reveal_strlit("AXMaxValue");
    reveal_strlit("Maximum value (for sliders, etc.)");
    reveal_strlit("AXEnabled");
    reveal_strlit("Whether the element is enabled");
    reveal_strlit("AXFocused");
    reveal_strlit("Whether the element has keyboard focus");
    reveal_strlit("AXParent");
    reveal_strlit("The parent element in the hierarchy");
    reveal_strlit("AXChildren");
    reveal_strlit("The child elements");
    reveal_strlit("AXSelectedChildren");
    reveal_strlit("The currently selected children");
    reveal_strlit("AXVisibleChildren");
    reveal_strlit("The children currently visible");
    reveal_strlit("AXWindow");
    reveal_strlit("The window containing this element");
    reveal_strlit("AXTopLevelUIElement");
    reveal_strlit("The top-level UI element containing this element");
    reveal_strlit("AXPosition");
    reveal_strlit("The position of the element in screen coordinates");
    reveal_strlit("AXSize");
    reveal_strlit("The size of the element");
    reveal_strlit("AXFrame");
    reveal_strlit("The frame (position + size) of the element");
    reveal_strlit("AXIdentifier");
    reveal_strlit("The identifier of the element (developer-assigned)");
    reveal_strlit("AXSelectedText");
    reveal_strlit("The currently selected text");
    reveal_strlit("AXSelectedTextRange");
    reveal_strlit("The range of the selected text");
    reveal_strlit("AXSelectedTextRanges");
    reveal_strlit("Array of selected text ranges");
    reveal_strlit("AXNumberOfCharacters");
    reveal_strlit("Total number of characters in the text");
    reveal_strlit("AXVisibleCharacterRange");
    reveal_strlit("Range of characters currently visible");
    reveal_strlit("AXSharedTextUIElements");
    reveal_strlit("Other elements sharing this text store");
    reveal_strlit("AXSharedCharacterRange");
    reveal_strlit("Character range shared with other elements");
    reveal_strlit("AXInsertionPointLineNumber");
    reveal_strlit("Line number of the insertion point");
    reveal_strlit("AXSharedFocusElements");
    reveal_strlit("Elements sharing focus");
    reveal_strlit("AXMain");
    reveal_strlit("Whether this is the main window");
    reveal_strlit("AXMinimized");
    reveal_strlit("Whether the window is minimized");
    reveal_strlit("AXCloseButton");
    reveal_strlit("The window's close button");
    reveal_strlit("AXZoomButton");
    reveal_strlit("The window's zoom button");
    reveal_strlit("AXMinimizeButton");
    reveal_strlit("The window's minimize button");
    reveal_strlit("AXToolbarButton");
    reveal_strlit("The window's toolbar button");
    reveal_strlit("AXFullScreenButton");
    reveal_strlit("The window's full screen button");
    reveal_strlit("AXProxy");
    reveal_strlit("The window's document proxy icon");
    reveal_strlit("AXGrowArea");
    reveal_strlit("The window's grow (resize) area");
    reveal_strlit("AXModal");
    reveal_strlit("Whether the window is modal");
    reveal_strlit("AXDefaultButton");
    reveal_strlit("The default button in a dialog");
    reveal_strlit("AXCancelButton");
    reveal_strlit("The cancel button in a dialog");
    reveal_strlit("AXMenuBar");
    reveal_strlit("The application's menu bar");
    reveal_strlit("AXWindows");
    reveal_strlit("All windows of the application");
    reveal_strlit("AXFocusedWindow");
    reveal_strlit("The currently focused window");
    reveal_strlit("AXFocusedUIElement");
    reveal_strlit("The currently focused UI element");
    reveal_strlit("AXFrontmost");
    reveal_strlit("Whether the application is frontmost");
    reveal_strlit("AXHidden");
    reveal_strlit("Whether the application is hidden");
    reveal_strlit("AXMainWindow");
    reveal_strlit("The main window of the application");
    reveal_strlit("AXExtrasMenuBar");
    reveal_strlit("The extras (status) menu bar");
    reveal_strlit("AXRows");
    reveal_strlit("All rows in the table");
    reveal_strlit("AXVisibleRows");
    reveal_strlit("Currently visible rows");
    reveal_strlit("AXSelectedRows");
    reveal_strlit("Currently selected rows");
    reveal_strlit("AXColumns");
    reveal_strlit("All columns in the table");
    reveal_strlit("AXVisibleColumns");
    reveal_strlit("Currently visible columns");
    reveal_strlit("AXSelectedColumns");
    reveal_strlit("Currently selected columns");
    reveal_strlit("AXSortDirection");
    reveal_strlit("Sort direction of a column");
    reveal_strlit("AXHeader");
    reveal_strlit("The header element");
    reveal_strlit("AXColumnHeaderUIElements");
    reveal_strlit("The column header UI elements");
    reveal_strlit("AXRowHeaderUIElements");
    reveal_strlit("The row header UI elements");
    reveal_strlit("AXIndex");
    reveal_strlit("The index of the element (row, column, etc.)");
    reveal_strlit("AXRowCount");
    reveal_strlit("Number of rows");
    reveal_strlit("AXColumnCount");
    reveal_strlit("Number of columns");
    reveal_strlit("AXOrderedByRow");
    reveal_strlit("Whether the table is ordered by row");
    reveal_strlit("AXDisclosing");
    reveal_strlit("Whether the outline row is expanded");
    reveal_strlit("AXDisclosedRows");
    reveal_strlit("Rows disclosed by this row");
    reveal_strlit("AXDisclosedByRow");
    reveal_strlit("The row disclosing this row");
    reveal_strlit("AXDisclosureLevel");
    reveal_strlit("The indentation level");
    reveal_strlit("AXLinkedUIElements");
    reveal_strlit("Elements linked to this element");
    reveal_strlit("AXTabs");
    reveal_strlit("Tab elements in a tab group");
    reveal_strlit("AXContents");
    reveal_strlit("The contents of a scroll area or group");
    reveal_strlit("AXOverflowButton");
    reveal_strlit("The overflow button");
    reveal_strlit("AXOrientation");
    reveal_strlit("The orientation (horizontal/vertical)");
    reveal_strlit("AXPlaceholderValue");
    reveal_strlit("Placeholder text");
    reveal_strlit("AXDocument");
    reveal_strlit("The document URL");
    reveal_strlit("AXURL");
    reveal_strlit("The URL of the element");
    reveal_strlit("AXLabelValue");
    reveal_strlit("The value of a label");
    reveal_strlit("AXLabelUIElements");
    reveal_strlit("Label elements for this element");
    reveal_strlit("AXServesAsTitleForUIElements");
    reveal_strlit("Elements this serves as title for");
    reveal_strlit("AXTitleUIElement");
    reveal_strlit("The element serving as this element's title");
    reveal_strlit("AXDecrementButton");
    reveal_strlit("The decrement button (stepper)");
    reveal_strlit("AXIncrementButton");
    reveal_strlit("The increment button (stepper)");
    reveal_strlit("AXAllowedValues");
    reveal_strlit("Allowed values for the element");
    reveal_strlit("AXHorizontalScrollBar");
    reveal_strlit("The horizontal scroll bar");
    reveal_strlit("AXVerticalScrollBar");
    reveal_strlit("The vertical scroll bar");
    reveal_strlit("AXSearchButton");
    reveal_strlit("The search button");
    reveal_strlit("AXClearButton");
    reveal_strlit("The clear button");
    reveal_strlit("AXColumnTitles");
    reveal_strlit("Column title elements");
    reveal_strlit("AXEdited");
    reveal_strlit("Whether the document has unsaved changes");
    reveal_strlit("AXValueIncrement");
    reveal_strlit("The increment amount for the value");
    reveal_strlit("AXValueWraps");
    reveal_strlit("Whether the value wraps around");
    reveal_strlit("AXSelected");
    reveal_strlit("Whether the element is selected");
    reveal_strlit("AXMarkerUIElements");
    reveal_strlit("Marker elements (ruler)");
    reveal_strlit("AXUnits");
    reveal_strlit("Unit type for ruler");
    reveal_strlit("AXUnitDescription");
    reveal_strlit("Description of units");
    reveal_strlit("AXMarkerType");
    reveal_strlit("Type of ruler marker");
    reveal_strlit("AXMarkerTypeDescription");
    reveal_strlit("Description of marker type");
    reveal_strlit("AXHandles");
    reveal_strlit("Handle elements for a layout area");
    reveal_strlit("AXIsApplicationRunning");
    reveal_strlit("Whether the application process is running");
    reveal_strlit("AXElementBusy");
    reveal_strlit("Whether the element is busy (loading)");
    reveal_strlit("AXAlternateUIVisible");
    reveal_strlit("Whether alternate UI is visible");
    reveal_strlit("AXRequired");
    reveal_strlit("Whether input is required");
    reveal_strlit("AXAMPMField");
    reveal_strlit("AM/PM field in a time picker");
    reveal_strlit("AXDayField");
    reveal_strlit("Day field in a date picker");
    reveal_strlit("AXMonthField");
    reveal_strlit("Month field in a date picker");
    reveal_strlit("AXYearField");
    reveal_strlit("Year field in a date picker");
    reveal_strlit("AXHourField");
    reveal_strlit("Hour field in a time picker");
    reveal_strlit("AXMinuteField");
    reveal_strlit("Minute field in a time picker");
    reveal_strlit("AXSecondField");
    reveal_strlit("Second field in a time picker");
    assert(t.len() == 110);
    assert forall|i: int| 0 <= i < t.len() implies #[trigger] entry_well_formed(t[i]) by {
        if i == 0 {} else if i == 1 {} else if i == 2 {} else if i == 3 {} else if i == 4 {}
        else if i == 5 {} else if i == 6 {} else if i == 7 {} else if i == 8 {} else if i == 9 {}
        else if i == 10 {} else if i == 11 {} else if i == 12 {} else if i == 13 {}
        else if i == 14 {} else if i == 15 {} else if i == 16 {} else if i == 17 {}
        else if i == 18 {} else if i == 19 {} else if i == 20 {} else if i == 21 {}
        else if i == 22 {} else if i == 23 {} else if i == 24 {} else if i == 25 {}
        else if i == 26 {} else if i == 27 {} else if i == 28 {} else if i == 29 {}
        else if i == 30 {} else if i == 31 {} else if i == 32 {} else if i == 33 {}
        else if i == 34 {} else if i == 35 {} else if i == 36 {} else if i == 37 {}
        else if i == 38 {} else if i == 39 {} else if i == 40 {} else if i == 41 {}
        else if i == 42 {} else if i == 43 {} else if i == 44 {} else if i == 45 {}
        else if i == 46 {} else if i == 47 {} else if i == 48 {} else if i == 49 {}
        else if i == 50 {} else if i == 51 {} else if i == 52 {} else if i == 53 {}
        else if i == 54 {} else if i == 55 {} else if i == 56 {} else if i == 57 {}
        else if i == 58 {} else if i == 59 {} else if i == 60 {} else if i == 61 {}
        else if i == 62 {} else if i == 63 {} else if i == 64 {} else if i == 65 {}
        else if i == 66 {} else if i == 67 {} else if i == 68 {} else if i == 69 {}
        else if i == 70 {} else if i == 71 {} else if i == 72 {} else if i == 73 {}
        else if i == 74 {} else if i == 75 {} else if i == 76 {} else if i == 77 {}
        else if i == 78 {} else if i == 79 {} else if i == 80 {} else if i == 81 {}
        else if i == 82 {} else if i == 83 {} else if i == 84 {} else if i == 85 {}
        else if i == 86 {} else if i == 87 {} else if i == 88 {} else if i == 89 {}
        else if i == 90 {} else if i == 91 {} else if i == 92 {} else if i == 93 {}
        else if i == 94 {} else if i == 95 {} else if i == 96 {} else if i == 97 {}
        else if i == 98 {} else if i == 99 {} else if i == 100 {} else if i == 101 {}
        else if i == 102 {} else if i == 103 {} else if i == 104 {} else if i == 105 {}
        else if i == 106 {} else if i == 107 {} else if i == 108 {} else if i == 109 {}
    }
}


/// The table of parameterized attributes is well formed.
proof fn lemma_parameterized_attributes_well_formed()
    ensures
        entries_well_formed(known_parameterized_attributes_spec()),
{
    let t = known_parameterized_attributes_spec();
    reveal_strlit("AXLineForIndex");
    reveal_strlit("Line number for a character index (param: index as CFNumber)");
    reveal_strlit("AXRangeForLine");
    reveal_strlit("Character range for a line number (param: line as CFNumber)");
    reveal_strlit("AXStringForRange");
    reveal_strlit("String for a character range (param: CFRange)");
    reveal_strlit("AXRangeForPosition");
    reveal_strlit("Character range at a screen position (param: CGPoint)");
    reveal_strlit("AXRangeForIndex");
    reveal_strlit("Range of the word/unit at a character index (param: index as CFNumber)");
    reveal_strlit("AXBoundsForRange");
    reveal_strlit("Screen bounds for a character range (param: CFRange)");
    reveal_strlit("AXRTFForRange");
    reveal_strlit("RTF data for a character range (param: CFRange)");
    reveal_strlit("AXAttributedStringForRange");
    reveal_strlit("Attributed string for a character range (param: CFRange)");
    reveal_strlit("AXStyleRangeForIndex");
    reveal_strlit("Range of same style at a character index (param: index as CFNumber)");
    reveal_strlit("AXCellForColumnAndRow");
    reveal_strlit("Cell element at column and row (param: array of [col, row] as CFNumbers)");
    reveal_strlit("AXLayoutPointForScreenPoint");
    reveal_strlit("Convert screen point to layout point (param: CGPoint)");
    reveal_strlit("AXLayoutSizeForScreenSize");
    reveal_strlit("Convert screen size to layout size (param: CGSize)");
    reveal_strlit("AXScreenPointForLayoutPoint");
    reveal_strlit("Convert layout point to screen point (param: CGPoint)");
    reveal_strlit("AXScreenSizeForLayoutSize");
    reveal_strlit("Convert layout size to screen size (param: CGSize)");
    assert(t.len() == 14);
    assert forall|i: int| 0 <= i < t.len() implies #[trigger] entry_well_formed(t[i]) by {
        if i == 0 {} else if i == 1 {} else if i == 2 {} else if i == 3 {} else if i == 4 {}
        else if i == 5 {} else if i == 6 {} else if i == 7 {} else if i == 8 {} else if i == 9 {}
        else if i == 10 {} else if i == 11 {} else if i == 12 {} else if i == 13 {}
    }
}


/// The table of actions is well formed.
proof fn lemma_actions_well_formed()
    ensures
        entries_well_formed(known_actions_spec()),
{
    let t = known_actions_spec();
    reveal_strlit("AXPress");
    reveal_strlit("Simulate a press (click) on the element");
    reveal_strlit("AXIncrement");
    reveal_strlit("Increment the value");
    reveal_strlit("AXDecrement");
    reveal_strlit("Decrement the value");
    reveal_strlit("AXConfirm");
    reveal_strlit("Confirm the current action (e.g. press Enter)");
    reveal_strlit("AXCancel");
    reveal_strlit("Cancel the current action (e.g. press Escape)");
    reveal_strlit("AXShowAlternateUI");
    reveal_strlit("Show alternate UI (e.g. full toolbar)");
    reveal_strlit("AXShowDefaultUI");
    reveal_strlit("Show default UI");
    reveal_strlit("AXRaise");
    reveal_strlit("Raise the window to front");
    reveal_strlit("AXShowMenu");
    reveal_strlit("Show the element's contextual menu");
    reveal_strlit("AXPick");
    reveal_strlit("Pick (select) the element");
    reveal_strlit("AXScrollLeftByPage");
    reveal_strlit("Scroll left by one page");
    reveal_strlit("AXScrollRightByPage");
    reveal_strlit("Scroll right by one page");
    reveal_strlit("AXScrollUpByPage");
    reveal_strlit("Scroll up by one page");
    reveal_strlit("AXScrollDownByPage");
    reveal_strlit("Scroll down by one page");
    assert(t.len() == 14);
    assert forall|i: int| 0 <= i < t.len() implies #[trigger] entry_well_formed(t[i]) by {
        if i == 0 {} else if i == 1 {} else if i == 2 {} else if i == 3 {} else if i == 4 {}
        else if i == 5 {} else if i == 6 {} else if i == 7 {} else if i == 8 {} else if i == 9 {}
        else if i == 10 {} else if i == 11 {} else if i == 12 {} else if i == 13 {}
    }
}


/// The table of notifications is well formed.
proof fn lemma_notifications_well_formed()
    ensures
        entries_well_formed(known_notifications_spec()),
{
    let t = known_notifications_spec();
    reveal_strlit("AXApplicationActivated");
    reveal_strlit("Application was activated");
    reveal_strlit("AXApplicationDeactivated");
    reveal_strlit("Application was deactivated");
    reveal_strlit("AXApplicationHidden");
    reveal_strlit("Application was hidden");
    reveal_strlit("AXApplicationShown");
    reveal_strlit("Application was shown");
    reveal_strlit("AXFocusedUIElementChanged");
    reveal_strlit("Focused UI element changed");
    reveal_strlit("AXFocusedWindowChanged");
    reveal_strlit("Focused window changed");
    reveal_strlit("AXMainWindowChanged");
    reveal_strlit("Main window changed");
    reveal_strlit("AXWindowCreated");
    reveal_strlit("A new window was created");
    reveal_strlit("AXWindowDeminiaturized");
    reveal_strlit("Window was unminimized");
    reveal_strlit("AXWindowMiniaturized");
    reveal_strlit("Window was minimized");
    reveal_strlit("AXWindowMoved");
    reveal_strlit("Window was moved");
    reveal_strlit("AXWindowResized");
    reveal_strlit("Window was resized");
    reveal_strlit("AXCreated");
    reveal_strlit("Element was created");
    reveal_strlit("AXUIElementDestroyed");
    reveal_strlit("Element was destroyed");
    reveal_strlit("AXMoved");
    reveal_strlit("Element was moved");
    reveal_strlit("AXResized");
    reveal_strlit("Element was resized");
    reveal_strlit("AXValueChanged");
    reveal_strlit("Element value changed");
    reveal_strlit("AXTitleChanged");
    reveal_strlit("Element title changed");
    reveal_strlit("AXSelectedTextChanged");
    reveal_strlit("Selected text changed");
    reveal_strlit("AXSelectedChildrenChanged");
    reveal_strlit("Selected children changed");
    reveal_strlit("AXSelectedRowsChanged");
    reveal_strlit("Selected rows changed");
    reveal_strlit("AXSelectedColumnsChanged");
    reveal_strlit("Selected columns changed");
    reveal_strlit("AXSelectedCellsChanged");
    reveal_strlit("Selected cells changed");
    reveal_strlit("AXLayoutChanged");
    reveal_strlit("Element layout changed");
    reveal_strlit("AXRowCountChanged");
    reveal_strlit("Number of rows changed");
    reveal_strlit("AXRowExpanded");
    reveal_strlit("Outline row expanded");
    reveal_strlit("AXRowCollapsed");
    reveal_strlit("Outline row collapsed");
    reveal_strlit("AXMenuOpened");
    reveal_strlit("Menu was opened");
    reveal_strlit("AXMenuClosed");
    reveal_strlit("Menu was closed");
    reveal_strlit("AXMenuItemSelected");
    reveal_strlit("Menu item was selected");
    reveal_strlit("AXElementBusyChanged");
    reveal_strlit("Element busy state changed");
    reveal_strlit("AXAnnouncementRequested");
    reveal_strlit("VoiceOver announcement requested");
    reveal_strlit("AXDrawerCreated");
    reveal_strlit("A drawer was created");
    reveal_strlit("AXSheetCreated");
    reveal_strlit("A sheet was created");
    reveal_strlit("AXHelpTagCreated");
    reveal_strlit("A help tag was created");
    reveal_strlit("AXUnitsChanged");
    reveal_strlit("Ruler units changed");
    assert(t.len() == 36);
    assert forall|i: int| 0 <= i < t.len() implies #[trigger] entry_well_formed(t[i]) by {
        if i == 0 {} else if i == 1 {} else if i == 2 {} else if i == 3 {} else if i == 4 {}
        else if i == 5 {} else if i == 6 {} else if i == 7 {} else if i == 8 {} else if i == 9 {}
        else if i == 10 {} else if i == 11 {} else if i == 12 {} else if i == 13 {}
        else if i == 14 {} else if i == 15 {} else if i == 16 {} else if i == 17 {}
        else if i == 18 {} else if i == 19 {} else if i == 20 {} else if i == 21 {}
        else if i == 22 {} else if i == 23 {} else if i == 24 {} else if i == 25 {}
        else if i == 26 {} else if i == 27 {} else if i == 28 {} else if i == 29 {}
        else if i == 30 {} else if i == 31 {} else if i == 32 {} else if i == 33 {}
        else if i == 34 {} else if i == 35 {}
    }
}


/// The table of roles is well formed.
proof fn lemma_roles_well_formed()
    ensures
        entries_well_formed(known_roles_spec()),
{
    let t = known_roles_spec();
    reveal_strlit("AXApplication");
    reveal_strlit("An application");
    reveal_strlit("AXSystemWide");
    reveal_strlit("The system-wide accessibility element");
    reveal_strlit("AXWindow");
    reveal_strlit("A window");
    reveal_strlit("AXSheet");
    reveal_strlit("A sheet (attached dialog)");
    reveal_strlit("AXDrawer");
    reveal_strlit("A drawer panel");
    reveal_strlit("AXGrowArea");
    reveal_strlit("A window resize area");
    reveal_strlit("AXImage");
    reveal_strlit("An image");
    reveal_strlit("AXUnknown");
    reveal_strlit("Unknown role");
    reveal_strlit("AXButton");
    reveal_strlit("A button");
    reveal_strlit("AXRadioButton");
    reveal_strlit("A radio button");
    reveal_strlit("AXCheckBox");
    reveal_strlit("A checkbox");
    reveal_strlit("AXPopUpButton");
    reveal_strlit("A pop-up button (dropdown)");
    reveal_strlit("AXMenuButton");
    reveal_strlit("A menu button");
    reveal_strlit("AXTabGroup");
    reveal_strlit("A tab group");
    reveal_strlit("AXTable");
    reveal_strlit("A table");
    reveal_strlit("AXColumn");
    reveal_strlit("A table column");
    reveal_strlit("AXRow");
    reveal_strlit("A table row");
    reveal_strlit("AXCell");
    reveal_strlit("A table cell");
    reveal_strlit("AXOutline");
    reveal_strlit("An outline (tree view)");
    reveal_strlit("AXBrowser");
    reveal_strlit("A column browser");
    reveal_strlit("AXScrollArea");
    reveal_strlit("A scroll area");
    reveal_strlit("AXScrollBar");
    reveal_strlit("A scroll bar");
    reveal_strlit("AXRadioGroup");
    reveal_strlit("A group of radio buttons");
    reveal_strlit("AXList");
    reveal_strlit("A list");
    reveal_strlit("AXGroup");
    reveal_strlit("A group of related elements");
    reveal_strlit("AXValueIndicator");
    reveal_strlit("A value indicator (slider thumb)");
    reveal_strlit("AXComboBox");
    reveal_strlit("A combo box (editable dropdown)");
    reveal_strlit("AXSlider");
    reveal_strlit("A slider");
    reveal_strlit("AXIncrementor");
    reveal_strlit("A stepper control");
    reveal_strlit("AXBusyIndicator");
    reveal_strlit("A busy/progress indicator");
    reveal_strlit("AXProgressIndicator");
    reveal_strlit("A progress bar");
    reveal_strlit("AXRelevanceIndicator");
    reveal_strlit("A relevance indicator");
    reveal_strlit("AXToolbar");
    reveal_strlit("A toolbar");
    reveal_strlit("AXDisclosureTriangle");
    reveal_strlit("A disclosure triangle");
    reveal_strlit("AXTextField");
    reveal_strlit("A text field");
    reveal_strlit("AXTextArea");
    reveal_strlit("A multi-line text area");
    reveal_strlit("AXStaticText");
    reveal_strlit("Static (non-editable) text");
    reveal_strlit("AXMenuBar");
    reveal_strlit("A menu bar");
    reveal_strlit("AXMenuBarItem");
    reveal_strlit("A menu bar item");
    reveal_strlit("AXMenu");
    reveal_strlit("A menu");
    reveal_strlit("AXMenuItem");
    reveal_strlit("A menu item");
    reveal_strlit("AXSplitGroup");
    reveal_strlit("A split view group");
    reveal_strlit("AXSplitter");
    reveal_strlit("A split view divider");
    reveal_strlit("AXColorWell");
    reveal_strlit("A color well");
    reveal_strlit("AXTimeField");
    reveal_strlit("A time input field");
    reveal_strlit("AXDateField");
    reveal_strlit("A date input field");
    reveal_strlit("AXHelpTag");
    reveal_strlit("A help tag (tooltip)");
    reveal_strlit("AXMatte");
    reveal_strlit("A matte (visual overlay)");
    reveal_strlit("AXDockItem");
    reveal_strlit("A Dock item");
    reveal_strlit("AXRuler");
    reveal_strlit("A ruler");
    reveal_strlit("AXRulerMarker");
    reveal_strlit("A ruler marker");
    reveal_strlit("AXGrid");
    reveal_strlit("A grid");
    reveal_strlit("AXLevelIndicator");
    reveal_strlit("A level indicator");
    reveal_strlit("AXLayoutArea");
    reveal_strlit("A layout area");
    reveal_strlit("AXLayoutItem");
    reveal_strlit("A layout item");
    reveal_strlit("AXHandle");
    reveal_strlit("A handle for drag operations");
    reveal_strlit("AXPopover");
    reveal_strlit("A popover");
    reveal_strlit("AXLink");
    reveal_strlit("A hyperlink");
    reveal_strlit("AXWebArea");
    reveal_strlit("A web content area");
    assert(t.len() == 59);
    assert forall|i: int| 0 <= i < t.len() implies #[trigger] entry_well_formed(t[i]) by {
        if i == 0 {} else if i == 1 {} else if i == 2 {} else if i == 3 {} else if i == 4 {}
        else if i == 5 {} else if i == 6 {} else if i == 7 {} else if i == 8 {} else if i == 9 {}
        else if i == 10 {} else if i == 11 {} else if i == 12 {} else if i == 13 {}
        else if i == 14 {} else if i == 15 {} else if i == 16 {} else if i == 17 {}
        else if i == 18 {} else if i == 19 {} else if i == 20 {} else if i == 21 {}
        else if i == 22 {} else if i == 23 {} else if i == 24 {} else if i == 25 {}
        else if i == 26 {} else if i == 27 {} else if i == 28 {} else if i == 29 {}
        else if i == 30 {} else if i == 31 {} else if i == 32 {} else if i == 33 {}
        else if i == 34 {} else if i == 35 {} else if i == 36 {} else if i == 37 {}
        else if i == 38 {} else if i == 39 {} else if i == 40 {} else if i == 41 {}
        else if i == 42 {} else if i == 43 {} else if i == 44 {} else if i == 45 {}
        else if i == 46 {} else if i == 47 {} else if i == 48 {} else if i == 49 {}
        else if i == 50 {} else if i == 51 {} else if i == 52 {} else if i == 53 {}
        else if i == 54 {} else if i == 55 {} else if i == 56 {} else if i == 57 {}
        else if i == 58 {}
    }
}


/// The table of subroles is well formed.
proof fn lemma_subroles_well_formed()
    ensures
        entries_well_formed(known_subroles_spec()),
{
    let t = known_subroles_spec();
    reveal_strlit("AXCloseButton");
    reveal_strlit("Window close button");
    reveal_strlit("AXMinimizeButton");
    reveal_strlit("Window minimize button");
    reveal_strlit("AXZoomButton");
    reveal_strlit("Window zoom button");
    reveal_strlit("AXToolbarButton");
    reveal_strlit("Toolbar button");
    reveal_strlit("AXFullScreenButton");
    reveal_strlit("Full screen button");
    reveal_strlit("AXSecureTextField");
    reveal_strlit("Password text field");
    reveal_strlit("AXTableRow");
    reveal_strlit("A table row");
    reveal_strlit("AXOutlineRow");
    reveal_strlit("An outline row");
    reveal_strlit("AXUnknown");
    reveal_strlit("Unknown subrole");
    reveal_strlit("AXStandardWindow");
    reveal_strlit("Standard window");
    reveal_strlit("AXDialog");
    reveal_strlit("Dialog window");
    reveal_strlit("AXSystemDialog");
    reveal_strlit("System dialog");
    reveal_strlit("AXFloatingWindow");
    reveal_strlit("Floating window");
    reveal_strlit("AXSystemFloatingWindow");
    reveal_strlit("System floating window");
    reveal_strlit("AXIncrementArrow");
    reveal_strlit("Increment arrow (stepper)");
    reveal_strlit("AXDecrementArrow");
    reveal_strlit("Decrement arrow (stepper)");
    reveal_strlit("AXIncrementPage");
    reveal_strlit("Increment page (scroll bar)");
    reveal_strlit("AXDecrementPage");
    reveal_strlit("Decrement page (scroll bar)");
    reveal_strlit("AXSortButton");
    reveal_strlit("Column sort button");
    reveal_strlit("AXSearchField");
    reveal_strlit("Search text field");
    reveal_strlit("AXTimeline");
    reveal_strlit("Timeline control");
    reveal_strlit("AXRatingIndicator");
    reveal_strlit("Star rating indicator");
    reveal_strlit("AXContentList");
    reveal_strlit("Content list");
    reveal_strlit("AXDefinitionList");
    reveal_strlit("Definition list");
    reveal_strlit("AXDescriptionList");
    reveal_strlit("Description list");
    reveal_strlit("AXToggle");
    reveal_strlit("Toggle switch");
    reveal_strlit("AXSwitch");
    reveal_strlit("Switch control");
    reveal_strlit("AXApplicationDockItem");
    reveal_strlit("Dock application item");
    reveal_strlit("AXDocumentDockItem");
    reveal_strlit("Dock document item");
    reveal_strlit("AXFolderDockItem");
    reveal_strlit("Dock folder item");
    reveal_strlit("AXMinimizedWindowDockItem");
    reveal_strlit("Dock minimized window item");
    reveal_strlit("AXURLDockItem");
    reveal_strlit("Dock URL item");
    reveal_strlit("AXDockExtraDockItem");
    reveal_strlit("Dock extra item");
    reveal_strlit("AXTrashDockItem");
    reveal_strlit("Dock trash item");
    reveal_strlit("AXSeparatorDockItem");
    reveal_strlit("Dock separator");
    reveal_strlit("AXProcessSwitcherList");
    reveal_strlit("Process switcher list");
    reveal_strlit("AXTab");
    reveal_strlit("A tab");
    assert(t.len() == 37);
    assert forall|i: int| 0 <= i < t.len() implies #[trigger] entry_well_formed(t[i]) by {
        if i == 0 {} else if i == 1 {} else if i == 2 {} else if i == 3 {} else if i == 4 {}
        else if i == 5 {} else if i == 6 {} else if i == 7 {} else if i == 8 {} else if i == 9 {}
        else if i == 10 {} else if i == 11 {} else if i == 12 {} else if i == 13 {}
        else if i == 14 {} else if i == 15 {} else if i == 16 {} else if i == 17 {}
        else if i == 18 {} else if i == 19 {} else if i == 20 {} else if i == 21 {}
        else if i == 22 {} else if i == 23 {} else if i == 24 {} else if i == 25 {}
        else if i == 26 {} else if i == 27 {} else if i == 28 {} else if i == 29 {}
        else if i == 30 {} else if i == 31 {} else if i == 32 {} else if i == 33 {}
        else if i == 34 {} else if i == 35 {} else if i == 36 {}
    }
}



// ---------------------------------------------------------------------------
// No name occurs twice
// ---------------------------------------------------------------------------

/// No name occurs twice in the table.
pub open spec fn names_distinct(t: Seq<CatalogEntry>) -> bool {
    forall|i: int, j: int| 0 <= i < j < t.len() ==> #[trigger] t[i].name@ != #[trigger] t[j].name@
}

/// `order` lists the positions of `t` so that the names strictly increase in
/// character order, and `rank` gives each position's place in that list.
pub open spec fn sorted_by(t: Seq<CatalogEntry>, order: Seq<int>, rank: Seq<int>) -> bool {
    &&& order.len() == t.len()
    &&& rank.len() == t.len()
    &&& forall|i: int| 0 <= i < t.len() ==> 0 <= #[trigger] rank[i] < t.len() && order[rank[i]] == i
    &&& forall|k: int| 0 <= k < t.len() ==> 0 <= #[trigger] order[k] < t.len()
    &&& forall|k: int| 0 <= k < t.len() - 1 ==> text_lt(
        #[trigger] t[order[k]].name@,
        t[order[k + 1]].name@,
    )
}

proof fn lemma_sorted_chain(t: Seq<CatalogEntry>, order: Seq<int>, rank: Seq<int>, a: int, b: int)
    requires
        sorted_by(t, order, rank),
        0 <= a < b < t.len(),
    ensures
        text_lt(t[order[a]].name@, t[order[b]].name@),
    decreases b - a,
{
    if b - a > 1 {
        lemma_sorted_chain(t, order, rank, a, b - 1);
        assert(text_lt(t[order[b - 1]].name@, t[order[b - 1 + 1]].name@));
        lemma_text_lt_transitive(t[order[a]].name@, t[order[b - 1]].name@, t[order[b]].name@);
    } else {
        assert(text_lt(t[order[a]].name@, t[order[a + 1]].name@));
    }
}

/// A table whose names can be put in strictly increasing order has no name
/// twice.
proof fn lemma_sorted_names_distinct(t: Seq<CatalogEntry>, order: Seq<int>, rank: Seq<int>)
    requires
        sorted_by(t, order, rank),
    ensures
        names_distinct(t),
{
    assert forall|i: int, j: int| 0 <= i < j < t.len() implies #[trigger] t[i].name@
        != #[trigger] t[j].name@ by {
        let ri = rank[i];
        let rj = rank[j];
        assert(ri != rj);
        if ri < rj {
            lemma_sorted_chain(t, order, rank, ri, rj);
            lemma_text_lt_asymmetric(t[i].name@, t[j].name@);
        } else {
            lemma_sorted_chain(t, order, rank, rj, ri);
            lemma_text_lt_asymmetric(t[j].name@, t[i].name@);
        }
    }
}

/// No name occurs twice among the attributes.
proof fn lemma_attribute_names_distinct()
    ensures
        names_distinct(known_attributes_spec()),
{
    let t = known_attributes_spec();
    let order: Seq<int> = seq![
        103, 83, 101, 42, 13, 87, 33, 63, 59, 88, 54, 71, 104, 81, 41, 4, 67, 66, 65, 68, 75, 89,
        100, 10, 50, 11, 46, 45, 20, 47, 37, 39, 98, 58, 5, 48, 84, 107, 21, 82, 61, 29, 99, 78, 77,
        69, 31, 49, 96, 97, 93, 9, 43, 8, 35, 32, 108, 40, 105, 25, 64, 73, 72, 12, 74, 18, 38, 102,
        0, 2, 62, 60, 51, 86, 109, 92, 14, 56, 53, 22, 23, 24, 79, 28, 30, 27, 19, 57, 1, 70, 3, 80,
        36, 17, 76, 95, 94, 6, 7, 90, 91, 85, 26, 15, 55, 52, 16, 44, 106, 34,
    ];
    let rank: Seq<int> = seq![
        68, 88, 69, 90, 15, 34, 97, 98, 53, 51, 23, 25, 63, 4, 76, 103, 106, 93, 65, 86, 28, 38, 79,
        80, 81, 59, 102, 85, 83, 41, 84, 46, 55, 6, 109, 54, 92, 30, 66, 31, 57, 14, 3, 52, 107, 27,
        26, 29, 35, 47, 24, 72, 105, 78, 10, 104, 77, 87, 33, 8, 71, 40, 70, 7, 60, 18, 17, 16, 19,
        45, 89, 11, 62, 61, 64, 20, 94, 44, 43, 82, 91, 13, 39, 1, 36, 101, 73, 5, 9, 21, 99, 100,
        75, 50, 96, 95, 48, 49, 32, 42, 22, 2, 67, 0, 12, 58, 108, 37, 56, 74,
    ];
    reveal_strlit("AXRole");
    reveal_strlit("AXSubrole");
    reveal_strlit("AXRoleDescription");
    reveal_strlit("AXTitle");
    reveal_strlit("AXDescription");
    reveal_strlit("AXHelp");
    reveal_strlit("AXValue");
    reveal_strlit("AXValueDescription");
    reveal_strlit("AXMinValue");
    reveal_strlit("AXMaxValue");
    reveal_strlit("AXEnabled");
    reveal_strlit("AXFocused");
    reveal_strlit("AXParent");
    reveal_strlit("AXChildren");
    reveal_strlit("AXSelectedChildren");
    reveal_strlit("AXVisibleChildren");
    reveal_strlit("AXWindow");
    reveal_strlit("AXTopLevelUIElement");
    reveal_strlit("AXPosition");
    reveal_strlit("AXSize");
    reveal_strlit("AXFrame");
    reveal_strlit("AXIdentifier");
    reveal_strlit("AXSelectedText");
    reveal_strlit("AXSelectedTextRange");
    reveal_strlit("AXSelectedTextRanges");
    reveal_strlit("AXNumberOfCharacters");
    reveal_strlit("AXVisibleCharacterRange");
    reveal_strlit("AXSharedTextUIElements");
    reveal_strlit("AXSharedCharacterRange");
    reveal_strlit("AXInsertionPointLineNumber");
    reveal_strlit("AXSharedFocusElements");
    reveal_strlit("AXMain");
    reveal_strlit("AXMinimized");
    reveal_strlit("AXCloseButton");
    reveal_strlit("AXZoomButton");
    reveal_strlit("AXMinimizeButton");
    reveal_strlit("AXToolbarButton");
    reveal_strlit("AXFullScreenButton");
    reveal_strlit("AXProxy");
    reveal_strlit("AXGrowArea");
    reveal_strlit("AXModal");
    reveal_strlit("AXDefaultButton");
    reveal_strlit("AXCancelButton");
    reveal_strlit("AXMenuBar");
    reveal_strlit("AXWindows");
    reveal_strlit("AXFocusedWindow");
    reveal_strlit("AXFocusedUIElement");
    reveal_strlit("AXFrontmost");
    reveal_strlit("AXHidden");
    reveal_strlit("AXMainWindow");
    reveal_strlit("AXExtrasMenuBar");
    reveal_strlit("AXRows");
    reveal_strlit("AXVisibleRows");
    reveal_strlit("AXSelectedRows");
    reveal_strlit("AXColumns");
    reveal_strlit("AXVisibleColumns");
    reveal_strlit("AXSelectedColumns");
    reveal_strlit("AXSortDirection");
    reveal_strlit("AXHeader");
    reveal_strlit("AXColumnHeaderUIElements");
    reveal_strlit("AXRowHeaderUIElements");
    reveal_strlit("AXIndex");
    reveal_strlit("AXRowCount");
    reveal_strlit("AXColumnCount");
    reveal_strlit("AXOrderedByRow");
    reveal_strlit("AXDisclosing");
    reveal_strlit("AXDisclosedRows");
    reveal_strlit("AXDisclosedByRow");
    reveal_strlit("AXDisclosureLevel");
    reveal_strlit("AXLinkedUIElements");
    reveal_strlit("AXTabs");
    reveal_strlit("AXContents");
    reveal_strlit("AXOverflowButton");
    reveal_strlit("AXOrientation");
    reveal_strlit("AXPlaceholderValue");
    reveal_strlit("AXDocument");
    reveal_strlit("AXURL");
    reveal_strlit("AXLabelValue");
    reveal_strlit("AXLabelUIElements");
    reveal_strlit("AXServesAsTitleForUIElements");
    reveal_strlit("AXTitleUIElement");
    reveal_strlit("AXDecrementButton");
    reveal_strlit("AXIncrementButton");
    reveal_strlit("AXAllowedValues");
    reveal_strlit("AXHorizontalScrollBar");
    reveal_strlit("AXVerticalScrollBar");
    reveal_strlit("AXSearchButton");
    reveal_strlit("AXClearButton");
    reveal_strlit("AXColumnTitles");
    reveal_strlit("AXEdited");
    reveal_strlit("AXValueIncrement");
    reveal_strlit("AXValueWraps");
    reveal_strlit("AXSelected");
    reveal_strlit("AXMarkerUIElements");
    reveal_strlit("AXUnits");
    reveal_strlit("AXUnitDescription");
    reveal_strlit("AXMarkerType");
    reveal_strlit("AXMarkerTypeDescription");
    reveal_strlit("AXHandles");
    reveal_strlit("AXIsApplicationRunning");
    reveal_strlit("AXElementBusy");
    reveal_strlit("AXAlternateUIVisible");
    reveal_strlit("AXRequired");
    reveal_strlit("AXAMPMField");
    reveal_strlit("AXDayField");
    reveal_strlit("AXMonthField");
    reveal_strlit("AXYearField");
    reveal_strlit("AXHourField");
    reveal_strlit("AXMinuteField");
    reveal_strlit("AXSecondField");
    reveal_with_fuel(text_lt, 21);
    assert(t.len() == 110);
    assert forall|i: int| 0 <= i < t.len() implies 0 <= #[trigger] rank[i] < t.len() && order[rank[i]] == i by {
        if i == 0 {} else if i == 1 {} else if i == 2 {} else if i == 3 {} else if i == 4 {}
        else if i == 5 {} else if i == 6 {} else if i == 7 {} else if i == 8 {} else if i == 9 {}
        else if i == 10 {} else if i == 11 {} else if i == 12 {} else if i == 13 {}
        else if i == 14 {} else if i == 15 {} else if i == 16 {} else if i == 17 {}
        else if i == 18 {} else if i == 19 {} else if i == 20 {} else if i == 21 {}
        else if i == 22 {} else if i == 23 {} else if i == 24 {} else if i == 25 {}
        else if i == 26 {} else if i == 27 {} else if i == 28 {} else if i == 29 {}
        else if i == 30 {} else if i == 31 {} else if i == 32 {} else if i == 33 {}
        else if i == 34 {} else if i == 35 {} else if i == 36 {} else if i == 37 {}
        else if i == 38 {} else if i == 39 {} else if i == 40 {} else if i == 41 {}
        else if i == 42 {} else if i == 43 {} else if i == 44 {} else if i == 45 {}
        else if i == 46 {} else if i == 47 {} else if i == 48 {} else if i == 49 {}
        else if i == 50 {} else if i == 51 {} else if i == 52 {} else if i == 53 {}
        else if i == 54 {} else if i == 55 {} else if i == 56 {} else if i == 57 {}
        else if i == 58 {} else if i == 59 {} else if i == 60 {} else if i == 61 {}
        else if i == 62 {} else if i == 63 {} else if i == 64 {} else if i == 65 {}
        else if i == 66 {} else if i == 67 {} else if i == 68 {} else if i == 69 {}
        else if i == 70 {} else if i == 71 {} else if i == 72 {} else if i == 73 {}
        else if i == 74 {} else if i == 75 {} else if i == 76 {} else if i == 77 {}
        else if i == 78 {} else if i == 79 {} else if i == 80 {} else if i == 81 {}
        else if i == 82 {} else if i == 83 {} else if i == 84 {} else if i == 85 {}
        else if i == 86 {} else if i == 87 {} else if i == 88 {} else if i == 89 {}
        else if i == 90 {} else if i == 91 {} else if i == 92 {} else if i == 93 {}
        else if i == 94 {} else if i == 95 {} else if i == 96 {} else if i == 97 {}
        else if i == 98 {} else if i == 99 {} else if i == 100 {} else if i == 101 {}
        else if i == 102 {} else if i == 103 {} else if i == 104 {} else if i == 105 {}
        else if i == 106 {} else if i == 107 {} else if i == 108 {} else if i == 109 {}
    }
    assert forall|k: int| 0 <= k < t.len() implies 0 <= #[trigger] order[k] < t.len() by {
        if k == 0 {} else if k == 1 {} else if k == 2 {} else if k == 3 {} else if k == 4 {}
        else if k == 5 {} else if k == 6 {} else if k == 7 {} else if k == 8 {} else if k == 9 {}
        else if k == 10 {} else if k == 11 {} else if k == 12 {} else if k == 13 {}
        else if k == 14 {} else if k == 15 {} else if k == 16 {} else if k == 17 {}
        else if k == 18 {} else if k == 19 {} else if k == 20 {} else if k == 21 {}
        else if k == 22 {} else if k == 23 {} else if k == 24 {} else if k == 25 {}
        else if k == 26 {} else if k == 27 {} else if k == 28 {} else if k == 29 {}
        else if k == 30 {} else if k == 31 {} else if k == 32 {} else if k == 33 {}
        else if k == 34 {} else if k == 35 {} else if k == 36 {} else if k == 37 {}
        else if k == 38 {} else if k == 39 {} else if k == 40 {} else if k == 41 {}
        else if k == 42 {} else if k == 43 {} else if k == 44 {} else if k == 45 {}
        else if k == 46 {} else if k == 47 {} else if k == 48 {} else if k == 49 {}
        else if k == 50 {} else if k == 51 {} else if k == 52 {} else if k == 53 {}
        else if k == 54 {} else if k == 55 {} else if k == 56 {} else if k == 57 {}
        else if k == 58 {} else if k == 59 {} else if k == 60 {} else if k == 61 {}
        else if k == 62 {} else if k == 63 {} else if k == 64 {} else if k == 65 {}
        else if k == 66 {} else if k == 67 {} else if k == 68 {} else if k == 69 {}
        else if k == 70 {} else if k == 71 {} else if k == 72 {} else if k == 73 {}
        else if k == 74 {} else if k == 75 {} else if k == 76 {} else if k == 77 {}
        else if k == 78 {} else if k == 79 {} else if k == 80 {} else if k == 81 {}
        else if k == 82 {} else if k == 83 {} else if k == 84 {} else if k == 85 {}
        else if k == 86 {} else if k == 87 {} else if k == 88 {} else if k == 89 {}
        else if k == 90 {} else if k == 91 {} else if k == 92 {} else if k == 93 {}
        else if k == 94 {} else if k == 95 {} else if k == 96 {} else if k == 97 {}
        else if k == 98 {} else if k == 99 {} else if k == 100 {} else if k == 101 {}
        else if k == 102 {} else if k == 103 {} else if k == 104 {} else if k == 105 {}
        else if k == 106 {} else if k == 107 {} else if k == 108 {} else if k == 109 {}
    }
    assert forall|k: int| 0 <= k < t.len() - 1 implies text_lt(
        #[trigger] t[order[k]].name@,
        t[order[k + 1]].name@,
    ) by {
        if k == 0 {} else if k == 1 {} else if k == 2 {} else if k == 3 {} else if k == 4 {}
        else if k == 5 {} else if k == 6 {} else if k == 7 {} else if k == 8 {} else if k == 9 {}
        else if k == 10 {} else if k == 11 {} else if k == 12 {} else if k == 13 {}
        else if k == 14 {} else if k == 15 {} else if k == 16 {} else if k == 17 {}
        else if k == 18 {} else if k == 19 {} else if k == 20 {} else if k == 21 {}
        else if k == 22 {} else if k == 23 {} else if k == 24 {} else if k == 25 {}
        else if k == 26 {} else if k == 27 {} else if k == 28 {} else if k == 29 {}
        else if k == 30 {} else if k == 31 {} else if k == 32 {} else if k == 33 {}
        else if k == 34 {} else if k == 35 {} else if k == 36 {} else if k == 37 {}
        else if k == 38 {} else if k == 39 {} else if k == 40 {} else if k == 41 {}
        else if k == 42 {} else if k == 43 {} else if k == 44 {} else if k == 45 {}
        else if k == 46 {} else if k == 47 {} else if k == 48 {} else if k == 49 {}
        else if k == 50 {} else if k == 51 {} else if k == 52 {} else if k == 53 {}
        else if k == 54 {} else if k == 55 {} else if k == 56 {} else if k == 57 {}
        else if k == 58 {} else if k == 59 {} else if k == 60 {} else if k == 61 {}
        else if k == 62 {} else if k == 63 {} else if k == 64 {} else if k == 65 {}
        else if k == 66 {} else if k == 67 {} else if k == 68 {} else if k == 69 {}
        else if k == 70 {} else if k == 71 {} else if k == 72 {} else if k == 73 {}
        else if k == 74 {} else if k == 75 {} else if k == 76 {} else if k == 77 {}
        else if k == 78 {} else if k == 79 {} else if k == 80 {} else if k == 81 {}
        else if k == 82 {} else if k == 83 {} else if k == 84 {} else if k == 85 {}
        else if k == 86 {} else if k == 87 {} else if k == 88 {} else if k == 89 {}
        else if k == 90 {} else if k == 91 {} else if k == 92 {} else if k == 93 {}
        else if k == 94 {} else if k == 95 {} else if k == 96 {} else if k == 97 {}
        else if k == 98 {} else if k == 99 {} else if k == 100 {} else if k == 101 {}
        else if k == 102 {} else if k == 103 {} else if k == 104 {} else if k == 105 {}
        else if k == 106 {} else if k == 107 {} else if k == 108 {}
    }
    lemma_sorted_names_distinct(t, order, rank);
}


/// No name occurs twice among the parameterized attributes.
proof fn lemma_parameterized_attribute_names_distinct()
    ensures
        names_distinct(known_parameterized_attributes_spec()),
{
    let t = known_parameterized_attributes_spec();
    let order: Seq<int> = seq![
        7, 5, 9, 10, 11, 0, 6, 4, 1, 3, 12, 13, 2, 8,
    ];
    let rank: Seq<int> = seq![
        5, 8, 12, 9, 7, 1, 6, 0, 13, 2, 3, 4, 10, 11,
    ];
    reveal_strlit("AXLineForIndex");
    reveal_strlit("AXRangeForLine");
    reveal_strlit("AXStringForRange");
    reveal_strlit("AXRangeForPosition");
    reveal_strlit("AXRangeForIndex");
    reveal_strlit("AXBoundsForRange");
    reveal_strlit("AXRTFForRange");
    reveal_strlit("AXAttributedStringForRange");
    reveal_strlit("AXStyleRangeForIndex");
    reveal_strlit("AXCellForColumnAndRow");
    reveal_strlit("AXLayoutPointForScreenPoint");
    reveal_strlit("AXLayoutSizeForScreenSize");
    reveal_strlit("AXScreenPointForLayoutPoint");
    reveal_strlit("AXScreenSizeForLayoutSize");
    reveal_with_fuel(text_lt, 12);
    assert(t.len() == 14);
    assert forall|i: int| 0 <= i < t.len() implies 0 <= #[trigger] rank[i] < t.len() && order[rank[i]] == i by {
        if i == 0 {} else if i == 1 {} else if i == 2 {} else if i == 3 {} else if i == 4 {}
        else if i == 5 {} else if i == 6 {} else if i == 7 {} else if i == 8 {} else if i == 9 {}
        else if i == 10 {} else if i == 11 {} else if i == 12 {} else if i == 13 {}
    }
    assert forall|k: int| 0 <= k < t.len() implies 0 <= #[trigger] order[k] < t.len() by {
        if k == 0 {} else if k == 1 {} else if k == 2 {} else if k == 3 {} else if k == 4 {}
        else if k == 5 {} else if k == 6 {} else if k == 7 {} else if k == 8 {} else if k == 9 {}
        else if k == 10 {} else if k == 11 {} else if k == 12 {} else if k == 13 {}
    }
    assert forall|k: int| 0 <= k < t.len() - 1 implies text_lt(
        #[trigger] t[order[k]].name@,
        t[order[k + 1]].name@,
    ) by {
        if k == 0 {} else if k == 1 {} else if k == 2 {} else if k == 3 {} else if k == 4 {}
        else if k == 5 {} else if k == 6 {} else if k == 7 {} else if k == 8 {} else if k == 9 {}
        else if k == 10 {} else if k == 11 {} else if k == 12 {}
    }
    lemma_sorted_names_distinct(t, order, rank);
}


/// No name occurs twice among the actions.
proof fn lemma_action_names_distinct()
    ensures
        names_distinct(known_actions_spec()),
{
    let t = known_actions_spec();
    let order: Seq<int> = seq![
        4, 3, 2, 1, 9, 0, 7, 13, 10, 11, 12, 5, 6, 8,
    ];
    let rank: Seq<int> = seq![
        5, 3, 2, 1, 0, 11, 12, 6, 13, 4, 8, 9, 10, 7,
    ];
    reveal_strlit("AXPress");
    reveal_strlit("AXIncrement");
    reveal_strlit("AXDecrement");
    reveal_strlit("AXConfirm");
    reveal_strlit("AXCancel");
    reveal_strlit("AXShowAlternateUI");
    reveal_strlit("AXShowDefaultUI");
    reveal_strlit("AXRaise");
    reveal_strlit("AXShowMenu");
    reveal_strlit("AXPick");
    reveal_strlit("AXScrollLeftByPage");
    reveal_strlit("AXScrollRightByPage");
    reveal_strlit("AXScrollUpByPage");
    reveal_strlit("AXScrollDownByPage");
    reveal_with_fuel(text_lt, 10);
    assert(t.len() == 14);
    assert forall|i: int| 0 <= i < t.len() implies 0 <= #[trigger] rank[i] < t.len() && order[rank[i]] == i by {
        if i == 0 {} else if i == 1 {} else if i == 2 {} else if i == 3 {} else if i == 4 {}
        else if i == 5 {} else if i == 6 {} else if i == 7 {} else if i == 8 {} else if i == 9 {}
        else if i == 10 {} else if i == 11 {} else if i == 12 {} else if i == 13 {}
    }
    assert forall|k: int| 0 <= k < t.len() implies 0 <= #[trigger] order[k] < t.len() by {
        if k == 0 {} else if k == 1 {} else if k == 2 {} else if k == 3 {} else if k == 4 {}
        else if k == 5 {} else if k == 6 {} else if k == 7 {} else if k == 8 {} else if k == 9 {}
        else if k == 10 {} else if k == 11 {} else if k == 12 {} else if k == 13 {}
    }
    assert forall|k: int| 0 <= k < t.len() - 1 implies text_lt(
        #[trigger] t[order[k]].name@,
        t[order[k + 1]].name@,
    ) by {
        if k == 0 {} else if k == 1 {} else if k == 2 {} else if k == 3 {} else if k == 4 {}
        else if k == 5 {} else if k == 6 {} else if k == 7 {} else if k == 8 {} else if k == 9 {}
        else if k == 10 {} else if k == 11 {} else if k == 12 {}
    }
    lemma_sorted_names_distinct(t, order, rank);
}


/// No name occurs twice among the notifications.
proof fn lemma_notification_names_distinct()
    ensures
        names_distinct(known_notifications_spec()),
{
    let t = known_notifications_spec();
    let order: Seq<int> = seq![
        31, 0, 1, 2, 3, 12, 32, 30, 4, 5, 34, 23, 6, 28, 29, 27, 14, 15, 26, 24, 25, 22, 19, 21, 20,
        18, 33, 17, 13, 35, 16, 7, 8, 9, 10, 11,
    ];
    let rank: Seq<int> = seq![
        1, 2, 3, 4, 8, 9, 12, 31, 32, 33, 34, 35, 5, 28, 16, 17, 30, 27, 25, 22, 24, 23, 21, 11, 19,
        20, 18, 15, 13, 14, 7, 0, 6, 26, 10, 29,
    ];
    reveal_strlit("AXApplicationActivated");
    reveal_strlit("AXApplicationDeactivated");
    reveal_strlit("AXApplicationHidden");
    reveal_strlit("AXApplicationShown");
    reveal_strlit("AXFocusedUIElementChanged");
    reveal_strlit("AXFocusedWindowChanged");
    reveal_strlit("AXMainWindowChanged");
    reveal_strlit("AXWindowCreated");
    reveal_strlit("AXWindowDeminiaturized");
    reveal_strlit("AXWindowMiniaturized");
    reveal_strlit("AXWindowMoved");
    reveal_strlit("AXWindowResized");
    reveal_strlit("AXCreated");
    reveal_strlit("AXUIElementDestroyed");
    reveal_strlit("AXMoved");
    reveal_strlit("AXResized");
    reveal_strlit("AXValueChanged");
    reveal_strlit("AXTitleChanged");
    reveal_strlit("AXSelectedTextChanged");
    reveal_strlit("AXSelectedChildrenChanged");
    reveal_strlit("AXSelectedRowsChanged");
    reveal_strlit("AXSelectedColumnsChanged");
    reveal_strlit("AXSelectedCellsChanged");
    reveal_strlit("AXLayoutChanged");
    reveal_strlit("AXRowCountChanged");
    reveal_strlit("AXRowExpanded");
    reveal_strlit("AXRowCollapsed");
    reveal_strlit("AXMenuOpened");
    reveal_strlit("AXMenuClosed");
    reveal_strlit("AXMenuItemSelected");
    reveal_strlit("AXElementBusyChanged");
    reveal_strlit("AXAnnouncementRequested");
    reveal_strlit("AXDrawerCreated");
    reveal_strlit("AXSheetCreated");
    reveal_strlit("AXHelpTagCreated");
    reveal_strlit("AXUnitsChanged");
    reveal_with_fuel(text_lt, 15);
    assert(t.len() == 36);
    assert forall|i: int| 0 <= i < t.len() implies 0 <= #[trigger] rank[i] < t.len() && order[rank[i]] == i by {
        if i == 0 {} else if i == 1 {} else if i == 2 {} else if i == 3 {} else if i == 4 {}
        else if i == 5 {} else if i == 6 {} else if i == 7 {} else if i == 8 {} else if i == 9 {}
        else if i == 10 {} else if i == 11 {} else if i == 12 {} else if i == 13 {}
        else if i == 14 {} else if i == 15 {} else if i == 16 {} else if i == 17 {}
        else if i == 18 {} else if i == 19 {} else if i == 20 {} else if i == 21 {}
        else if i == 22 {} else if i == 23 {} else if i == 24 {} else if i == 25 {}
        else if i == 26 {} else if i == 27 {} else if i == 28 {} else if i == 29 {}
        else if i == 30 {} else if i == 31 {} else if i == 32 {} else if i == 33 {}
        else if i == 34 {} else if i == 35 {}
    }
    assert forall|k: int| 0 <= k < t.len() implies 0 <= #[trigger] order[k] < t.len() by {
        if k == 0 {} else if k == 1 {} else if k == 2 {} else if k == 3 {} else if k == 4 {}
        else if k == 5 {} else if k == 6 {} else if k == 7 {} else if k == 8 {} else if k == 9 {}
        else if k == 10 {} else if k == 11 {} else if k == 12 {} else if k == 13 {}
        else if k == 14 {} else if k == 15 {} else if k == 16 {} else if k == 17 {}
        else if k == 18 {} else if k == 19 {} else if k == 20 {} else if k == 21 {}
        else if k == 22 {} else if k == 23 {} else if k == 24 {} else if k == 25 {}
        else if k == 26 {} else if k == 27 {} else if k == 28 {} else if k == 29 {}
        else if k == 30 {} else if k == 31 {} else if k == 32 {} else if k == 33 {}
        else if k == 34 {} else if k == 35 {}
    }
    assert forall|k: int| 0 <= k < t.len() - 1 implies text_lt(
        #[trigger] t[order[k]].name@,
        t[order[k + 1]].name@,
    ) by {
        if k == 0 {} else if k == 1 {} else if k == 2 {} else if k == 3 {} else if k == 4 {}
        else if k == 5 {} else if k == 6 {} else if k == 7 {} else if k == 8 {} else if k == 9 {}
        else if k == 10 {} else if k == 11 {} else if k == 12 {} else if k == 13 {}
        else if k == 14 {} else if k == 15 {} else if k == 16 {} else if k == 17 {}
        else if k == 18 {} else if k == 19 {} else if k == 20 {} else if k == 21 {}
        else if k == 22 {} else if k == 23 {} else if k == 24 {} else if k == 25 {}
        else if k == 26 {} else if k == 27 {} else if k == 28 {} else if k == 29 {}
        else if k == 30 {} else if k == 31 {} else if k == 32 {} else if k == 33 {}
        else if k == 34 {}
    }
    lemma_sorted_names_distinct(t, order, rank);
}


/// No name occurs twice among the roles.
proof fn lemma_role_names_distinct()
    ensures
        names_distinct(known_roles_spec()),
{
    let t = known_roles_spec();
    let order: Seq<int> = seq![
        0, 19, 29, 8, 17, 10, 43, 15, 26, 45, 33, 48, 4, 51, 24, 5, 55, 46, 6, 28, 53, 54, 52, 57,
        23, 47, 39, 37, 38, 12, 40, 18, 11, 56, 30, 9, 22, 31, 16, 49, 50, 20, 21, 3, 27, 41, 42,
        36, 1, 13, 14, 35, 34, 44, 32, 7, 25, 58, 2,
    ];
    let rank: Seq<int> = seq![
        0, 48, 58, 43, 12, 15, 18, 55, 3, 35, 5, 32, 29, 49, 50, 7, 38, 4, 31, 1, 41, 42, 36, 24,
        14, 56, 8, 44, 19, 2, 34, 37, 54, 10, 52, 51, 47, 27, 28, 26, 30, 45, 46, 6, 53, 9, 17, 25,
        11, 39, 40, 13, 22, 20, 21, 16, 33, 23, 57,
    ];
    reveal_strlit("AXApplication");
    reveal_strlit("AXSystemWide");
    reveal_strlit("AXWindow");
    reveal_strlit("AXSheet");
    reveal_strlit("AXDrawer");
    reveal_strlit("AXGrowArea");
    reveal_strlit("AXImage");
    reveal_strlit("AXUnknown");
    reveal_strlit("AXButton");
    reveal_strlit("AXRadioButton");
    reveal_strlit("AXCheckBox");
    reveal_strlit("AXPopUpButton");
    reveal_strlit("AXMenuButton");
    reveal_strlit("AXTabGroup");
    reveal_strlit("AXTable");
    reveal_strlit("AXColumn");
    reveal_strlit("AXRow");
    reveal_strlit("AXCell");
    reveal_strlit("AXOutline");
    reveal_strlit("AXBrowser");
    reveal_strlit("AXScrollArea");
    reveal_strlit("AXScrollBar");
    reveal_strlit("AXRadioGroup");
    reveal_strlit("AXList");
    reveal_strlit("AXGroup");
    reveal_strlit("AXValueIndicator");
    reveal_strlit("AXComboBox");
    reveal_strlit("AXSlider");
    reveal_strlit("AXIncrementor");
    reveal_strlit("AXBusyIndicator");
    reveal_strlit("AXProgressIndicator");
    reveal_strlit("AXRelevanceIndicator");
    reveal_strlit("AXToolbar");
    reveal_strlit("AXDisclosureTriangle");
    reveal_strlit("AXTextField");
    reveal_strlit("AXTextArea");
    reveal_strlit("AXStaticText");
    reveal_strlit("AXMenuBar");
    reveal_strlit("AXMenuBarItem");
    reveal_strlit("AXMenu");
    reveal_strlit("AXMenuItem");
    reveal_strlit("AXSplitGroup");
    reveal_strlit("AXSplitter");
    reveal_strlit("AXColorWell");
    reveal_strlit("AXTimeField");
    reveal_strlit("AXDateField");
    reveal_strlit("AXHelpTag");
    reveal_strlit("AXMatte");
    reveal_strlit("AXDockItem");
    reveal_strlit("AXRuler");
    reveal_strlit("AXRulerMarker");
    reveal_strlit("AXGrid");
    reveal_strlit("AXLevelIndicator");
    reveal_strlit("AXLayoutArea");
    reveal_strlit("AXLayoutItem");
    reveal_strlit("AXHandle");
    reveal_strlit("AXPopover");
    reveal_strlit("AXLink");
    reveal_strlit("AXWebArea");
    reveal_with_fuel(text_lt, 11);
    assert(t.len() == 59);
    assert forall|i: int| 0 <= i < t.len() implies 0 <= #[trigger] rank[i] < t.len() && order[rank[i]] == i by {
        if i == 0 {} else if i == 1 {} else if i == 2 {} else if i == 3 {} else if i == 4 {}
        else if i == 5 {} else if i == 6 {} else if i == 7 {} else if i == 8 {} else if i == 9 {}
        else if i == 10 {} else if i == 11 {} else if i == 12 {} else if i == 13 {}
        else if i == 14 {} else if i == 15 {} else if i == 16 {} else if i == 17 {}
        else if i == 18 {} else if i == 19 {} else if i == 20 {} else if i == 21 {}
        else if i == 22 {} else if i == 23 {} else if i == 24 {} else if i == 25 {}
        else if i == 26 {} else if i == 27 {} else if i == 28 {} else if i == 29 {}
        else if i == 30 {} else if i == 31 {} else if i == 32 {} else if i == 33 {}
        else if i == 34 {} else if i == 35 {} else if i == 36 {} else if i == 37 {}
        else if i == 38 {} else if i == 39 {} else if i == 40 {} else if i == 41 {}
        else if i == 42 {} else if i == 43 {} else if i == 44 {} else if i == 45 {}
        else if i == 46 {} else if i == 47 {} else if i == 48 {} else if i == 49 {}
        else if i == 50 {} else if i == 51 {} else if i == 52 {} else if i == 53 {}
        else if i == 54 {} else if i == 55 {} else if i == 56 {} else if i == 57 {}
        else if i == 58 {}
    }
    assert forall|k: int| 0 <= k < t.len() implies 0 <= #[trigger] order[k] < t.len() by {
        if k == 0 {} else if k == 1 {} else if k == 2 {} else if k == 3 {} else if k == 4 {}
        else if k == 5 {} else if k == 6 {} else if k == 7 {} else if k == 8 {} else if k == 9 {}
        else if k == 10 {} else if k == 11 {} else if k == 12 {} else if k == 13 {}
        else if k == 14 {} else if k == 15 {} else if k == 16 {} else if k == 17 {}
        else if k == 18 {} else if k == 19 {} else if k == 20 {} else if k == 21 {}
        else if k == 22 {} else if k == 23 {} else if k == 24 {} else if k == 25 {}
        else if k == 26 {} else if k == 27 {} else if k == 28 {} else if k == 29 {}
        else if k == 30 {} else if k == 31 {} else if k == 32 {} else if k == 33 {}
        else if k == 34 {} else if k == 35 {} else if k == 36 {} else if k == 37 {}
        else if k == 38 {} else if k == 39 {} else if k == 40 {} else if k == 41 {}
        else if k == 42 {} else if k == 43 {} else if k == 44 {} else if k == 45 {}
        else if k == 46 {} else if k == 47 {} else if k == 48 {} else if k == 49 {}
        else if k == 50 {} else if k == 51 {} else if k == 52 {} else if k == 53 {}
        else if k == 54 {} else if k == 55 {} else if k == 56 {} else if k == 57 {}
        else if k == 58 {}
    }
    assert forall|k: int| 0 <= k < t.len() - 1 implies text_lt(
        #[trigger] t[order[k]].name@,
        t[order[k + 1]].name@,
    ) by {
        if k == 0 {} else if k == 1 {} else if k == 2 {} else if k == 3 {} else if k == 4 {}
        else if k == 5 {} else if k == 6 {} else if k == 7 {} else if k == 8 {} else if k == 9 {}
        else if k == 10 {} else if k == 11 {} else if k == 12 {} else if k == 13 {}
        else if k == 14 {} else if k == 15 {} else if k == 16 {} else if k == 17 {}
        else if k == 18 {} else if k == 19 {} else if k == 20 {} else if k == 21 {}
        else if k == 22 {} else if k == 23 {} else if k == 24 {} else if k == 25 {}
        else if k == 26 {} else if k == 27 {} else if k == 28 {} else if k == 29 {}
        else if k == 30 {} else if k == 31 {} else if k == 32 {} else if k == 33 {}
        else if k == 34 {} else if k == 35 {} else if k == 36 {} else if k == 37 {}
        else if k == 38 {} else if k == 39 {} else if k == 40 {} else if k == 41 {}
        else if k == 42 {} else if k == 43 {} else if k == 44 {} else if k == 45 {}
        else if k == 46 {} else if k == 47 {} else if k == 48 {} else if k == 49 {}
        else if k == 50 {} else if k == 51 {} else if k == 52 {} else if k == 53 {}
        else if k == 54 {} else if k == 55 {} else if k == 56 {} else if k == 57 {}
    }
    lemma_sorted_names_distinct(t, order, rank);
}


/// No name occurs twice among the subroles.
proof fn lemma_subrole_names_distinct()
    ensures
        names_distinct(known_subroles_spec()),
{
    let t = known_subroles_spec();
    let order: Seq<int> = seq![
        27, 0, 22, 15, 17, 23, 24, 10, 32, 28, 12, 29, 4, 14, 16, 1, 30, 7, 35, 21, 19, 5, 34, 18,
        9, 26, 11, 13, 36, 6, 20, 25, 3, 33, 31, 8, 2,
    ];
    let rank: Seq<int> = seq![
        1, 15, 36, 32, 12, 21, 29, 17, 35, 24, 7, 26, 10, 27, 13, 3, 14, 4, 23, 20, 30, 19, 2, 5, 6,
        31, 25, 0, 9, 11, 16, 34, 8, 33, 22, 18, 28,
    ];
    reveal_strlit("AXCloseButton");
    reveal_strlit("AXMinimizeButton");
    reveal_strlit("AXZoomButton");
    reveal_strlit("AXToolbarButton");
    reveal_strlit("AXFullScreenButton");
    reveal_strlit("AXSecureTextField");
    reveal_strlit("AXTableRow");
    reveal_strlit("AXOutlineRow");
    reveal_strlit("AXUnknown");
    reveal_strlit("AXStandardWindow");
    reveal_strlit("AXDialog");
    reveal_strlit("AXSystemDialog");
    reveal_strlit("AXFloatingWindow");
    reveal_strlit("AXSystemFloatingWindow");
    reveal_strlit("AXIncrementArrow");
    reveal_strlit("AXDecrementArrow");
    reveal_strlit("AXIncrementPage");
    reveal_strlit("AXDecrementPage");
    reveal_strlit("AXSortButton");
    reveal_strlit("AXSearchField");
    reveal_strlit("AXTimeline");
    reveal_strlit("AXRatingIndicator");
    reveal_strlit("AXContentList");
    reveal_strlit("AXDefinitionList");
    reveal_strlit("AXDescriptionList");
    reveal_strlit("AXToggle");
    reveal_strlit("AXSwitch");
    reveal_strlit("AXApplicationDockItem");
    reveal_strlit("AXDocumentDockItem");
    reveal_strlit("AXFolderDockItem");
    reveal_strlit("AXMinimizedWindowDockItem");
    reveal_strlit("AXURLDockItem");
    reveal_strlit("AXDockExtraDockItem");
    reveal_strlit("AXTrashDockItem");
    reveal_strlit("AXSeparatorDockItem");
    reveal_strlit("AXProcessSwitcherList");
    reveal_strlit("AXTab");
    reveal_with_fuel(text_lt, 13);
    assert(t.len() == 37);
    assert forall|i: int| 0 <= i < t.len() implies 0 <= #[trigger] rank[i] < t.len() && order[rank[i]] == i by {
        if i == 0 {} else if i == 1 {} else if i == 2 {} else if i == 3 {} else if i == 4 {}
        else if i == 5 {} else if i == 6 {} else if i == 7 {} else if i == 8 {} else if i == 9 {}
        else if i == 10 {} else if i == 11 {} else if i == 12 {} else if i == 13 {}
        else if i == 14 {} else if i == 15 {} else if i == 16 {} else if i == 17 {}
        else if i == 18 {} else if i == 19 {} else if i == 20 {} else if i == 21 {}
        else if i == 22 {} else if i == 23 {} else if i == 24 {} else if i == 25 {}
        else if i == 26 {} else if i == 27 {} else if i == 28 {} else if i == 29 {}
        else if i == 30 {} else if i == 31 {} else if i == 32 {} else if i == 33 {}
        else if i == 34 {} else if i == 35 {} else if i == 36 {}
    }
    assert forall|k: int| 0 <= k < t.len() implies 0 <= #[trigger] order[k] < t.len() by {
        if k == 0 {} else if k == 1 {} else if k == 2 {} else if k == 3 {} else if k == 4 {}
        else if k == 5 {} else if k == 6 {} else if k == 7 {} else if k == 8 {} else if k == 9 {}
        else if k == 10 {} else if k == 11 {} else if k == 12 {} else if k == 13 {}
        else if k == 14 {} else if k == 15 {} else if k == 16 {} else if k == 17 {}
        else if k == 18 {} else if k == 19 {} else if k == 20 {} else if k == 21 {}
        else if k == 22 {} else if k == 23 {} else if k == 24 {} else if k == 25 {}
        else if k == 26 {} else if k == 27 {} else if k == 28 {} else if k == 29 {}
        else if k == 30 {} else if k == 31 {} else if k == 32 {} else if k == 33 {}
        else if k == 34 {} else if k == 35 {} else if k == 36 {}
    }
    assert forall|k: int| 0 <= k < t.len() - 1 implies text_lt(
        #[trigger] t[order[k]].name@,
        t[order[k + 1]].name@,
    ) by {
        if k == 0 {} else if k == 1 {} else if k == 2 {} else if k == 3 {} else if k == 4 {}
        else if k == 5 {} else if k == 6 {} else if k == 7 {} else if k == 8 {} else if k == 9 {}
        else if k == 10 {} else if k == 11 {} else if k == 12 {} else if k == 13 {}
        else if k == 14 {} else if k == 15 {} else if k == 16 {} else if k == 17 {}
        else if k == 18 {} else if k == 19 {} else if k == 20 {} else if k == 21 {}
        else if k == 22 {} else if k == 23 {} else if k == 24 {} else if k == 25 {}
        else if k == 26 {} else if k == 27 {} else if k == 28 {} else if k == 29 {}
        else if k == 30 {} else if k == 31 {} else if k == 32 {} else if k == 33 {}
        else if k == 34 {} else if k == 35 {}
    }
    lemma_sorted_names_distinct(t, order, rank);
}


} // verus!
