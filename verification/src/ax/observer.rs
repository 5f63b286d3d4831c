//! Accessibility notifications: the event the tool reports, and which
//! notifications `ax watch` subscribes to.

use vstd::prelude::*;
use crate::error::AxError;
use crate::text::{i64_text, int_text, push_str, split_char, split_on, str_eq, trim, trim_seq, views};

verus! {

/// A notification received for an element.
#[derive(Debug, Clone, PartialEq, Eq)]
pub struct NotificationEvent {
    pub notification: String,
    pub element_role: String,
    pub element_title: Option<String>,
}

/// The notifications `ax watch` subscribes to by default.
pub open spec fn common_notification_names() -> Seq<Seq<char>> {
    seq![
        "AXFocusedUIElementChanged"@,
        "AXFocusedWindowChanged"@,
        "AXValueChanged"@,
        "AXTitleChanged"@,
        "AXWindowCreated"@,
        "AXWindowMoved"@,
        "AXWindowResized"@,
        "AXWindowMiniaturized"@,
        "AXWindowDeminiaturized"@,
        "AXUIElementDestroyed"@,
        "AXSelectedTextChanged"@,
        "AXSelectedChildrenChanged"@,
        "AXLayoutChanged"@,
        "AXMenuOpened"@,
        "AXMenuClosed"@,
        "AXApplicationActivated"@,
        "AXApplicationDeactivated"@,
        "AXApplicationHidden"@,
        "AXApplicationShown"@,
        "AXCreated"@,
        "AXMoved"@,
        "AXResized"@,
        "AXSelectedRowsChanged"@,
        "AXSelectedColumnsChanged"@,
        "AXRowCountChanged"@,
        "AXRowExpanded"@,
        "AXRowCollapsed"@,
        "AXElementBusyChanged"@,
    ]
}

/// The notifications `ax watch` subscribes to by default.
pub fn common_notifications() -> (r: Vec<String>)
    ensures
        views(r@) == common_notification_names(),
{
    let mut v: Vec<String> = Vec::new();
    v.push("AXFocusedUIElementChanged".to_string());
    v.push("AXFocusedWindowChanged".to_string());
    v.push("AXValueChanged".to_string());
    v.push("AXTitleChanged".to_string());
    v.push("AXWindowCreated".to_string());
    v.push("AXWindowMoved".to_string());
    v.push("AXWindowResized".to_string());
    v.push("AXWindowMiniaturized".to_string());
    v.push("AXWindowDeminiaturized".to_string());
    v.push("AXUIElementDestroyed".to_string());
    v.push("AXSelectedTextChanged".to_string());
    v.push("AXSelectedChildrenChanged".to_string());
    v.push("AXLayoutChanged".to_string());
    v.push("AXMenuOpened".to_string());
    v.push("AXMenuClosed".to_string());
    v.push("AXApplicationActivated".to_string());
    v.push("AXApplicationDeactivated".to_string());
    v.push("AXApplicationHidden".to_string());
    v.push("AXApplicationShown".to_string());
    v.push("AXCreated".to_string());
    v.push("AXMoved".to_string());
    v.push("AXResized".to_string());
    v.push("AXSelectedRowsChanged".to_string());
    v.push("AXSelectedColumnsChanged".to_string());
    v.push("AXRowCountChanged".to_string());
    v.push("AXRowExpanded".to_string());
    v.push("AXRowCollapsed".to_string());
    v.push("AXElementBusyChanged".to_string());
    assert(views(v@) =~= common_notification_names());
    v
}

/// The notifications named by the `--notification` argument: `all` for the
/// common set, otherwise a comma-separated list whose items are trimmed.
pub open spec fn notification_names_spec(arg: Seq<char>) -> Seq<Seq<char>> {
    if arg == "all"@ {
        common_notification_names()
    } else {
        split_on(arg, ',').map_values(|p: Seq<char>| trim_seq(p))
    }
}

/// The notifications named by the `--notification` argument.
pub fn notification_names(arg: &str) -> (r: Vec<String>)
    ensures
        views(r@) == notification_names_spec(arg@),
{
    if str_eq(arg, "all") {
        return common_notifications();
    }
    let parts = split_char(arg, ',');
    let mut out: Vec<String> = Vec::new();
    let mut i: usize = 0;
    while i < parts.len()
        invariant
            i <= parts@.len(),
            views(parts@) == split_on(arg@, ','),
            out@.len() == i,
            forall|k: int| 0 <= k < i ==> #[trigger] out@[k]@ == trim_seq(parts@[k]@),
        decreases parts.len() - i,
    {
        out.push(trim(parts[i].as_str()));
        i = i + 1;
    }
    assert forall|k: int| 0 <= k < out@.len() implies views(out@)[k] == notification_names_spec(
        arg@,
    )[k] by {
        assert(views(parts@)[k] == parts@[k]@);
    }
    assert(views(out@) =~= notification_names_spec(arg@));
    out
}

/// The event reported for a notification: an element without a role is
/// reported as `Unknown`.
pub fn notification_event(notification: String, role: Option<String>, title: Option<String>) -> (r:
    NotificationEvent)
    ensures
        r.notification == notification,
        r.element_role@ == match role {
            Some(x) => x@,
            None => "Unknown"@,
        },
        r.element_title == title,
{
    let element_role = match role {
        Some(x) => x,
        None => "Unknown".to_string(),
    };
    NotificationEvent { notification, element_role, element_title: title }
}

/// The error when no observer could be created for the application.
pub fn observer_create_error(code: i32) -> (r: AxError)
    ensures
        r matches AxError::ObserverError(m) && m@ == "Failed to create observer (code "@ + int_text(
            code as int,
        ) + ")"@,
{
    let mut m = "Failed to create observer (code ".to_string();
    let n = i64_text(code as i64);
    push_str(&mut m, n.as_str());
    push_str(&mut m, ")");
    AxError::ObserverError(m)
}

/// The warning printed for a notification that could not be registered.
pub fn registration_warning(notification: &str, code: i32) -> (r: String)
    ensures
        r@ == "Warning: Failed to add notification '"@ + notification@ + "' (code "@ + int_text(
            code as int,
        ) + ")"@,
{
    let mut m = "Warning: Failed to add notification '".to_string();
    push_str(&mut m, notification);
    push_str(&mut m, "' (code ");
    let n = i64_text(code as i64);
    push_str(&mut m, n.as_str());
    push_str(&mut m, ")");
    m
}

/// How many of the registration statuses report success (status 0).
pub open spec fn registered_count(statuses: Seq<i32>) -> nat
    decreases statuses.len(),
{
    if statuses.len() == 0 {
        0
    } else {
        registered_count(statuses.drop_last()) + if statuses.last() == 0 {
            1nat
        } else {
            0nat
        }
    }
}

/// The outcome of registering the notifications, from the status of each
/// registration: how many succeeded, or an error when none did.
pub fn registration_result(statuses: &Vec<i32>) -> (r: Result<usize, AxError>)
    ensures
        registered_count(statuses@) > 0 ==> r == Ok::<usize, AxError>(
            registered_count(statuses@) as usize,
        ),
        registered_count(statuses@) == 0 ==> (r matches Err(AxError::ObserverError(m)) && m@
            == "No notifications could be registered. Check notification names and app support."@),
{
    let mut registered: usize = 0;
    let mut i: usize = 0;
    while i < statuses.len()
        invariant
            i <= statuses@.len(),
            registered as nat == registered_count(statuses@.take(i as int)),
            registered <= i,
        decreases statuses.len() - i,
    {
        assert(statuses@.take(i + 1).drop_last() =~= statuses@.take(i as int));
        if statuses[i] == 0 {
            registered = registered + 1;
        }
        i = i + 1;
    }
    assert(statuses@.take(statuses@.len() as int) =~= statuses@);
    if registered == 0 {
        return Err(
            AxError::ObserverError(
                "No notifications could be registered. Check notification names and app support.".to_string(),
            ),
        );
    }
    Ok(registered)
}

} // verus!
