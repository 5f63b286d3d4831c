//! Actions an element supports.

use vstd::prelude::*;
use crate::error::{ax_error_message, ax_error_text, AxError};

verus! {

/// An action an element supports, with its description.
#[derive(Debug, Clone, PartialEq, Eq)]
pub struct ActionInfo {
    pub name: String,
    pub description: String,
}

/// An action as listed: a description the API could not give is empty.
pub fn action_info(name: String, description: Option<String>) -> (r: ActionInfo)
    ensures
        r.name == name,
        r.description@ == match description {
            Some(d) => d@,
            None => Seq::<char>::empty(),
        },
{
    let description = match description {
        Some(d) => d,
        None => String::new(),
    };
    ActionInfo { name, description }
}

/// The outcome of performing an action, from the status the accessibility
/// API reported (status 0 is success).
pub fn perform_action(action_name: &str, status: i32) -> (r: Result<(), AxError>)
    ensures
        status == 0 ==> r is Ok,
        status != 0 ==> (r matches Err(AxError::ActionFailed { action, message }) && action@
            == action_name@ && message@ == ax_error_text(status)),
{
    if status != 0 {
        return Err(AxError::ActionFailed { action: action_name.to_string(), message: ax_error_message(status) });
    }
    Ok(())
}

} // verus!
