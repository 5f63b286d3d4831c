//! The error vocabulary of the tool, its messages and its exit codes.

use vstd::prelude::*;
use crate::text::{i64_text, int_text, push_str};

verus! {

/// Everything that can go wrong while talking to the accessibility API,
/// capturing the screen or reading arguments.
#[derive(Debug, Clone, PartialEq, Eq)]
pub enum AxError {
    AccessibilityNotTrusted,
    ScreenCaptureNotTrusted,
    AppNotFound(String),
    ElementNotFound,
    AttributeError { name: String, message: String },
    ActionFailed { action: String, message: String },
    SetAttributeError { attribute: String, message: String },
    InvalidArgument(String),
    InvalidScreenshotTarget(String),
    ObserverError(String),
    ScreenshotUnavailable(String),
    Timeout(String),
    AXError { code: i32, message: String },
}

pub type Result<T> = std::result::Result<T, AxError>;

/// The description of an accessibility API status code.
pub open spec fn ax_error_text(code: i32) -> Seq<char> {
    if code == 0 {
        "Success"@
    } else if code == -25200 {
        "API disabled"@
    } else if code == -25201 {
        "Invalid UI element"@
    } else if code == -25202 {
        "Invalid UI element observer"@
    } else if code == -25203 {
        "Cannot complete"@
    } else if code == -25204 {
        "Attribute unsupported"@
    } else if code == -25205 {
        "Action unsupported"@
    } else if code == -25206 {
        "Notification unsupported"@
    } else if code == -25207 {
        "Not implemented"@
    } else if code == -25208 {
        "Notification already registered"@
    } else if code == -25209 {
        "Notification not registered"@
    } else if code == -25210 {
        "Not enough precision"@
    } else if code == -25211 {
        "Illegal argument"@
    } else if code == -25212 {
        "No value"@
    } else if code == -25213 {
        "Parameterized attribute unsupported"@
    } else if code == -25214 {
        "Not enough precision"@
    } else {
        "Unknown error ("@ + int_text(code as int) + ")"@
    }
}

/// The description of an accessibility API status code.
pub fn ax_error_message(code: i32) -> (r: String)
    ensures
        r@ == ax_error_text(code),
{
    if code == 0 {
        "Success".to_string()
    } else if code == -25200 {
        "API disabled".to_string()
    } else if code == -25201 {
        "Invalid UI element".to_string()
    } else if code == -25202 {
        "Invalid UI element observer".to_string()
    } else if code == -25203 {
        "Cannot complete".to_string()
    } else if code == -25204 {
        "Attribute unsupported".to_string()
    } else if code == -25205 {
        "Action unsupported".to_string()
    } else if code == -25206 {
        "Notification unsupported".to_string()
    } else if code == -25207 {
        "Not implemented".to_string()
    } else if code == -25208 {
        "Notification already registered".to_string()
    } else if code == -25209 {
        "Notification not registered".to_string()
    } else if code == -25210 {
        "Not enough precision".to_string()
    } else if code == -25211 {
        "Illegal argument".to_string()
    } else if code == -25212 {
        "No value".to_string()
    } else if code == -25213 {
        "Parameterized attribute unsupported".to_string()
    } else if code == -25214 {
        "Not enough precision".to_string()
    } else {
        let mut r = "Unknown error (".to_string();
        let n = i64_text(code as i64);
        push_str(&mut r, n.as_str());
        push_str(&mut r, ")");
        r
    }
}

/// The text of an error, as the tool prints it after `Error: `.
pub open spec fn error_text(e: AxError) -> Seq<char> {
    match e {
        AxError::AccessibilityNotTrusted => "Accessibility permission not granted. Enable it in System Settings > Privacy & Security > Accessibility"@,
        AxError::ScreenCaptureNotTrusted => "Screen Recording permission not granted. Enable it in System Settings > Privacy & Security > Screen & System Audio Recording"@,
        AxError::AppNotFound(s) => "Application not found: "@ + s@,
        AxError::ElementNotFound => "No element found at the specified target"@,
        AxError::AttributeError { name, message } => "Attribute error for '"@ + name@ + "': "@
            + message@,
        AxError::ActionFailed { action, message } => "Action failed: "@ + action@ + " — "@
            + message@,
        AxError::SetAttributeError { attribute, message } => "Cannot set attribute '"@
            + attribute@ + "': "@ + message@,
        AxError::InvalidArgument(s) => "Invalid argument: "@ + s@,
        AxError::InvalidScreenshotTarget(s) => "Invalid screenshot target: "@ + s@,
        AxError::ObserverError(s) => "Observer error: "@ + s@,
        AxError::ScreenshotUnavailable(s) => "Screenshot unavailable: "@ + s@,
        AxError::Timeout(s) => "Timed out: "@ + s@,
        AxError::AXError { code, message } => "AX API error (code "@ + int_text(code as int)
            + "): "@ + message@,
    }
}

/// `e` is an invalid-argument error with the message `msg`.
pub open spec fn is_invalid_argument(e: AxError, msg: Seq<char>) -> bool {
    e matches AxError::InvalidArgument(m) && m@ == msg
}

/// Concatenation of a literal prefix and a string.
fn prefixed(prefix: &str, s: &String) -> (r: String)
    ensures
        r@ == prefix@ + s@,
{
    let mut r = prefix.to_string();
    push_str(&mut r, s.as_str());
    r
}

/// The process exit status for an error.
pub open spec fn exit_status(e: AxError) -> i32 {
    match e {
        AxError::AccessibilityNotTrusted => 1,
        AxError::AppNotFound(_) => 2,
        AxError::ElementNotFound => 3,
        AxError::ActionFailed { .. } => 4,
        AxError::SetAttributeError { .. } => 6,
        AxError::ScreenCaptureNotTrusted => 7,
        _ => 5,
    }
}

impl AxError {
    /// An error for an accessibility API status code.
    pub fn from_ax_code(code: i32) -> (r: AxError)
        ensures
            r matches AxError::AXError { code: c, message } && c == code && message@
                == ax_error_text(code),
    {
        AxError::AXError { code, message: ax_error_message(code) }
    }

    /// An attribute error for a status code, naming what was being read.
    pub fn from_ax_code_with_context(code: i32, context: &str) -> (r: AxError)
        ensures
            r matches AxError::AttributeError { name, message } && name@ == context@ && message@
                == ax_error_text(code),
    {
        AxError::AttributeError { name: context.to_string(), message: ax_error_message(code) }
    }

    /// The text of the error (what the tool prints after `Error: `).
    pub fn message(&self) -> (r: String)
        ensures
            r@ == error_text(*self),
    {
        match self {
            AxError::AccessibilityNotTrusted => "Accessibility permission not granted. Enable it in System Settings > Privacy & Security > Accessibility".to_string(),
            AxError::ScreenCaptureNotTrusted => "Screen Recording permission not granted. Enable it in System Settings > Privacy & Security > Screen & System Audio Recording".to_string(),
            AxError::AppNotFound(s) => prefixed("Application not found: ", s),
            AxError::ElementNotFound => "No element found at the specified target".to_string(),
            AxError::AttributeError { name, message } => {
                let mut r = prefixed("Attribute error for '", name);
                push_str(&mut r, "': ");
                push_str(&mut r, message.as_str());
                r
            },
            AxError::ActionFailed { action, message } => {
                let mut r = prefixed("Action failed: ", action);
                push_str(&mut r, " — ");
                push_str(&mut r, message.as_str());
                r
            },
            AxError::SetAttributeError { attribute, message } => {
                let mut r = prefixed("Cannot set attribute '", attribute);
                push_str(&mut r, "': ");
                push_str(&mut r, message.as_str());
                r
            },
            AxError::InvalidArgument(s) => prefixed("Invalid argument: ", s),
            AxError::InvalidScreenshotTarget(s) => prefixed("Invalid screenshot target: ", s),
            AxError::ObserverError(s) => prefixed("Observer error: ", s),
            AxError::ScreenshotUnavailable(s) => prefixed("Screenshot unavailable: ", s),
            AxError::Timeout(s) => prefixed("Timed out: ", s),
            AxError::AXError { code, message } => {
                let mut r = "AX API error (code ".to_string();
                let n = i64_text(*code as i64);
                push_str(&mut r, n.as_str());
                push_str(&mut r, "): ");
                push_str(&mut r, message.as_str());
                r
            },
        }
    }

    /// The process exit status the tool uses when it stops on this error.
    pub fn exit_code(&self) -> (r: i32)
        ensures
            r == exit_status(*self),
    {
        match self {
            AxError::AccessibilityNotTrusted => 1,
            AxError::AppNotFound(_) => 2,
            AxError::ElementNotFound => 3,
            AxError::ActionFailed { .. } => 4,
            AxError::SetAttributeError { .. } => 6,
            AxError::ScreenCaptureNotTrusted => 7,
            _ => 5,
        }
    }
}

} // verus!
