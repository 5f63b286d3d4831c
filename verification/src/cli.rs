//! The command-line arguments of each command, as plain values. The parser
//! that fills them lives with the binary.

use vstd::prelude::*;

verus! {

/// Encoded image format of a screenshot.
#[derive(Debug, Clone, Copy, PartialEq, Eq)]
pub enum ScreenshotImageFormat {
    Png,
    Jpeg,
}

/// The name of an image format.
pub open spec fn image_format_name(f: ScreenshotImageFormat) -> Seq<char> {
    match f {
        ScreenshotImageFormat::Png => "png"@,
        ScreenshotImageFormat::Jpeg => "jpeg"@,
    }
}

impl ScreenshotImageFormat {
    /// The name of the format.
    pub fn as_str(self) -> (r: &'static str)
        ensures
            r@ == image_format_name(self),
    {
        match self {
            ScreenshotImageFormat::Png => "png",
            ScreenshotImageFormat::Jpeg => "jpeg",
        }
    }
}

/// Sort key of `ax list`.
#[derive(Debug, Clone, Copy, PartialEq, Eq)]
pub enum ListSortField {
    Name,
    Pid,
    Bundle,
    Visible,
    Focused,
}

/// Condition of `ax wait`.
#[derive(Debug, Clone, Copy, PartialEq, Eq)]
pub enum WaitCondition {
    Exists,
    Gone,
    Focused,
    Attribute,
}

/// Arguments of `ax list`.
#[derive(Debug, Clone, PartialEq, Eq)]
pub struct ListArgs {
    pub long: bool,
    pub no_header: bool,
    pub sort: Option<ListSortField>,
    pub reverse: bool,
    pub filter: Option<String>,
    pub name: Option<String>,
    pub bundle: Option<String>,
    pub visible: bool,
    pub hidden: bool,
    pub focused: bool,
    pub not_focused: bool,
}

/// Application selection: by name or by process ID.
#[derive(Debug, Clone, PartialEq, Eq)]
pub struct TargetArgs {
    pub app: Option<String>,
    pub pid: Option<i32>,
}

/// Element selection within an application.
#[derive(Debug, Clone, PartialEq, Eq)]
pub struct ElementTargetArgs {
    pub target: TargetArgs,
    pub focused: bool,
    pub point: Option<String>,
    pub identifier: Option<String>,
    pub path: Option<String>,
}

/// Arguments of `ax inspect`.
#[derive(Debug, Clone, PartialEq, Eq)]
pub struct InspectArgs {
    pub element: ElementTargetArgs,
}

/// Arguments of `ax tree`.
#[derive(Debug, Clone, PartialEq, Eq)]
pub struct TreeArgs {
    pub target: TargetArgs,
    pub depth: usize,
    pub filter: Option<String>,
    pub extras: bool,
    pub visible: bool,
    pub show_paths: bool,
}

/// The root of a `find` search.
#[derive(Debug, Clone, PartialEq, Eq)]
pub struct FindRootArgs {
    pub target: TargetArgs,
    pub focused: bool,
    pub point: Option<String>,
    pub within_identifier: Option<String>,
    pub within_path: Option<String>,
}

/// Arguments of `ax find`.
#[derive(Debug, Clone, PartialEq, Eq)]
pub struct FindArgs {
    pub root: FindRootArgs,
    pub depth: usize,
    pub role: Option<String>,
    pub subrole: Option<String>,
    pub title: Option<String>,
    pub value: Option<String>,
    pub description: Option<String>,
    pub identifier: Option<String>,
    pub text: Option<String>,
    pub url: Option<String>,
    pub extras: bool,
    pub visible: bool,
    pub show_paths: bool,
    pub limit: Option<usize>,
}

/// Arguments of `ax children`.
#[derive(Debug, Clone, PartialEq, Eq)]
pub struct ChildrenArgs {
    pub element: ElementTargetArgs,
    pub extras: bool,
    pub show_paths: bool,
}

/// Arguments of `ax windows`.
#[derive(Debug, Clone, PartialEq, Eq)]
pub struct WindowsArgs {
    pub target: TargetArgs,
    pub show_paths: bool,
}

/// Arguments of `ax resolve`.
#[derive(Debug, Clone, PartialEq, Eq)]
pub struct ResolveArgs {
    pub element: ElementTargetArgs,
}

/// Arguments of `ax attrs`.
#[derive(Debug, Clone, PartialEq, Eq)]
pub struct AttrsArgs {
    pub element: ElementTargetArgs,
}

/// Arguments of `ax action`.
#[derive(Debug, Clone, PartialEq, Eq)]
pub struct ActionArgs {
    pub action: String,
    pub element: ElementTargetArgs,
}

/// Arguments of `ax watch`.
#[derive(Debug, Clone, PartialEq, Eq)]
pub struct WatchArgs {
    pub target: TargetArgs,
    pub notification: String,
}

/// Arguments of `ax discover`.
#[derive(Debug, Clone, PartialEq, Eq)]
pub struct DiscoverArgs {
    pub category: String,
    pub search: Option<String>,
}

/// Arguments of `ax supported`.
#[derive(Debug, Clone, PartialEq, Eq)]
pub struct SupportedArgs {
    pub element: ElementTargetArgs,
}

/// Arguments of `ax pattrs`.
#[derive(Debug, Clone, PartialEq, Eq)]
pub struct PattrsArgs {
    pub element: ElementTargetArgs,
}

/// Arguments of `ax pget`.
#[derive(Debug, Clone, PartialEq, Eq)]
pub struct PgetArgs {
    pub attribute: String,
    pub element: ElementTargetArgs,
    pub index: Option<i64>,
    pub range: Option<String>,
    pub param_point: Option<String>,
    pub col_row: Option<String>,
}

/// Arguments of `ax get`.
#[derive(Debug, Clone, PartialEq, Eq)]
pub struct GetArgs {
    pub attribute: String,
    pub element: ElementTargetArgs,
}

/// Arguments of `ax set`.
#[derive(Debug, Clone, PartialEq, Eq)]
pub struct SetArgs {
    pub attribute: String,
    pub value: String,
    pub value_type: String,
    pub element: ElementTargetArgs,
    pub force: bool,
}

/// Arguments of `ax click`.
#[derive(Debug, Clone, PartialEq, Eq)]
pub struct ClickArgs {
    pub element: ElementTargetArgs,
}

/// Arguments of `ax focus`.
#[derive(Debug, Clone, PartialEq, Eq)]
pub struct FocusArgs {
    pub element: ElementTargetArgs,
}

/// Arguments of `ax type`.
#[derive(Debug, Clone, PartialEq, Eq)]
pub struct TypeArgs {
    pub text: String,
    pub element: ElementTargetArgs,
}

/// Arguments of `ax snapshot`.
#[derive(Debug, Clone, PartialEq, Eq)]
pub struct SnapshotArgs {
    pub element: ElementTargetArgs,
    pub depth: usize,
    pub extras: bool,
    pub visible: bool,
    pub out: Option<String>,
}

/// Arguments of `ax diff`.
#[derive(Debug, Clone, PartialEq, Eq)]
pub struct DiffArgs {
    pub baseline: String,
    pub current: Option<String>,
    pub element: ElementTargetArgs,
    pub depth: usize,
    pub extras: bool,
    pub visible: bool,
}

/// Arguments of `ax screenshot`.
#[derive(Debug, Clone, PartialEq, Eq)]
pub struct ScreenshotArgs {
    pub element: ElementTargetArgs,
    pub rect: Option<String>,
    pub image_format: ScreenshotImageFormat,
    pub out: Option<String>,
    pub base64: bool,
}

/// A command of the tool, without its arguments.
#[derive(Debug, Clone, Copy, PartialEq, Eq)]
pub enum CommandKind {
    List,
    Inspect,
    Tree,
    Find,
    Children,
    Windows,
    Resolve,
    Wait,
    Attrs,
    Action,
    Watch,
    ElementAt,
    Discover,
    Supported,
    Pattrs,
    Pget,
    Get,
    SetAttribute,
    Click,
    Focus,
    Type,
    Snapshot,
    Diff,
    Screenshot,
}

/// Whether a command talks to other applications through the accessibility
/// API: all but `list` and `discover`, and `screenshot` unless it captures a
/// given rectangle.
pub open spec fn needs_accessibility(kind: CommandKind, screenshot_has_rect: bool) -> bool {
    match kind {
        CommandKind::List | CommandKind::Discover => false,
        CommandKind::Screenshot => !screenshot_has_rect,
        _ => true,
    }
}

/// Whether the accessibility permission must be checked before running the
/// command; `screenshot_has_rect` tells whether a `screenshot` was given
/// `--rect`.
pub fn command_needs_accessibility(kind: CommandKind, screenshot_has_rect: bool) -> (r: bool)
    ensures
        r == needs_accessibility(kind, screenshot_has_rect),
{
    match kind {
        CommandKind::List | CommandKind::Discover => false,
        CommandKind::Screenshot => !screenshot_has_rect,
        _ => true,
    }
}

/// Whether the screen-recording permission must be checked before running
/// the command: only `screenshot` captures the screen.
pub fn command_needs_screen_capture(kind: CommandKind) -> (r: bool)
    ensures
        r == (kind == CommandKind::Screenshot),
{
    match kind {
        CommandKind::Screenshot => true,
        _ => false,
    }
}

} // verus!
