//! Errors of the browser session and its tools.

use vstd::prelude::*;

verus! {

/// What can go wrong while driving the browser or running a tool.
pub enum BrowserError {
    LaunchFailed(String),
    ConnectionFailed(String),
    NavigationFailed(String),
    TabOperationFailed(String),
    ElementNotFound(String),
    EvaluationFailed(String),
    InvalidArgument(String),
    Timeout(String),
    ToolExecutionFailed { tool: String, reason: String },
    Io(String),
}

/// An error with its text taken by view.
pub enum BrowserErrorView {
    LaunchFailed(Seq<char>),
    ConnectionFailed(Seq<char>),
    NavigationFailed(Seq<char>),
    TabOperationFailed(Seq<char>),
    ElementNotFound(Seq<char>),
    EvaluationFailed(Seq<char>),
    InvalidArgument(Seq<char>),
    Timeout(Seq<char>),
    ToolExecutionFailed { tool: Seq<char>, reason: Seq<char> },
    Io(Seq<char>),
}

impl View for BrowserError {
    type V = BrowserErrorView;

    open spec fn view(&self) -> BrowserErrorView {
        match self {
            BrowserError::LaunchFailed(m) => BrowserErrorView::LaunchFailed(m@),
            BrowserError::ConnectionFailed(m) => BrowserErrorView::ConnectionFailed(m@),
            BrowserError::NavigationFailed(m) => BrowserErrorView::NavigationFailed(m@),
            BrowserError::TabOperationFailed(m) => BrowserErrorView::TabOperationFailed(m@),
            BrowserError::ElementNotFound(m) => BrowserErrorView::ElementNotFound(m@),
            BrowserError::EvaluationFailed(m) => BrowserErrorView::EvaluationFailed(m@),
            BrowserError::InvalidArgument(m) => BrowserErrorView::InvalidArgument(m@),
            BrowserError::Timeout(m) => BrowserErrorView::Timeout(m@),
            BrowserError::ToolExecutionFailed { tool, reason } => BrowserErrorView::ToolExecutionFailed {
                tool: tool@,
                reason: reason@,
            },
            BrowserError::Io(m) => BrowserErrorView::Io(m@),
        }
    }
}

/// The text an error is shown with.
pub open spec fn error_message(e: BrowserErrorView) -> Seq<char> {
    match e {
        BrowserErrorView::LaunchFailed(m) => "Failed to launch browser: "@ + m,
        BrowserErrorView::ConnectionFailed(m) => "Failed to connect to browser: "@ + m,
        BrowserErrorView::NavigationFailed(m) => "Navigation failed: "@ + m,
        BrowserErrorView::TabOperationFailed(m) => "Tab operation failed: "@ + m,
        BrowserErrorView::ElementNotFound(m) => "Element not found: "@ + m,
        BrowserErrorView::EvaluationFailed(m) => "JavaScript evaluation failed: "@ + m,
        BrowserErrorView::InvalidArgument(m) => "Invalid argument: "@ + m,
        BrowserErrorView::Timeout(m) => "Operation timed out: "@ + m,
        BrowserErrorView::ToolExecutionFailed { tool, reason } => "Tool '"@ + tool
            + "' execution failed: "@ + reason,
        BrowserErrorView::Io(m) => "IO error: "@ + m,
    }
}

/// Prefixes `text` with `prefix` into a new `String`.
fn prefixed(prefix: &str, text: &String) -> (res: String)
    ensures
        res@ == prefix@ + text@,
{
    let mut s = prefix.to_owned();
    s.append(text.as_str());
    s
}

impl BrowserError {
    /// The text this error is shown with (see `error_message`).
    pub fn message(&self) -> (res: String)
        ensures
            res@ == error_message(self@),
    {
        match self {
            BrowserError::LaunchFailed(m) => prefixed("Failed to launch browser: ", m),
            BrowserError::ConnectionFailed(m) => prefixed("Failed to connect to browser: ", m),
            BrowserError::NavigationFailed(m) => prefixed("Navigation failed: ", m),
            BrowserError::TabOperationFailed(m) => prefixed("Tab operation failed: ", m),
            BrowserError::ElementNotFound(m) => prefixed("Element not found: ", m),
            BrowserError::EvaluationFailed(m) => prefixed("JavaScript evaluation failed: ", m),
            BrowserError::InvalidArgument(m) => prefixed("Invalid argument: ", m),
            BrowserError::Timeout(m) => prefixed("Operation timed out: ", m),
            BrowserError::ToolExecutionFailed { tool, reason } => {
                let mut s = prefixed("Tool '", tool);
                s.append("' execution failed: ");
                s.append(reason.as_str());
                s
            },
            BrowserError::Io(m) => prefixed("IO error: ", m),
        }
    }
}

} // verus!
