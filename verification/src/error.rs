//! The one error type of the tools.

use vstd::prelude::*;
use crate::text::joined;

verus! {

/// What can go wrong in a tool. Failures of reading and writing carry the
/// text of the error that the system reported.
#[derive(Debug)]
pub enum ToolError {
    FileNotFound(String),
    PermissionDenied(String),
    Io(String),
    InvalidPath(String),
    CommandFailed(String),
    CommandTimeout,
    InvalidArguments(String),
    PatternError(String),
    Http(String),
    InvalidUrl(String),
    Network(String),
    Other(String),
}

/// A tool error over character sequences.
pub enum ToolErrorView {
    FileNotFound(Seq<char>),
    PermissionDenied(Seq<char>),
    Io(Seq<char>),
    InvalidPath(Seq<char>),
    CommandFailed(Seq<char>),
    CommandTimeout,
    InvalidArguments(Seq<char>),
    PatternError(Seq<char>),
    Http(Seq<char>),
    InvalidUrl(Seq<char>),
    Network(Seq<char>),
    Other(Seq<char>),
}

impl ToolErrorView {
    /// The text that describes the error.
    pub open spec fn message(self) -> Seq<char> {
        match self {
            ToolErrorView::FileNotFound(s) => "File not found: "@ + s,
            ToolErrorView::PermissionDenied(s) => "Permission denied: "@ + s,
            ToolErrorView::Io(s) => "IO error: "@ + s,
            ToolErrorView::InvalidPath(s) => "Invalid path: "@ + s,
            ToolErrorView::CommandFailed(s) => "Command failed: "@ + s,
            ToolErrorView::CommandTimeout => "Command timeout"@,
            ToolErrorView::InvalidArguments(s) => "Invalid arguments: "@ + s,
            ToolErrorView::PatternError(s) => "Pattern error: "@ + s,
            ToolErrorView::Http(s) => "HTTP error: "@ + s,
            ToolErrorView::InvalidUrl(s) => "Invalid URL: "@ + s,
            ToolErrorView::Network(s) => "Network error: "@ + s,
            ToolErrorView::Other(s) => s,
        }
    }
}

impl View for ToolError {
    type V = ToolErrorView;

    open spec fn view(&self) -> ToolErrorView {
        match self {
            ToolError::FileNotFound(s) => ToolErrorView::FileNotFound(s@),
            ToolError::PermissionDenied(s) => ToolErrorView::PermissionDenied(s@),
            ToolError::Io(s) => ToolErrorView::Io(s@),
            ToolError::InvalidPath(s) => ToolErrorView::InvalidPath(s@),
            ToolError::CommandFailed(s) => ToolErrorView::CommandFailed(s@),
            ToolError::CommandTimeout => ToolErrorView::CommandTimeout,
            ToolError::InvalidArguments(s) => ToolErrorView::InvalidArguments(s@),
            ToolError::PatternError(s) => ToolErrorView::PatternError(s@),
            ToolError::Http(s) => ToolErrorView::Http(s@),
            ToolError::InvalidUrl(s) => ToolErrorView::InvalidUrl(s@),
            ToolError::Network(s) => ToolErrorView::Network(s@),
            ToolError::Other(s) => ToolErrorView::Other(s@),
        }
    }
}

impl ToolError {
    /// The error for a file that is not there.
    pub fn file_not_found(path: &str) -> (e: Self)
        ensures
            e@ == ToolErrorView::FileNotFound(path@),
    {
        ToolError::FileNotFound(path.to_owned())
    }

    /// The error for a path that may not be touched.
    pub fn permission_denied(path: &str) -> (e: Self)
        ensures
            e@ == ToolErrorView::PermissionDenied(path@),
    {
        ToolError::PermissionDenied(path.to_owned())
    }

    /// The error for a failure of reading or writing.
    pub fn io(msg: &str) -> (e: Self)
        ensures
            e@ == ToolErrorView::Io(msg@),
    {
        ToolError::Io(msg.to_owned())
    }

    /// The error for a path that cannot be used.
    pub fn invalid_path(path: &str) -> (e: Self)
        ensures
            e@ == ToolErrorView::InvalidPath(path@),
    {
        ToolError::InvalidPath(path.to_owned())
    }

    /// The error for a command that failed.
    pub fn command_failed(msg: &str) -> (e: Self)
        ensures
            e@ == ToolErrorView::CommandFailed(msg@),
    {
        ToolError::CommandFailed(msg.to_owned())
    }

    /// The error for arguments that cannot be used.
    pub fn invalid_arguments(msg: &str) -> (e: Self)
        ensures
            e@ == ToolErrorView::InvalidArguments(msg@),
    {
        ToolError::InvalidArguments(msg.to_owned())
    }

    /// The error for a pattern that cannot be read.
    pub fn pattern_error(msg: &str) -> (e: Self)
        ensures
            e@ == ToolErrorView::PatternError(msg@),
    {
        ToolError::PatternError(msg.to_owned())
    }

    /// The error for an answer of a server that is no success.
    pub fn http_error(msg: &str) -> (e: Self)
        ensures
            e@ == ToolErrorView::Http(msg@),
    {
        ToolError::Http(msg.to_owned())
    }

    /// The error for an address that cannot be used.
    pub fn invalid_url(msg: &str) -> (e: Self)
        ensures
            e@ == ToolErrorView::InvalidUrl(msg@),
    {
        ToolError::InvalidUrl(msg.to_owned())
    }

    /// The error for a failure of the network.
    pub fn network_error(msg: &str) -> (e: Self)
        ensures
            e@ == ToolErrorView::Network(msg@),
    {
        ToolError::Network(msg.to_owned())
    }

    /// Any other error, with its text.
    pub fn other(msg: &str) -> (e: Self)
        ensures
            e@ == ToolErrorView::Other(msg@),
    {
        ToolError::Other(msg.to_owned())
    }

    /// The text that describes the error.
    pub fn message(&self) -> (r: String)
        ensures
            r@ == self@.message(),
    {
        match self {
            ToolError::FileNotFound(s) => joined("File not found: ", s.as_str()),
            ToolError::PermissionDenied(s) => joined("Permission denied: ", s.as_str()),
            ToolError::Io(s) => joined("IO error: ", s.as_str()),
            ToolError::InvalidPath(s) => joined("Invalid path: ", s.as_str()),
            ToolError::CommandFailed(s) => joined("Command failed: ", s.as_str()),
            ToolError::CommandTimeout => "Command timeout".to_owned(),
            ToolError::InvalidArguments(s) => joined("Invalid arguments: ", s.as_str()),
            ToolError::PatternError(s) => joined("Pattern error: ", s.as_str()),
            ToolError::Http(s) => joined("HTTP error: ", s.as_str()),
            ToolError::InvalidUrl(s) => joined("Invalid URL: ", s.as_str()),
            ToolError::Network(s) => joined("Network error: ", s.as_str()),
            ToolError::Other(s) => s.clone(),
        }
    }
}

} // verus!
