//! The launcher's error taxonomy and the single-line messages it reports.
use vstd::prelude::*;

use crate::resolver::supported_list;
use crate::resolver::supported_list_string;

verus! {

/// Everything that can end an invocation early. Every variant is terminal:
/// nothing is retried.
#[derive(Debug)]
pub enum LaunchError {
    /// A local input did not canonicalize to an existing entry.
    PathNotFound { path: String },
    /// A local input exists but is neither a regular file nor a directory.
    UnsupportedPathType { path: String },
    /// A local input is a regular file without a supported media extension.
    UnsupportedFileType { path: String, ext: Option<String> },
    /// A required external tool is absent from the search path.
    MissingDependency { name: String },
    /// The terminal emulator's application bundle is not installed.
    EmulatorNotInstalled { path: String },
    /// A workspace or file operation failed.
    IoError { detail: String },
    /// The OS reported a non-success status for the emulator launch.
    LaunchFailed,
}

/// The single line reported for an error, prefixed with the program name.
pub open spec fn message_spec(e: LaunchError) -> Seq<char> {
    match e {
        LaunchError::PathNotFound { path } => "arliamp: path not found: "@ + path@,
        LaunchError::UnsupportedPathType { path } => "arliamp: unsupported path type: "@ + path@,
        LaunchError::UnsupportedFileType { path, ext: _ } => "arliamp: unsupported file type: "@
            + path@ + " (supported: "@ + supported_list() + ")"@,
        LaunchError::MissingDependency { name } => "arliamp: missing dependency: "@ + name@,
        LaunchError::EmulatorNotInstalled { path } => "arliamp: Ghostty not found at "@ + path@,
        LaunchError::IoError { detail } => "arliamp: "@ + detail@,
        LaunchError::LaunchFailed => "arliamp: failed to launch Ghostty"@,
    }
}

impl LaunchError {
    /// Renders the error as the line printed to standard error.
    pub fn message(&self) -> (r: String)
        ensures
            r@ == message_spec(*self),
    {
        match self {
            LaunchError::PathNotFound { path } => {
                let mut s = String::from_str("arliamp: path not found: ");
                s.append(path.as_str());
                s
            },
            LaunchError::UnsupportedPathType { path } => {
                let mut s = String::from_str("arliamp: unsupported path type: ");
                s.append(path.as_str());
                s
            },
            LaunchError::UnsupportedFileType { path, ext: _ } => {
                let mut s = String::from_str("arliamp: unsupported file type: ");
                s.append(path.as_str());
                s.append(" (supported: ");
                let list = supported_list_string();
                s.append(list.as_str());
                s.append(")");
                proof {
                    assert(s@ =~= message_spec(*self));
                }
                s
            },
            LaunchError::MissingDependency { name } => {
                let mut s = String::from_str("arliamp: missing dependency: ");
                s.append(name.as_str());
                s
            },
            LaunchError::EmulatorNotInstalled { path } => {
                let mut s = String::from_str("arliamp: Ghostty not found at ");
                s.append(path.as_str());
                s
            },
            LaunchError::IoError { detail } => {
                let mut s = String::from_str("arliamp: ");
                s.append(detail.as_str());
                s
            },
            LaunchError::LaunchFailed => String::from_str("arliamp: failed to launch Ghostty"),
        }
    }
}

} // verus!
