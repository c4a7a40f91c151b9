//! The error kinds that commands report.

use vstd::prelude::*;

verus! {

/// Why a command failed.
#[derive(Debug, PartialEq, Eq)]
pub enum EditorError {
    /// The path does not exist on the selected source.
    NotFound,
    /// The local file system or the remote transfer failed.
    Io(String),
    /// The content is not a well-formed document, or not valid UTF-8.
    InvalidData(String),
    /// The remote backend is already in use.
    BackendBusy,
    /// The remote host refused the credentials.
    AuthFailed,
}

impl EditorError {
    /// The text that stands for an error on the status line.
    pub open spec fn message_spec(self) -> Seq<char> {
        match self {
            EditorError::NotFound => "File not found"@,
            EditorError::Io(text) => text@,
            EditorError::InvalidData(text) => text@,
            EditorError::BackendBusy => "SSH backend in use"@,
            EditorError::AuthFailed => "SSH authentication failed"@,
        }
    }

    /// The text that stands for this error on the status line.
    pub fn message(&self) -> (r: String)
        ensures
            r@ == self.message_spec(),
    {
        match self {
            EditorError::NotFound => "File not found".to_owned(),
            EditorError::Io(text) => text.clone(),
            EditorError::InvalidData(text) => text.clone(),
            EditorError::BackendBusy => "SSH backend in use".to_owned(),
            EditorError::AuthFailed => "SSH authentication failed".to_owned(),
        }
    }
}

} // verus!
