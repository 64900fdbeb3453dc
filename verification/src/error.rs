//! The error kinds of the backend and the text each one is reported with.

use vstd::prelude::*;
use vstd::string::StringExecFns;

verus! {

/// What can go wrong while a generation is served. Each variant carries the
/// description of the failure.
#[derive(Debug)]
pub enum DiffusionError {
    /// The inference program could not be found or gave no usable answer.
    PythonBackend(String),
    /// A file or directory could not be found, created or written.
    FileSystem(String),
    /// A payload of the line protocol is not the JSON that was expected.
    JsonError(String),
    /// The inference process could not be started or ended in failure.
    ProcessError(String),
    /// A request or a settings record breaks the bounds policy.
    Validation(String),
}

impl DiffusionError {
    /// The description that the error carries, without the label of its kind.
    pub open spec fn detail_text(self) -> Seq<char> {
        match self {
            DiffusionError::PythonBackend(s) => s@,
            DiffusionError::FileSystem(s) => s@,
            DiffusionError::JsonError(s) => s@,
            DiffusionError::ProcessError(s) => s@,
            DiffusionError::Validation(s) => s@,
        }
    }

    /// The label that reports of this kind of error start with.
    pub open spec fn label(self) -> Seq<char> {
        match self {
            DiffusionError::PythonBackend(_) => "Python backend error: "@,
            DiffusionError::FileSystem(_) => "File system error: "@,
            DiffusionError::JsonError(_) => "JSON serialization error: "@,
            DiffusionError::ProcessError(_) => "Process error: "@,
            DiffusionError::Validation(_) => "Validation error: "@,
        }
    }

    /// The full report: the label of the kind, then the description.
    pub open spec fn message_text(self) -> Seq<char> {
        self.label() + self.detail_text()
    }

    /// Returns the description that the error carries.
    pub fn detail(&self) -> (text: &String)
        ensures
            text@ == self.detail_text(),
    {
        match self {
            DiffusionError::PythonBackend(s) => s,
            DiffusionError::FileSystem(s) => s,
            DiffusionError::JsonError(s) => s,
            DiffusionError::ProcessError(s) => s,
            DiffusionError::Validation(s) => s,
        }
    }

    /// Returns the full report of the error.
    pub fn message(&self) -> (text: String)
        ensures
            text@ == self.message_text(),
    {
        let label: &str = match self {
            DiffusionError::PythonBackend(_) => "Python backend error: ",
            DiffusionError::FileSystem(_) => "File system error: ",
            DiffusionError::JsonError(_) => "JSON serialization error: ",
            DiffusionError::ProcessError(_) => "Process error: ",
            DiffusionError::Validation(_) => "Validation error: ",
        };
        String::from_str(label).concat(self.detail().as_str())
    }
}

} // verus!
