//! Typed errors for every failure the notification subsystem can report.
//!
//! Each native failure signal (a "still initialized" flag, a false return
//! from initialization, a null handle, a false return from an update, an
//! error object carrying a message) is translated into one of the values
//! here, so callers always receive a recoverable result.

use vstd::prelude::*;

verus! {

/// Error that can happen on context creation.
#[derive(Debug, PartialEq, Eq, Structural)]
pub enum ContextCreationError {
    /// A context already exists.
    AlreadyExists,
    /// The subsystem failed to initialize.
    InitError,
    /// A nul byte was found in the provided string; the payload is the
    /// byte index of the first one.
    NulError(usize),
}

impl ContextCreationError {
    /// A human-readable description of the error.
    pub fn message(&self) -> (m: &'static str)
        ensures
            self is AlreadyExists ==> m@ == "A Libnotify context already exists."@,
            self is InitError ==> m@ == "Failed to initialize libnotify."@,
            self is NulError ==> m@ == "An interior nul byte was found."@,
    {
        match self {
            ContextCreationError::AlreadyExists => "A Libnotify context already exists.",
            ContextCreationError::InitError => "Failed to initialize libnotify.",
            ContextCreationError::NulError(_) => "An interior nul byte was found.",
        }
    }
}

/// An error that can happen when attempting to create or update a
/// notification.
#[derive(Debug, PartialEq, Eq, Structural)]
pub enum NotificationCreationError {
    /// A nul byte was found in the provided string; the payload is the
    /// byte index of the first one, within the first offending field.
    NulError(usize),
    /// An unknown error happened: the subsystem returned no handle.
    Unknown,
    /// The subsystem rejected the parameters of an update.
    InvalidParameter,
}

impl NotificationCreationError {
    /// A human-readable description of the error.
    pub fn message(&self) -> (m: &'static str)
        ensures
            self is NulError ==> m@ == "An interior nul byte was found."@,
            self is Unknown ==> m@ == "Unknown error"@,
            self is InvalidParameter ==> m@ == "An invalid parameter was passed"@,
    {
        match self {
            NotificationCreationError::NulError(_) => "An interior nul byte was found.",
            NotificationCreationError::Unknown => "Unknown error",
            NotificationCreationError::InvalidParameter => "An invalid parameter was passed",
        }
    }
}

/// An error that can happen when attempting to show a notification.
///
/// It carries the message of the error object that the subsystem
/// populated, copied verbatim.
#[derive(Debug)]
pub struct NotificationShowError {
    /// The message the subsystem reported.
    pub message: String,
}

impl NotificationShowError {
    /// The message the subsystem reported, verbatim.
    pub fn message(&self) -> (m: &String)
        ensures
            m@ == self.message@,
    {
        &self.message
    }
}

/// Either step of the create-then-show convenience operation can fail;
/// this carries whichever error came first.
#[derive(Debug)]
pub enum Error {
    /// Creating the notification failed.
    Creation(NotificationCreationError),
    /// Showing the notification failed.
    Show(NotificationShowError),
}

} // verus!
