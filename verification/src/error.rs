//! The ways in which an operation on the registry can fail.

use vstd::prelude::*;

verus! {

/// Which of the two keys of a record is meant.
#[derive(Debug, Clone, Copy, PartialEq, Eq, Structural)]
pub enum Key {
    Filename,
    Shorthand,
}

/// Why an operation stopped.
///
/// The last three variants carry the cause as the outside world worded it.
#[derive(Debug, PartialEq, Eq)]
pub enum ConfigError {
    /// No record has the key that was looked up.
    NotFound(Key),
    /// A record with that key is already present.
    Conflict(Key),
    /// A file could not be read, written or removed.
    Io(String),
    /// The editor could not be started or waited for.
    Process(String),
    /// The persistent store could not be read or written.
    Persistence(String),
}

/// What an error is, with each cause as a sequence of characters.
pub enum ErrorView {
    NotFound(Key),
    Conflict(Key),
    Io(Seq<char>),
    Process(Seq<char>),
    Persistence(Seq<char>),
}

impl View for ConfigError {
    type V = ErrorView;

    open spec fn view(&self) -> ErrorView {
        match *self {
            ConfigError::NotFound(key) => ErrorView::NotFound(key),
            ConfigError::Conflict(key) => ErrorView::Conflict(key),
            ConfigError::Io(cause) => ErrorView::Io(cause@),
            ConfigError::Process(cause) => ErrorView::Process(cause@),
            ConfigError::Persistence(cause) => ErrorView::Persistence(cause@),
        }
    }
}

impl Clone for ConfigError {
    fn clone(&self) -> (copy: Self)
        ensures
            copy == *self,
    {
        match self {
            ConfigError::NotFound(key) => ConfigError::NotFound(*key),
            ConfigError::Conflict(key) => ConfigError::Conflict(*key),
            ConfigError::Io(cause) => ConfigError::Io(cause.clone()),
            ConfigError::Process(cause) => ConfigError::Process(cause.clone()),
            ConfigError::Persistence(cause) => ConfigError::Persistence(cause.clone()),
        }
    }
}

} // verus!
