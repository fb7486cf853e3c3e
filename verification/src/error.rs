//! The errors of the watcher.

use vstd::prelude::*;

verus! {

/// What went wrong.
#[derive(Clone, Debug, PartialEq, Eq)]
pub enum ErrorKind {
    /// Anything without a kind of its own, with a message.
    Generic(String),
    /// An error of the operating system, as text.
    Io(String),
    /// A path to watch does not exist.
    PathNotFound,
    /// A path to forget was not watched.
    WatchNotFound,
    /// An option was given a value it cannot take.
    InvalidConfig,
    /// The system's limit on watched files is reached.
    MaxFilesWatch,
}

/// An error, with the paths that it is about.
#[derive(Clone, Debug, PartialEq, Eq)]
pub struct Error {
    pub kind: ErrorKind,
    pub paths: Vec<String>,
}

impl Error {
    /// An error of the given kind about no path.
    pub fn new(kind: ErrorKind) -> (e: Error)
        ensures
            e.kind == kind,
            e.paths@.len() == 0,
    {
        Error { kind, paths: Vec::new() }
    }

    pub fn generic(msg: &str) -> (e: Error)
        ensures
            e.kind matches ErrorKind::Generic(m) && m@ == msg@,
            e.paths@.len() == 0,
    {
        Error::new(ErrorKind::Generic(msg.to_owned()))
    }

    pub fn io(msg: &str) -> (e: Error)
        ensures
            e.kind matches ErrorKind::Io(m) && m@ == msg@,
            e.paths@.len() == 0,
    {
        Error::new(ErrorKind::Io(msg.to_owned()))
    }

    pub fn path_not_found() -> (e: Error)
        ensures
            e.kind == ErrorKind::PathNotFound,
            e.paths@.len() == 0,
    {
        Error::new(ErrorKind::PathNotFound)
    }

    pub fn watch_not_found() -> (e: Error)
        ensures
            e.kind == ErrorKind::WatchNotFound,
            e.paths@.len() == 0,
    {
        Error::new(ErrorKind::WatchNotFound)
    }

    pub fn invalid_config() -> (e: Error)
        ensures
            e.kind == ErrorKind::InvalidConfig,
            e.paths@.len() == 0,
    {
        Error::new(ErrorKind::InvalidConfig)
    }

    /// Adds one path to those that the error is about.
    pub fn add_path(self, path: String) -> (e: Error)
        ensures
            e.kind == self.kind,
            e.paths@ == self.paths@.push(path),
    {
        let mut e = self;
        e.paths.push(path);
        e
    }

    /// Replaces the paths that the error is about.
    pub fn set_paths(self, paths: Vec<String>) -> (e: Error)
        ensures
            e.kind == self.kind,
            e.paths == paths,
    {
        Error { kind: self.kind, paths }
    }
}

} // verus!
