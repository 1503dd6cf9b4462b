//! What the browser asks of the file system, and what it is told in return.
//!
//! The browser touches no file itself. Each step hands back a `Request`;
//! whoever drives the browser carries it out and answers with the `Reply`
//! that the request names, until the request is `NextKey`.

use crate::entries::names;
use vstd::prelude::*;

verus! {

/// The directory that a listing is asked of.
#[derive(Clone, Copy, Debug, PartialEq, Eq)]
pub enum Target {
    /// The directory on display, to refresh it.
    Same,
    /// The entry under the cursor, to enter it.
    Child,
    /// The parent of the directory on display, to leave for it.
    Parent,
}

/// What the browser is waiting for.
#[derive(Clone, Copy, Debug, PartialEq, Eq)]
pub enum Awaiting {
    /// The next key press: nothing is outstanding.
    Key,
    /// Whether the entry under the cursor is a directory.
    Kind,
    /// Whether the path named in the input buffer exists.
    Presence,
    /// The end of a change to the file system. `directory` tells a removal
    /// which kind of entry it removes.
    Change { directory: bool },
    /// The names in a directory.
    Listing { target: Target },
}

/// One thing to do for the browser.
#[derive(Debug, PartialEq, Eq)]
pub enum Request {
    /// Read the next key press, or stop if the browser is to exit.
    NextKey,
    /// Tell whether the path is a directory: answer with `Reply::Flag`.
    IsDir(String),
    /// Tell whether the path exists: answer with `Reply::Flag`.
    Exists(String),
    /// Name the immediate children of the directory: answer with
    /// `Reply::Listing`.
    List(String),
    /// Create an empty file at the path: answer with `Reply::Done`.
    CreateFile(String),
    /// Create a directory at the path: answer with `Reply::Done`.
    CreateDir(String),
    /// Remove the file at the path: answer with `Reply::Done`.
    RemoveFile(String),
    /// Remove the directory at the path with all that it holds: answer with
    /// `Reply::Done`.
    RemoveDirAll(String),
    /// Rename the first path to the second: answer with `Reply::Done`.
    Rename(String, String),
}

/// What a `Request` stands for.
pub enum RequestModel {
    NextKey,
    IsDir(Seq<char>),
    Exists(Seq<char>),
    List(Seq<char>),
    CreateFile(Seq<char>),
    CreateDir(Seq<char>),
    RemoveFile(Seq<char>),
    RemoveDirAll(Seq<char>),
    Rename(Seq<char>, Seq<char>),
}

impl View for Request {
    type V = RequestModel;

    open spec fn view(&self) -> RequestModel {
        match self {
            Request::NextKey => RequestModel::NextKey,
            Request::IsDir(path) => RequestModel::IsDir(path@),
            Request::Exists(path) => RequestModel::Exists(path@),
            Request::List(path) => RequestModel::List(path@),
            Request::CreateFile(path) => RequestModel::CreateFile(path@),
            Request::CreateDir(path) => RequestModel::CreateDir(path@),
            Request::RemoveFile(path) => RequestModel::RemoveFile(path@),
            Request::RemoveDirAll(path) => RequestModel::RemoveDirAll(path@),
            Request::Rename(from, to) => RequestModel::Rename(from@, to@),
        }
    }
}

impl RequestModel {
    /// The request changes the file system.
    pub open spec fn is_change(self) -> bool {
        match self {
            RequestModel::CreateFile(_)
            | RequestModel::CreateDir(_)
            | RequestModel::RemoveFile(_)
            | RequestModel::RemoveDirAll(_)
            | RequestModel::Rename(_, _) => true,
            _ => false,
        }
    }
}

/// The answer to a `Request`.
#[derive(Debug, PartialEq, Eq)]
pub enum Reply {
    /// The answer to `IsDir` and `Exists`.
    Flag(bool),
    /// The answer to `List`: the names of the immediate children, in any
    /// order.
    Listing(Vec<String>),
    /// The change was made.
    Done,
}

/// What a `Reply` stands for.
pub enum ReplyModel {
    Flag(bool),
    Listing(Seq<Seq<char>>),
    Done,
}

impl View for Reply {
    type V = ReplyModel;

    open spec fn view(&self) -> ReplyModel {
        match self {
            Reply::Flag(flag) => ReplyModel::Flag(*flag),
            Reply::Listing(children) => ReplyModel::Listing(names(children@)),
            Reply::Done => ReplyModel::Done,
        }
    }
}

} // verus!
