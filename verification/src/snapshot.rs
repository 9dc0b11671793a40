//! What was found on disk, as plain values.
//!
//! Discovery does not read the file system. Its caller lists the directory,
//! reads the files, and hands over what it found; discovery decides what to
//! make of it.

use vstd::prelude::*;

verus! {

/// One entry of a directory.
#[derive(Debug)]
pub struct FileEntry {
    /// The entry's own name: the last component of its path.
    pub name: String,
    /// The path of the entry, the directory's own path included.
    pub path: String,
    /// What the file holds; `None` where that is not known, because the file
    /// could not be read or its name is not that of a configuration file.
    pub contents: Option<Vec<u8>>,
}

/// What listing a path gave.
#[derive(Debug)]
pub enum Listing<E> {
    /// The path is no directory.
    NotADirectory,
    /// The path is a directory, but listing it failed.
    Unreadable,
    /// The entries, in the order in which the file system gave them.
    Entries(Vec<E>),
}

} // verus!
