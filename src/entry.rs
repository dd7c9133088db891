//! The unit that flows through the listing: a path and the metadata that was
//! read for it once, when it was resolved.
use vstd::prelude::*;

use crate::text::starts_with_dot;

verus! {

/// What kind of filesystem object an entry is, as its own metadata says
/// (a symbolic link is not followed).
#[derive(Clone, Copy, Debug, PartialEq, Eq, Structural)]
pub enum EntryKind {
    File,
    Directory,
    Symlink,
    /// A socket, a device, a pipe, or anything else.
    Other,
}

/// A point in time: whole seconds since the Unix epoch, and the nanoseconds
/// past that second.
#[derive(Clone, Copy, Debug, PartialEq, Eq, Structural)]
pub struct Timestamp {
    pub seconds: i64,
    pub nanos: u32,
}

/// The metadata of an entry, captured when it was resolved.
#[derive(Clone, Copy, Debug, PartialEq, Eq, Structural)]
pub struct EntryData {
    pub kind: EntryKind,
    /// The size in bytes.
    pub len: u64,
    /// The POSIX mode word, type bits included (zero where the platform has none).
    pub mode: u32,
    /// The Windows attribute bits (zero where the platform has none).
    pub attributes: u32,
    /// The owner's numeric user id (zero where the platform has none).
    pub uid: u32,
    /// Whether the entry may be executed.
    pub executable: bool,
    /// The last modification time, where the platform provides it.
    pub modified: Option<Timestamp>,
    /// The creation time, where the platform provides it.
    pub created: Option<Timestamp>,
}

/// A filesystem entry: its path and its metadata.
#[derive(Clone, Debug)]
pub struct Entry {
    /// The path, as given or as joined onto its directory.
    pub path: String,
    /// The final component of `path`, where it has one.
    pub name: Option<String>,
    pub data: EntryData,
}

/// The final component of a path, as std's `Path::file_name` gives it.
pub uninterp spec fn file_name_of(path: Seq<char>) -> Option<Seq<char>>;

/// The view of an optional string.
pub open spec fn opt_view(s: Option<String>) -> Option<Seq<char>> {
    match s {
        Some(t) => Some(t@),
        None => None,
    }
}

/// Relies on std's `Path::file_name`: the final component of the path, if it
/// has a nameable one.
#[verifier::external_body]
fn final_component(path: &str) -> (r: Option<String>)
    ensures
        opt_view(r) == file_name_of(path@),
{
    std::path::Path::new(path).file_name().map(|n| n.to_string_lossy().into_owned())
}

/// Whether a name starts with a dot.
pub open spec fn dotted(s: Seq<char>) -> bool {
    s.len() > 0 && s[0] == '.'
}

impl Entry {
    /// Creates a new `Entry` for `path`, whose final component becomes its name.
    pub fn new(path: String, data: EntryData) -> (r: Entry)
        ensures
            r.path@ == path@,
            r.data == data,
            opt_view(r.name) == file_name_of(path@),
    {
        let name = final_component(path.as_str());
        Entry { path, name, data }
    }

    /// A hidden entry is one whose final component starts with a dot.
    pub open spec fn hidden(&self) -> bool {
        match self.name {
            Some(n) => dotted(n@),
            None => false,
        }
    }

    /// Whether this entry is hidden.
    pub fn is_hidden(&self) -> (r: bool)
        ensures
            r == self.hidden(),
    {
        match &self.name {
            Some(n) => starts_with_dot(n.as_str()),
            None => false,
        }
    }

    pub open spec fn is_dir_spec(&self) -> bool {
        self.data.kind == EntryKind::Directory
    }

    pub open spec fn is_symlink_spec(&self) -> bool {
        self.data.kind == EntryKind::Symlink
    }

    /// Whether this entry is a directory.
    pub fn is_dir(&self) -> (r: bool)
        ensures
            r == self.is_dir_spec(),
    {
        matches!(self.data.kind, EntryKind::Directory)
    }

    /// Whether this entry is a symbolic link.
    pub fn is_symlink(&self) -> (r: bool)
        ensures
            r == self.is_symlink_spec(),
    {
        matches!(self.data.kind, EntryKind::Symlink)
    }
}

/// The platform whose metadata and paths an entry follows.
#[derive(Clone, Copy, Debug, PartialEq, Eq, Structural)]
pub enum Platform {
    /// POSIX mode bits, `/` between path components.
    Posix,
    /// Windows attribute flags, a backslash between path components.
    Windows,
}

} // verus!
