//! Comparators over entries: the sort keys, the hoisting partitions, and the
//! composite order that puts hoisting first.
use core::cmp::Ordering;

use vstd::prelude::*;

use crate::entry::{Entry, Timestamp};
use crate::text::{flip, lex, lex_compare, lower, lowered};

verus! {

/// Why two entries could not be compared: a time the platform did not provide.
#[derive(Clone, Copy, Debug, PartialEq, Eq, Structural)]
pub enum MissingTime {
    Created,
    Modified,
}

/// A type that orders pairs of entries.
pub trait Sorter {
    /// The order of `a` and `b`, or why it cannot be had.
    spec fn sort_spec(&self, a: &Entry, b: &Entry) -> Result<Ordering, MissingTime>;

    /// Compares two entries.
    fn sort(&self, a: &Entry, b: &Entry) -> (r: Result<Ordering, MissingTime>)
        ensures
            r == self.sort_spec(a, b),
    ;
}

/// The order of two integers.
pub open spec fn int_order(a: int, b: int) -> Ordering {
    if a < b {
        Ordering::Less
    } else if a > b {
        Ordering::Greater
    } else {
        Ordering::Equal
    }
}

/// The order of two timestamps: by seconds, then by nanoseconds.
pub open spec fn time_order(a: Timestamp, b: Timestamp) -> Ordering {
    if a.seconds != b.seconds {
        int_order(a.seconds as int, b.seconds as int)
    } else {
        int_order(a.nanos as int, b.nanos as int)
    }
}

fn compare_u64(a: u64, b: u64) -> (r: Ordering)
    ensures
        r == int_order(a as int, b as int),
{
    if a < b {
        Ordering::Less
    } else if a > b {
        Ordering::Greater
    } else {
        Ordering::Equal
    }
}

fn compare_times(a: Timestamp, b: Timestamp) -> (r: Ordering)
    ensures
        r == time_order(a, b),
{
    if a.seconds < b.seconds {
        Ordering::Less
    } else if a.seconds > b.seconds {
        Ordering::Greater
    } else {
        compare_u64(a.nanos as u64, b.nanos as u64)
    }
}

fn reversed(o: Ordering) -> (r: Ordering)
    ensures
        r == flip(o),
{
    match o {
        Ordering::Less => Ordering::Greater,
        Ordering::Equal => Ordering::Equal,
        Ordering::Greater => Ordering::Less,
    }
}

/// Newest first; either time missing is an error.
pub open spec fn newest_first(a: Option<Timestamp>, b: Option<Timestamp>, which: MissingTime) -> Result<
    Ordering,
    MissingTime,
> {
    match (a, b) {
        (Some(x), Some(y)) => Ok(flip(time_order(x, y))),
        _ => Err(which),
    }
}

fn compare_newest_first(a: Option<Timestamp>, b: Option<Timestamp>, which: MissingTime) -> (r:
    Result<Ordering, MissingTime>)
    ensures
        r == newest_first(a, b, which),
{
    match (a, b) {
        (Some(x), Some(y)) => Ok(reversed(compare_times(x, y))),
        _ => Err(which),
    }
}

/// The three-way partition that puts the entries with a property first.
pub open spec fn first_if(pa: bool, pb: bool) -> Ordering {
    if pa && !pb {
        Ordering::Less
    } else if !pa && pb {
        Ordering::Greater
    } else {
        Ordering::Equal
    }
}

fn compare_first_if(pa: bool, pb: bool) -> (r: Ordering)
    ensures
        r == first_if(pa, pb),
{
    if pa && !pb {
        Ordering::Less
    } else if !pa && pb {
        Ordering::Greater
    } else {
        Ordering::Equal
    }
}

/// Sorting types.
#[derive(Clone, Copy, Debug, PartialEq, Eq, Structural)]
pub enum SortType {
    /// Sort by name.
    Name,
    /// Sort by size.
    Size,
    /// Sort by creation date.
    Created,
    /// Sort by last modified.
    Modified,
}

impl Default for SortType {
    fn default() -> (r: SortType)
        ensures
            r == SortType::Name,
    {
        SortType::Name
    }
}

/// Sort by name: the paths, ASCII case folded, in ascending order.
#[derive(Clone, Copy, Debug, Default, PartialEq, Eq, Structural)]
pub struct SortName;

/// Sort by size: largest first.
#[derive(Clone, Copy, Debug, Default, PartialEq, Eq, Structural)]
pub struct SortSize;

/// Sort by creation date: newest first.
#[derive(Clone, Copy, Debug, Default, PartialEq, Eq, Structural)]
pub struct SortCreated;

/// Sort by last modified: newest first.
#[derive(Clone, Copy, Debug, Default, PartialEq, Eq, Structural)]
pub struct SortModified;

impl Sorter for SortName {
    open spec fn sort_spec(&self, a: &Entry, b: &Entry) -> Result<Ordering, MissingTime> {
        Ok(lex(lower(a.path@), lower(b.path@)))
    }

    fn sort(&self, a: &Entry, b: &Entry) -> (r: Result<Ordering, MissingTime>) {
        let x = lowered(a.path.as_str());
        let y = lowered(b.path.as_str());
        Ok(lex_compare(&x, &y))
    }
}

impl Sorter for SortSize {
    open spec fn sort_spec(&self, a: &Entry, b: &Entry) -> Result<Ordering, MissingTime> {
        Ok(flip(int_order(a.data.len as int, b.data.len as int)))
    }

    fn sort(&self, a: &Entry, b: &Entry) -> (r: Result<Ordering, MissingTime>) {
        Ok(reversed(compare_u64(a.data.len, b.data.len)))
    }
}

impl Sorter for SortCreated {
    open spec fn sort_spec(&self, a: &Entry, b: &Entry) -> Result<Ordering, MissingTime> {
        newest_first(a.data.created, b.data.created, MissingTime::Created)
    }

    fn sort(&self, a: &Entry, b: &Entry) -> (r: Result<Ordering, MissingTime>) {
        compare_newest_first(a.data.created, b.data.created, MissingTime::Created)
    }
}

impl Sorter for SortModified {
    open spec fn sort_spec(&self, a: &Entry, b: &Entry) -> Result<Ordering, MissingTime> {
        newest_first(a.data.modified, b.data.modified, MissingTime::Modified)
    }

    fn sort(&self, a: &Entry, b: &Entry) -> (r: Result<Ordering, MissingTime>) {
        compare_newest_first(a.data.modified, b.data.modified, MissingTime::Modified)
    }
}

impl Sorter for SortType {
    open spec fn sort_spec(&self, a: &Entry, b: &Entry) -> Result<Ordering, MissingTime> {
        match self {
            SortType::Name => SortName.sort_spec(a, b),
            SortType::Size => SortSize.sort_spec(a, b),
            SortType::Created => SortCreated.sort_spec(a, b),
            SortType::Modified => SortModified.sort_spec(a, b),
        }
    }

    fn sort(&self, a: &Entry, b: &Entry) -> (r: Result<Ordering, MissingTime>) {
        match self {
            SortType::Name => SortName.sort(a, b),
            SortType::Size => SortSize.sort(a, b),
            SortType::Created => SortCreated.sort(a, b),
            SortType::Modified => SortModified.sort(a, b),
        }
    }
}

/// Hoisting types.
#[derive(Clone, Copy, Debug, PartialEq, Eq, Structural)]
pub enum HoistType {
    /// Don't hoist anything.
    Nothing,
    /// Hoist directories.
    Directories,
    /// Hoist hidden files.
    Hidden,
    /// Hoist symbolic links.
    Symlinks,
}

impl Default for HoistType {
    fn default() -> (r: HoistType)
        ensures
            r == HoistType::Nothing,
    {
        HoistType::Nothing
    }
}

/// Sort directories earlier.
#[derive(Clone, Copy, Debug, Default, PartialEq, Eq, Structural)]
pub struct HoistDirectories;

/// Sort hidden entries earlier.
#[derive(Clone, Copy, Debug, Default, PartialEq, Eq, Structural)]
pub struct HoistHidden;

/// Sort symbolic links earlier.
#[derive(Clone, Copy, Debug, Default, PartialEq, Eq, Structural)]
pub struct HoistSymlinks;

/// The hidden partition: entries whose final component starts with a dot
/// first; an entry with no final component is not hidden.
pub open spec fn hidden_first(a: &Entry, b: &Entry) -> Ordering {
    first_if(a.hidden(), b.hidden())
}

impl Sorter for HoistDirectories {
    open spec fn sort_spec(&self, a: &Entry, b: &Entry) -> Result<Ordering, MissingTime> {
        Ok(first_if(a.is_dir_spec(), b.is_dir_spec()))
    }

    fn sort(&self, a: &Entry, b: &Entry) -> (r: Result<Ordering, MissingTime>) {
        Ok(compare_first_if(a.is_dir(), b.is_dir()))
    }
}

impl Sorter for HoistHidden {
    open spec fn sort_spec(&self, a: &Entry, b: &Entry) -> Result<Ordering, MissingTime> {
        Ok(hidden_first(a, b))
    }

    fn sort(&self, a: &Entry, b: &Entry) -> (r: Result<Ordering, MissingTime>) {
        Ok(compare_first_if(a.is_hidden(), b.is_hidden()))
    }
}

impl Sorter for HoistSymlinks {
    open spec fn sort_spec(&self, a: &Entry, b: &Entry) -> Result<Ordering, MissingTime> {
        Ok(first_if(a.is_symlink_spec(), b.is_symlink_spec()))
    }

    fn sort(&self, a: &Entry, b: &Entry) -> (r: Result<Ordering, MissingTime>) {
        Ok(compare_first_if(a.is_symlink(), b.is_symlink()))
    }
}

impl Sorter for HoistType {
    open spec fn sort_spec(&self, a: &Entry, b: &Entry) -> Result<Ordering, MissingTime> {
        match self {
            HoistType::Nothing => Ok(Ordering::Equal),
            HoistType::Directories => HoistDirectories.sort_spec(a, b),
            HoistType::Hidden => HoistHidden.sort_spec(a, b),
            HoistType::Symlinks => HoistSymlinks.sort_spec(a, b),
        }
    }

    fn sort(&self, a: &Entry, b: &Entry) -> (r: Result<Ordering, MissingTime>) {
        match self {
            HoistType::Nothing => Ok(Ordering::Equal),
            HoistType::Directories => HoistDirectories.sort(a, b),
            HoistType::Hidden => HoistHidden.sort(a, b),
            HoistType::Symlinks => HoistSymlinks.sort(a, b),
        }
    }
}

} // verus!
