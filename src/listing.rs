//! The listing driver's own decisions: what to do with a requested path, and
//! how the columns of each entry make up a line.
use vstd::prelude::*;
use vstd::string::StringExecFns;

use crate::arguments::Arguments;
use crate::display::header::{header_spans, HeaderDisplay};
use crate::display::modified::ModifiedDisplay;
use crate::display::name::{separator_spec, LinkTarget, NameDisplay};
use crate::display::owner::{owner_spans, OwnerDisplay};
use crate::display::permissions::{posix_permissions, windows_permissions, PermissionsDisplay};
use crate::display::size::{size_color, size_text, SizeDisplay};
pub use crate::entry::Platform;
use crate::entry::Entry;
use crate::style::{extend, plain, views, Span, SpanView};

verus! {

/// One entry to list, with what was looked up for it besides its metadata.
#[derive(Clone, Debug)]
pub struct Row {
    pub entry: Entry,
    /// Where the entry points, if it is a symbolic link that was read.
    pub link: LinkTarget,
    /// The owner's name, where the lookup found one.
    pub owner: Option<String>,
}

/// The separator between columns.
pub open spec fn gap() -> SpanView {
    (" "@, None)
}

/// The end of a line.
pub open spec fn line_end() -> SpanView {
    ("\n"@, None)
}

/// A column followed by the separator, if it is shown.
pub open spec fn column(shown: bool, spans: Seq<SpanView>) -> Seq<SpanView> {
    if shown {
        spans + seq![gap()]
    } else {
        Seq::empty()
    }
}

/// The view of an optional string.
pub open spec fn owner_view(owner: Option<String>) -> Option<Seq<char>> {
    match owner {
        Some(n) => Some(n@),
        None => None,
    }
}

/// The permissions column on a platform.
pub open spec fn permissions_of(platform: Platform, e: Entry) -> Seq<SpanView> {
    match platform {
        Platform::Posix => posix_permissions(e.data.mode),
        Platform::Windows => windows_permissions(e),
    }
}

/// The name column as `arguments` configures it.
pub open spec fn name_of(arguments: &Arguments, platform: Platform, e: Entry, link: LinkTarget) -> Seq<SpanView> {
    NameDisplay {
        color: arguments.color,
        show_symlinks: arguments.show_symlinks,
        trim_file_paths: true,
        separator: separator_spec(platform),
    }.name_spans(e, link)
}

/// The modified column as `arguments` configures it.
pub open spec fn modified_of(arguments: &Arguments, e: Entry, offset: i32) -> Seq<SpanView> {
    ModifiedDisplay { color: arguments.color, human_readable: arguments.human_readable }.modified_spans(
        e,
        offset,
    )
}

/// The line of one row: permissions, size, modified time and owner where
/// each is asked for, then the name.
pub open spec fn row_spans(arguments: &Arguments, platform: Platform, row: Row, offset: i32) -> Seq<
    SpanView,
> {
    let e = row.entry;
    column(arguments.show_permissions, permissions_of(platform, e)) + column(
        arguments.show_sizes,
        seq![(size_text(arguments.human_readable, e), Some(size_color(e)))],
    ) + column(arguments.show_modified, modified_of(arguments, e, offset)) + column(
        arguments.show_owner,
        owner_spans(owner_view(row.owner)),
    ) + name_of(arguments, platform, e, row.link) + seq![line_end()]
}

/// The lines of all rows, in order.
pub open spec fn listing_spans(
    arguments: &Arguments,
    platform: Platform,
    rows: Seq<Row>,
    offset: i32,
) -> Seq<SpanView>
    decreases rows.len(),
{
    if rows.len() == 0 {
        Seq::empty()
    } else {
        listing_spans(arguments, platform, rows.drop_last(), offset) + row_spans(
            arguments,
            platform,
            rows.last(),
            offset,
        )
    }
}

/// Appends a column and the separator after it.
fn push_column(out: &mut Vec<Span>, spans: Vec<Span>)
    ensures
        views(final(out)@) == views(old(out)@) + column(true, views(spans@)),
{
    let ghost s = views(spans@);
    extend(out, spans);
    let ghost mid = out@;
    let sp = plain(" ");
    out.push(sp);
    assert(out@ == mid.push(sp));
    assert(views(out@) =~= views(mid).push(gap()));
    assert(views(out@) =~= views(old(out)@) + column(true, s));
}

/// A column and its separator, or nothing where it is not shown.
fn optional_column(shown: bool, spans: Vec<Span>) -> (r: Vec<Span>)
    ensures
        views(r@) == column(shown, views(spans@)),
{
    let mut out: Vec<Span> = Vec::new();
    if shown {
        push_column(&mut out, spans);
        assert(views(out@) =~= column(shown, views(spans@)));
    } else {
        assert(views(out@) =~= column(shown, views(spans@)));
    }
    out
}

fn permissions_column(arguments: &Arguments, platform: Platform, e: &Entry) -> (r: Vec<Span>)
    ensures
        views(r@) == column(arguments.show_permissions, permissions_of(platform, *e)),
{
    let d = PermissionsDisplay::new(arguments);
    let p = match platform {
        Platform::Posix => d.show(e),
        Platform::Windows => d.show_windows(e),
    };
    optional_column(arguments.show_permissions, p)
}

fn owner_column(arguments: &Arguments, owner: &Option<String>) -> (r: Vec<Span>)
    ensures
        views(r@) == column(arguments.show_owner, owner_spans(owner_view(*owner))),
{
    let name = match owner {
        Some(n) => Some(n.as_str()),
        None => None,
    };
    optional_column(arguments.show_owner, OwnerDisplay::new(arguments).show(name))
}

fn name_part(arguments: &Arguments, platform: Platform, e: &Entry, link: &LinkTarget) -> (r: Vec<Span>)
    ensures
        views(r@) == name_of(arguments, platform, *e, *link) + seq![line_end()],
{
    let mut out = NameDisplay::for_platform(arguments, platform).show(e, link);
    let ghost mid = out@;
    let end = plain("\n");
    out.push(end);
    assert(views(out@) =~= views(mid).push(line_end()));
    out
}

/// Renders one row.
fn show_row(arguments: &Arguments, platform: Platform, row: &Row, offset: i32) -> (r: Vec<Span>)
    ensures
        views(r@) == row_spans(arguments, platform, *row, offset),
{
    let e = &row.entry;
    let mut out = permissions_column(arguments, platform, e);
    let ghost a = views(out@);
    let sizes = optional_column(arguments.show_sizes, SizeDisplay::new(arguments).show(e));
    let ghost b = views(sizes@);
    extend(&mut out, sizes);
    let modified = optional_column(arguments.show_modified, ModifiedDisplay::new(arguments).show(e, offset));
    let ghost c = views(modified@);
    extend(&mut out, modified);
    let owner = owner_column(arguments, &row.owner);
    let ghost d = views(owner@);
    extend(&mut out, owner);
    let name = name_part(arguments, platform, e, &row.link);
    let ghost f = views(name@);
    extend(&mut out, name);
    assert(views(out@) =~= a + b + c + d + f);
    out
}

/// Displays a list of rows: one line each, with the columns that
/// `arguments` asks for. `offset` is the local UTC offset in seconds.
pub fn show(arguments: &Arguments, rows: &Vec<Row>, platform: Platform, offset: i32) -> (r: Vec<Span>)
    ensures
        views(r@) == listing_spans(arguments, platform, rows@, offset),
{
    let mut out: Vec<Span> = Vec::new();
    let mut i: usize = 0;
    while i < rows.len()
        invariant
            i <= rows@.len(),
            views(out@) == listing_spans(arguments, platform, rows@.take(i as int), offset),
        decreases rows@.len() - i,
    {
        let line = show_row(arguments, platform, &rows[i], offset);
        extend(&mut out, line);
        i += 1;
        assert(rows@.take(i as int).drop_last() =~= rows@.take(i - 1));
    }
    assert(rows@.take(rows@.len() as int) =~= rows@);
    out
}

/// What the filesystem says a requested path is.
#[derive(Clone, Copy, Debug, PartialEq, Eq, Structural)]
pub enum PathState {
    /// Nothing exists there.
    Missing,
    /// A regular file.
    File,
    /// A symbolic link.
    Symlink,
    /// A directory.
    Directory,
}

/// What to do with a requested path.
#[derive(Clone, Debug)]
pub enum Resolution {
    /// Report on the error stream that the path is invalid.
    Invalid(String),
    /// Report on the error stream that the path is a file, not a directory.
    IsFile(String),
    /// Resolve the link and decide again on its target.
    Follow,
    /// Enumerate the directory.
    List,
}

/// The report for a path that does not exist.
pub open spec fn invalid_message(path: Seq<char>) -> Seq<char> {
    "Invalid path '"@ + path + "'."@
}

/// The report for a path that is a file.
pub open spec fn file_message(path: Seq<char>) -> Seq<char> {
    "'"@ + path + "' is a file."@
}

/// Decides what to do with a requested path, given what it is.
pub fn resolve(path: &str, state: PathState) -> (r: Resolution)
    ensures
        state == PathState::Missing <==> r is Invalid,
        state == PathState::File <==> r is IsFile,
        r matches Resolution::Invalid(m) ==> m@ == invalid_message(path@),
        r matches Resolution::IsFile(m) ==> m@ == file_message(path@),
        state == PathState::Symlink <==> r is Follow,
        state == PathState::Directory <==> r is List,
{
    match state {
        PathState::Missing => {
            let mut m = String::from_str("Invalid path '");
            m.append(path);
            m.append("'.");
            Resolution::Invalid(m)
        },
        PathState::File => {
            let mut m = String::from_str("'");
            m.append(path);
            m.append("' is a file.");
            Resolution::IsFile(m)
        },
        PathState::Symlink => Resolution::Follow,
        PathState::Directory => Resolution::List,
    }
}

/// One directory's part of a listing of several: its header on a line of
/// its own, its lines, and a blank line unless it is the last.
pub open spec fn section_spans(path: Seq<char>, body: Seq<SpanView>, last: bool) -> Seq<SpanView> {
    header_spans(path) + seq![line_end()] + body + if last {
        Seq::empty()
    } else {
        seq![line_end()]
    }
}

/// Frames the lines of the directory at `path`, the `index`th of `count`
/// listed, with its header.
pub fn show_section(arguments: &Arguments, path: &str, body: Vec<Span>, index: usize, count: usize) -> (r: Vec<
    Span,
>)
    requires
        index < count,
    ensures
        views(r@) == section_spans(path@, views(body@), index + 1 == count),
{
    let mut out = HeaderDisplay::new(arguments).show(path);
    let ghost head = views(out@);
    let end = plain("\n");
    out.push(end);
    let ghost middle = views(body@);
    extend(&mut out, body);
    let ghost so_far = views(out@);
    if index + 1 < count {
        let gap = plain("\n");
        out.push(gap);
        assert(views(out@) =~= so_far.push(line_end()));
    }
    assert(views(out@) =~= section_spans(path@, middle, index + 1 == count));
    out
}

} // verus!
