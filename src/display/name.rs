//! The name column: the entry's name colored by its type, and for a
//! symbolic link, where it points.
use vstd::prelude::*;
use vstd::string::StringExecFns;

use crate::arguments::{Arguments, HasColor};
use crate::entry::{dotted, Entry, EntryKind, Platform};
use crate::style::{span, views, Color, Span, SpanView};
use crate::text::{chars_of, starts_with_dot, string_of};

verus! {

/// The path separator of a platform, appended to directory names.
pub open spec fn separator_spec(platform: Platform) -> char {
    match platform {
        Platform::Posix => '/',
        Platform::Windows => '\\',
    }
}

/// The path separator of a platform.
pub fn separator_of(platform: Platform) -> (r: char)
    ensures
        r == separator_spec(platform),
{
    match platform {
        Platform::Posix => '/',
        Platform::Windows => '\\',
    }
}

/// What a symbolic link was found to point at, when it was read.
#[derive(Clone, Debug)]
pub enum LinkTarget {
    /// The link itself could not be read.
    Unreadable,
    /// The link reads as this path, which does not exist or cannot be read.
    Missing(String),
    /// The target exists: the entry for it, its path joined onto the link's
    /// directory and its metadata read through the link.
    Resolved(Entry),
}

/// The text shown for an entry: its final component where paths are trimmed
/// and it has one, else its whole path.
pub open spec fn shown_name(trim: bool, e: Entry) -> Seq<char> {
    if trim {
        match e.name {
            Some(n) => n@,
            None => e.path@,
        }
    } else {
        e.path@
    }
}

/// Whether a name ends with the separator.
pub open spec fn ends_with_separator(s: Seq<char>, sep: char) -> bool {
    s.len() > 0 && s.last() == sep
}

/// A directory name in blue (dim for dotted names), with a separator
/// appended where it has none.
pub open spec fn dir_spans(name: Seq<char>, sep: char) -> Seq<SpanView> {
    let c = if dotted(name) {
        Color::Blue
    } else {
        Color::BrightBlue
    };
    if ends_with_separator(name, sep) {
        seq![(name, Some(c))]
    } else {
        seq![(name, Some(c)), (seq![sep], Some(c))]
    }
}

/// A file name: executables in green with a trailing star, hidden files
/// dimmed, others white.
pub open spec fn file_spans(e: Entry, name: Seq<char>) -> Seq<SpanView> {
    if e.data.executable {
        seq![
            (name, Some(if e.hidden() { Color::Green } else { Color::BrightGreen })),
            ("*"@, Some(Color::White)),
        ]
    } else if e.hidden() {
        seq![(name, Some(Color::BrightBlack))]
    } else {
        seq![(name, Some(Color::White))]
    }
}

/// A link's own name in cyan (dim for dotted names).
pub open spec fn link_span(name: Seq<char>) -> SpanView {
    (name, Some(if dotted(name) { Color::Cyan } else { Color::BrightCyan }))
}

/// The arrow between a link and its target.
pub open spec fn arrow() -> SpanView {
    (" -> "@, Some(Color::BrightBlack))
}

/// What is shown in place of a target that cannot be had.
pub open spec fn failed(v: Seq<char>) -> Seq<SpanView> {
    seq![(" ~> "@, Some(Color::BrightBlack)), (v, Some(Color::BrightRed))]
}

/// An entry's name, colored by its type, with no link followed.
pub open spec fn plain_name_spans(trim: bool, sep: char, e: Entry) -> Seq<SpanView> {
    let name = shown_name(trim, e);
    match e.data.kind {
        EntryKind::Symlink => seq![link_span(name)],
        EntryKind::Directory => dir_spans(name, sep),
        _ => file_spans(e, name),
    }
}

/// What follows a link's name: nothing unless links are resolved; then its
/// target, shown by its full path and without following it further.
pub open spec fn link_suffix(show_symlinks: bool, sep: char, link: LinkTarget) -> Seq<SpanView> {
    if !show_symlinks {
        Seq::empty()
    } else {
        match link {
            LinkTarget::Unreadable => failed("N/A"@),
            LinkTarget::Missing(raw) => failed(raw@),
            LinkTarget::Resolved(t) => seq![arrow()] + plain_name_spans(false, sep, t),
        }
    }
}

/// Displays an entry's name.
#[derive(Clone, Copy, Debug, PartialEq, Eq, Structural)]
pub struct NameDisplay {
    /// Whether to use color.
    pub color: Option<bool>,
    /// Whether to resolve symbolic links.
    pub show_symlinks: bool,
    /// Whether to trim paths to their final component.
    pub trim_file_paths: bool,
    /// The separator appended to directory names.
    pub separator: char,
}

impl HasColor for NameDisplay {
    open spec fn color_spec(&self) -> Option<bool> {
        self.color
    }

    fn has_color(&self) -> (r: Option<bool>) {
        self.color
    }
}

impl NameDisplay {
    /// The name column of `e`, with `link` after a link's name.
    pub open spec fn name_spans(&self, e: Entry, link: LinkTarget) -> Seq<SpanView> {
        if e.is_symlink_spec() {
            plain_name_spans(self.trim_file_paths, self.separator, e) + link_suffix(self.show_symlinks, self.separator, link)
        } else {
            plain_name_spans(self.trim_file_paths, self.separator, e)
        }
    }

    /// Creates a new `NameDisplay`, which trims paths to their final
    /// component and marks directories with the POSIX separator.
    pub fn new(arguments: &Arguments) -> (r: NameDisplay)
        ensures
            r.color == arguments.color,
            r.show_symlinks == arguments.show_symlinks,
            r.trim_file_paths,
            r.separator == separator_spec(Platform::Posix),
    {
        Self::for_platform(arguments, Platform::Posix)
    }

    /// Creates a new `NameDisplay` that marks directories with the
    /// separator of `platform`.
    pub fn for_platform(arguments: &Arguments, platform: Platform) -> (r: NameDisplay)
        ensures
            r.color == arguments.color,
            r.show_symlinks == arguments.show_symlinks,
            r.trim_file_paths,
            r.separator == separator_spec(platform),
    {
        NameDisplay {
            color: arguments.color,
            show_symlinks: arguments.show_symlinks,
            trim_file_paths: true,
            separator: separator_of(platform),
        }
    }

    /// The text shown for `entry`.
    fn name_of(&self, entry: &Entry) -> (r: String)
        ensures
            r@ == shown_name(self.trim_file_paths, *entry),
    {
        if self.trim_file_paths {
            match &entry.name {
                Some(n) => String::from_str(n.as_str()),
                None => String::from_str(entry.path.as_str()),
            }
        } else {
            String::from_str(entry.path.as_str())
        }
    }

    /// Displays a directory name.
    pub fn show_dir(&self, name: &str) -> (r: Vec<Span>)
        ensures
            views(r@) == dir_spans(name@, self.separator),
    {
        let c = if starts_with_dot(name) {
            Color::Blue
        } else {
            Color::BrightBlue
        };
        let cs = chars_of(name);
        let ends = cs.len() > 0 && cs[cs.len() - 1] == self.separator;
        let r = if ends {
            vec![span(name, c)]
        } else {
            let sep = vec![self.separator];
            assert(sep@ =~= seq![self.separator]);
            vec![span(name, c), Span { text: string_of(&sep), color: Some(c) }]
        };
        proof {
            assert(ends == ends_with_separator(name@, self.separator));
        }
        assert(views(r@) =~= dir_spans(name@, self.separator));
        r
    }

    /// Displays a file name.
    pub fn show_file(&self, entry: &Entry, name: &str) -> (r: Vec<Span>)
        ensures
            views(r@) == file_spans(*entry, name@),
    {
        let hidden = entry.is_hidden();
        let r = if entry.data.executable {
            vec![span(name, if hidden { Color::Green } else { Color::BrightGreen }), span("*", Color::White)]
        } else if hidden {
            vec![span(name, Color::BrightBlack)]
        } else {
            vec![span(name, Color::White)]
        };
        assert(views(r@) =~= file_spans(*entry, name@));
        r
    }

    /// Displays an entry's name, with no link followed.
    fn show_plain(&self, entry: &Entry) -> (r: Vec<Span>)
        ensures
            views(r@) == plain_name_spans(self.trim_file_paths, self.separator, *entry),
    {
        let name = self.name_of(entry);
        match entry.data.kind {
            EntryKind::Symlink => {
                let c = if starts_with_dot(name.as_str()) {
                    Color::Cyan
                } else {
                    Color::BrightCyan
                };
                let r = vec![Span { text: name, color: Some(c) }];
                assert(views(r@) =~= plain_name_spans(self.trim_file_paths, self.separator, *entry));
                r
            },
            EntryKind::Directory => self.show_dir(name.as_str()),
            _ => self.show_file(entry, name.as_str()),
        }
    }

    /// What follows a link's name.
    fn show_link(&self, link: &LinkTarget) -> (r: Vec<Span>)
        ensures
            views(r@) == link_suffix(self.show_symlinks, self.separator, *link),
    {
        if !self.show_symlinks {
            let r: Vec<Span> = Vec::new();
            assert(views(r@) =~= Seq::empty());
            return r;
        }
        match link {
            LinkTarget::Unreadable => {
                let r = vec![span(" ~> ", Color::BrightBlack), span("N/A", Color::BrightRed)];
                assert(views(r@) =~= failed("N/A"@));
                r
            },
            LinkTarget::Missing(raw) => {
                let r = vec![span(" ~> ", Color::BrightBlack), span(raw.as_str(), Color::BrightRed)];
                assert(views(r@) =~= failed(raw@));
                r
            },
            LinkTarget::Resolved(target) => {
                let nested = NameDisplay { trim_file_paths: false, ..*self };
                let mut r = vec![span(" -> ", Color::BrightBlack)];
                let mut rest = nested.show_plain(target);
                let ghost tail = views(rest@);
                let ghost head = views(r@);
                r.append(&mut rest);
                assert(views(r@) =~= head + tail);
                r
            },
        }
    }

    /// Displays an entry's name, colored by its type. A link is followed at
    /// most one level: its target is shown by its full path, and not followed
    /// further.
    pub fn show(&self, entry: &Entry, link: &LinkTarget) -> (r: Vec<Span>)
        ensures
            views(r@) == self.name_spans(*entry, *link),
    {
        let mut r = self.show_plain(entry);
        if entry.is_symlink() {
            let ghost head = views(r@);
            let mut rest = self.show_link(link);
            let ghost tail = views(rest@);
            r.append(&mut rest);
            assert(views(r@) =~= head + tail);
        }
        r
    }
}

/// A link is followed one level only: after its name come the arrow and the
/// target, shown as a plain name; a target that is itself a link shows its
/// name alone, with no arrow of its own.
pub proof fn lemma_single_indirection(d: NameDisplay, e: Entry, t: Entry)
    requires
        e.is_symlink_spec(),
        d.show_symlinks,
    ensures
        d.name_spans(e, LinkTarget::Resolved(t)) == seq![
            link_span(shown_name(d.trim_file_paths, e)),
            arrow(),
        ] + plain_name_spans(false, d.separator, t),
        t.is_symlink_spec() ==> plain_name_spans(false, d.separator, t) == seq![link_span(t.path@)],
{
    assert(d.name_spans(e, LinkTarget::Resolved(t)) =~= seq![
        link_span(shown_name(d.trim_file_paths, e)),
        arrow(),
    ] + plain_name_spans(false, d.separator, t));
}

} // verus!
