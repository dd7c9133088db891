//! The permissions column: a bracketed type character and permission flags,
//! each character colored by what it means.
use vstd::prelude::*;

use crate::arguments::{Arguments, HasColor};
use crate::entry::Entry;
use crate::style::{span, views, Color, Span, SpanView};
use crate::text::chars_of;

verus! {

/// Whether bit `b` is set in `mode`.
pub open spec fn bit(mode: u32, b: u32) -> bool {
    mode & b != 0
}

/// One execute position of the POSIX triad: `x`, or, with its special bit,
/// `s`/`t` when executable and `S`/`T` when not.
pub open spec fn exec_symbol(mode: u32, exec: u32, special: u32, lower: char, upper: char) -> char {
    if bit(mode, special) && bit(mode, exec) {
        lower
    } else if bit(mode, special) {
        upper
    } else if bit(mode, exec) {
        'x'
    } else {
        '-'
    }
}

/// The nine permission characters of a POSIX mode word.
pub open spec fn mode_symbols(mode: u32) -> Seq<char> {
    seq![
        if bit(mode, 0o400) { 'r' } else { '-' },
        if bit(mode, 0o200) { 'w' } else { '-' },
        exec_symbol(mode, 0o100, 0o4000, 's', 'S'),
        if bit(mode, 0o040) { 'r' } else { '-' },
        if bit(mode, 0o020) { 'w' } else { '-' },
        exec_symbol(mode, 0o010, 0o2000, 's', 'S'),
        if bit(mode, 0o004) { 'r' } else { '-' },
        if bit(mode, 0o002) { 'w' } else { '-' },
        exec_symbol(mode, 0o001, 0o1000, 't', 'T'),
    ]
}

/// Relies on umask's `Display` for `Mode`: the nine permission characters
/// of the mode word.
#[verifier::external_body]
fn permission_string(mode: u32) -> (r: String)
    ensures
        r@ == mode_symbols(mode),
{
    umask::Mode::from(mode).to_string()
}

/// The file-type character of a POSIX mode word.
pub open spec fn type_symbol(mode: u32) -> char {
    let t = mode & 0o170000;
    if t == 0o140000 {
        's'
    } else if t == 0o120000 {
        'l'
    } else if t == 0o100000 {
        '-'
    } else if t == 0o060000 {
        'b'
    } else if t == 0o040000 {
        'd'
    } else if t == 0o020000 {
        'c'
    } else if t == 0o010000 {
        'p'
    } else {
        '?'
    }
}

/// The color of a POSIX permission character.
pub open spec fn posix_color(c: char) -> Color {
    if c == 'r' {
        Color::BrightYellow
    } else if c == 'w' {
        Color::BrightRed
    } else if c == 'x' {
        Color::BrightGreen
    } else if c == '-' {
        Color::BrightBlack
    } else if c == 'd' {
        Color::BrightBlue
    } else if c == 'l' {
        Color::BrightCyan
    } else if c == 's' {
        Color::BrightGreen
    } else if c == 'b' {
        Color::BrightRed
    } else if c == 'c' {
        Color::BrightYellow
    } else {
        Color::BrightMagenta
    }
}

/// The color of a Windows attribute character.
pub open spec fn windows_color(c: char) -> Color {
    if c == 'r' {
        Color::BrightYellow
    } else if c == 'a' {
        Color::BrightRed
    } else if c == 'h' {
        Color::BrightMagenta
    } else if c == 's' {
        Color::BrightGreen
    } else if c == '-' {
        Color::BrightBlack
    } else if c == 'd' {
        Color::BrightBlue
    } else if c == 'l' {
        Color::BrightCyan
    } else {
        Color::BrightMagenta
    }
}

/// One character as its own span, colored by `color`.
pub open spec fn char_spans(s: Seq<char>, windows: bool) -> Seq<SpanView> {
    s.map_values(
        |c: char|
            (seq![c], Some(if windows { windows_color(c) } else { posix_color(c) })),
    )
}

/// The bracket around the column.
pub open spec fn bracketed(inner: Seq<SpanView>) -> Seq<SpanView> {
    seq![("["@, Some(Color::BrightBlack))] + inner + seq![("]"@, Some(Color::BrightBlack))]
}

/// The POSIX permissions column of a mode word.
pub open spec fn posix_permissions(mode: u32) -> Seq<SpanView> {
    bracketed(char_spans(seq![type_symbol(mode)] + mode_symbols(mode), false))
}

/// The type character of an entry on Windows.
pub open spec fn windows_type(e: Entry) -> char {
    if e.is_symlink_spec() {
        'l'
    } else if e.is_dir_spec() {
        'd'
    } else {
        '-'
    }
}

/// The Windows permissions column of an entry.
pub open spec fn windows_permissions(e: Entry) -> Seq<SpanView> {
    bracketed(
        char_spans(seq![windows_type(e)] + (WindowsPermissions { bits: e.data.attributes }).flags(), true),
    )
}

/// Windows attribute bits.
#[derive(Clone, Copy, Debug, PartialEq, Eq, Structural)]
pub struct WindowsPermissions {
    /// The permission bits.
    pub bits: u32,
}

impl WindowsPermissions {
    /// Whether the given flag is set in the bits.
    fn has_flag(self, flag: u32) -> (r: bool)
        ensures
            r == bit(self.bits, flag),
    {
        self.bits & flag != 0
    }

    /// Whether this entry is read-only.
    pub fn is_readonly(&self) -> (r: bool)
        ensures
            r == bit(self.bits, 1),
    {
        self.has_flag(1)
    }

    /// Whether this entry is hidden.
    pub fn is_hidden(&self) -> (r: bool)
        ensures
            r == bit(self.bits, 2),
    {
        self.has_flag(2)
    }

    /// Whether this entry is a system entry.
    pub fn is_system(&self) -> (r: bool)
        ensures
            r == bit(self.bits, 4),
    {
        self.has_flag(4)
    }

    /// Whether this entry is an archive.
    pub fn is_archive(&self) -> (r: bool)
        ensures
            r == bit(self.bits, 16),
    {
        self.has_flag(16)
    }

    /// The four flag characters: read-only, archive, hidden, system.
    pub open spec fn flags(self) -> Seq<char> {
        seq![
            if bit(self.bits, 1) { 'r' } else { '-' },
            if bit(self.bits, 16) { 'a' } else { '-' },
            if bit(self.bits, 2) { 'h' } else { '-' },
            if bit(self.bits, 4) { 's' } else { '-' },
        ]
    }

    /// The four flag characters, each `-` where the flag is not set.
    pub fn to_string(&self) -> (r: String)
        ensures
            r@ == self.flags(),
    {
        let v = vec![
            if self.is_readonly() { 'r' } else { '-' },
            if self.is_archive() { 'a' } else { '-' },
            if self.is_hidden() { 'h' } else { '-' },
            if self.is_system() { 's' } else { '-' },
        ];
        assert(v@ =~= self.flags());
        crate::text::string_of(&v)
    }
}

/// Displays an entry's permissions.
#[derive(Clone, Copy, Debug, PartialEq, Eq, Structural)]
pub struct PermissionsDisplay {
    /// Whether to use color.
    pub color: Option<bool>,
}

impl HasColor for PermissionsDisplay {
    open spec fn color_spec(&self) -> Option<bool> {
        self.color
    }

    fn has_color(&self) -> (r: Option<bool>) {
        self.color
    }
}

impl PermissionsDisplay {
    /// Creates a new `PermissionsDisplay`.
    pub fn new(arguments: &Arguments) -> (r: PermissionsDisplay)
        ensures
            r.color == arguments.color,
    {
        PermissionsDisplay { color: arguments.color }
    }

    /// One POSIX permission character, colored by its meaning.
    pub fn show_char(&self, c: char) -> (r: Span)
        ensures
            r@ == (seq![c], Some(posix_color(c))),
    {
        let color = if c == 'r' {
            Color::BrightYellow
        } else if c == 'w' {
            Color::BrightRed
        } else if c == 'x' {
            Color::BrightGreen
        } else if c == '-' {
            Color::BrightBlack
        } else if c == 'd' {
            Color::BrightBlue
        } else if c == 'l' {
            Color::BrightCyan
        } else if c == 's' {
            Color::BrightGreen
        } else if c == 'b' {
            Color::BrightRed
        } else if c == 'c' {
            Color::BrightYellow
        } else {
            Color::BrightMagenta
        };
        let text = crate::text::string_of(&vec![c]);
        Span { text, color: Some(color) }
    }

    /// One Windows attribute character, colored by its meaning.
    pub fn show_windows_char(&self, c: char) -> (r: Span)
        ensures
            r@ == (seq![c], Some(windows_color(c))),
    {
        let color = if c == 'r' {
            Color::BrightYellow
        } else if c == 'a' {
            Color::BrightRed
        } else if c == 'h' {
            Color::BrightMagenta
        } else if c == 's' {
            Color::BrightGreen
        } else if c == '-' {
            Color::BrightBlack
        } else if c == 'd' {
            Color::BrightBlue
        } else if c == 'l' {
            Color::BrightCyan
        } else {
            Color::BrightMagenta
        };
        let text = crate::text::string_of(&vec![c]);
        Span { text, color: Some(color) }
    }

    /// Each character as its own colored span.
    fn show_chars(&self, cs: &Vec<char>, windows: bool) -> (r: Vec<Span>)
        ensures
            views(r@) == char_spans(cs@, windows),
    {
        let mut r: Vec<Span> = Vec::new();
        let mut i: usize = 0;
        while i < cs.len()
            invariant
                i <= cs@.len(),
                views(r@) == char_spans(cs@.take(i as int), windows),
            decreases cs@.len() - i,
        {
            let s = if windows {
                self.show_windows_char(cs[i])
            } else {
                self.show_char(cs[i])
            };
            let ghost before = r@;
            r.push(s);
            i += 1;
            assert(cs@.take(i as int) =~= cs@.take(i - 1).push(cs@[i - 1]));
            assert(views(r@) =~= views(before).push(s@));
            assert(views(r@) =~= char_spans(cs@.take(i as int), windows));
        }
        assert(cs@.take(cs@.len() as int) =~= cs@);
        r
    }

    fn bracket(&self, inner: Vec<Span>) -> (r: Vec<Span>)
        ensures
            views(r@) == bracketed(views(inner@)),
    {
        let ghost middle = inner@;
        let mut r = vec![span("[", Color::BrightBlack)];
        let mut inner = inner;
        r.append(&mut inner);
        r.push(span("]", Color::BrightBlack));
        assert(views(r@) =~= bracketed(views(middle)));
        r
    }

    /// Displays a POSIX mode word: the type character and the nine
    /// permission characters, in brackets.
    pub fn show(&self, entry: &Entry) -> (r: Vec<Span>)
        ensures
            views(r@) == posix_permissions(entry.data.mode),
    {
        let mode = entry.data.mode;
        let t = mode & 0o170000;
        let kind = if t == 0o140000 {
            's'
        } else if t == 0o120000 {
            'l'
        } else if t == 0o100000 {
            '-'
        } else if t == 0o060000 {
            'b'
        } else if t == 0o040000 {
            'd'
        } else if t == 0o020000 {
            'c'
        } else if t == 0o010000 {
            'p'
        } else {
            '?'
        };
        let symbols = permission_string(mode);
        let mut cs = vec![kind];
        let mut rest = chars_of(symbols.as_str());
        cs.append(&mut rest);
        assert(cs@ =~= seq![type_symbol(mode)] + mode_symbols(mode));
        let inner = self.show_chars(&cs, false);
        self.bracket(inner)
    }

    /// Displays Windows attributes: the type character and the four flags,
    /// in brackets.
    pub fn show_windows(&self, entry: &Entry) -> (r: Vec<Span>)
        ensures
            views(r@) == windows_permissions(*entry),
    {
        let kind = if entry.is_symlink() {
            'l'
        } else if entry.is_dir() {
            'd'
        } else {
            '-'
        };
        let flags = WindowsPermissions { bits: entry.data.attributes }.to_string();
        let mut cs = vec![kind];
        let mut rest = chars_of(flags.as_str());
        cs.append(&mut rest);
        assert(cs@ =~= seq![windows_type(*entry)] + (WindowsPermissions { bits: entry.data.attributes }).flags());
        let inner = self.show_chars(&cs, true);
        self.bracket(inner)
    }
}

} // verus!
