//! The configuration that one run of the lister works from.
use vstd::prelude::*;

use vstd::string::StringExecFns;

use crate::sort::{HoistType, SortType};
use crate::text::same_text;

verus! {

/// A type that determines whether to display using color.
pub trait HasColor {
    spec fn color_spec(&self) -> Option<bool>;

    /// Whether to display color: always, never, or (`None`) as the output
    /// stream supports it.
    fn has_color(&self) -> (r: Option<bool>)
        ensures
            r == self.color_spec(),
    ;
}

/// The application's command-line arguments, parsed.
#[derive(Clone, Debug)]
pub struct Arguments {
    /// The directories to list; none means the current one.
    pub paths: Vec<String>,
    /// Whether to display hidden entries.
    pub show_hidden: bool,
    /// Whether to display file sizes.
    pub show_sizes: bool,
    /// Whether to display file modification date.
    pub show_modified: bool,
    /// Whether to display file permissions.
    pub show_permissions: bool,
    /// Whether to display file owners.
    pub show_owner: bool,
    /// Whether to display resolved symbolic links.
    pub show_symlinks: bool,
    /// The method to use to sort the displayed entries.
    pub sort_function: SortType,
    /// Whether to reverse the displayed sorting order.
    pub sort_reversed: bool,
    /// The method to use to hoist the displayed entries.
    pub hoist_function: HoistType,
    /// Whether to use color in the program's output (`None`: when supported).
    pub color: Option<bool>,
    /// Whether to use human-readable sizes and dates.
    pub human_readable: bool,
}

impl Default for Arguments {
    fn default() -> (r: Arguments)
        ensures
            r.paths@.len() == 0,
            !r.show_hidden && !r.show_sizes && !r.show_modified,
            !r.show_permissions && !r.show_owner && !r.show_symlinks,
            r.sort_function == SortType::Name,
            !r.sort_reversed,
            r.hoist_function == HoistType::Nothing,
            r.color is None,
            !r.human_readable,
    {
        Arguments {
            paths: Vec::new(),
            show_hidden: false,
            show_sizes: false,
            show_modified: false,
            show_permissions: false,
            show_owner: false,
            show_symlinks: false,
            sort_function: SortType::Name,
            sort_reversed: false,
            hoist_function: HoistType::Nothing,
            color: None,
            human_readable: false,
        }
    }
}

impl HasColor for Arguments {
    open spec fn color_spec(&self) -> Option<bool> {
        self.color
    }

    fn has_color(&self) -> (r: Option<bool>) {
        self.color
    }
}

/// The hoisting that a listing actually uses: sorting by size with no
/// hoisting puts directories first, since they have no meaningful size.
pub open spec fn effective_hoist(sort: SortType, hoist: HoistType) -> HoistType {
    if sort == SortType::Size && hoist == HoistType::Nothing {
        HoistType::Directories
    } else {
        hoist
    }
}

impl Arguments {
    /// Everything but the hoisting is the same in `self` and `other`.
    pub open spec fn same_but_hoist(&self, other: &Arguments) -> bool {
        &&& self.paths@ == other.paths@
        &&& self.show_hidden == other.show_hidden
        &&& self.show_sizes == other.show_sizes
        &&& self.show_modified == other.show_modified
        &&& self.show_permissions == other.show_permissions
        &&& self.show_owner == other.show_owner
        &&& self.show_symlinks == other.show_symlinks
        &&& self.sort_function == other.sort_function
        &&& self.sort_reversed == other.sort_reversed
        &&& self.color == other.color
        &&& self.human_readable == other.human_readable
    }

    /// Applies the implicit policy of the configuration, once, before any
    /// listing: sorting by size without hoisting hoists directories.
    pub fn normalize(&mut self)
        ensures
            final(self).hoist_function == effective_hoist(
                old(self).sort_function,
                old(self).hoist_function,
            ),
            final(self).same_but_hoist(old(self)),
    {
        if matches!(self.sort_function, SortType::Size) && matches!(
            self.hoist_function,
            HoistType::Nothing
        ) {
            self.hoist_function = HoistType::Directories;
        }
    }
}

/// Sorting by size with no hoisting lists directories first.
pub proof fn lemma_size_sort_hoists_directories(sort: SortType, hoist: HoistType)
    requires
        sort == SortType::Size,
        hoist == HoistType::Nothing,
    ensures
        effective_hoist(sort, hoist) == HoistType::Directories,
{
}

/// The outcome of parsing arguments.
#[derive(Clone, Debug)]
pub enum Output {
    /// The arguments.
    Arguments(Arguments),
    /// Exit early.
    Exit,
    /// An error during parsing.
    Error(String),
}

/// One command-line option, as the option parser reads it: a short one
/// (`-A`) or a long one (`--all`), without its dashes.
#[derive(Clone, Debug)]
pub enum Flag {
    Short(char),
    Long(String),
}

/// What an option asks for.
#[derive(Clone, Copy, Debug, PartialEq, Eq, Structural)]
pub enum Setting {
    Help,
    Version,
    All,
    ShowPermissions,
    ShowSizes,
    ShowModified,
    ShowOwner,
    ResolveSymlinks,
    Reverse,
    Sort,
    Hoist,
    Color,
    HumanReadable,
    Unknown,
}

/// Whether `f` is the option with this short and long spelling.
pub open spec fn spelled(f: Flag, short: char, long: Seq<char>) -> bool {
    match f {
        Flag::Short(c) => c == short,
        Flag::Long(l) => l@ == long,
    }
}

/// What an option asks for, by its spelling.
pub open spec fn setting_of(f: Flag) -> Setting {
    if spelled(f, 'h', "help"@) {
        Setting::Help
    } else if spelled(f, 'V', "version"@) {
        Setting::Version
    } else if spelled(f, 'A', "all"@) {
        Setting::All
    } else if spelled(f, 'P', "show-permissions"@) {
        Setting::ShowPermissions
    } else if spelled(f, 'S', "show-sizes"@) {
        Setting::ShowSizes
    } else if spelled(f, 'M', "show-modified"@) {
        Setting::ShowModified
    } else if spelled(f, 'O', "show-owner"@) {
        Setting::ShowOwner
    } else if spelled(f, 'L', "resolve-symlinks"@) {
        Setting::ResolveSymlinks
    } else if spelled(f, 'r', "reverse"@) {
        Setting::Reverse
    } else if spelled(f, 's', "sort"@) {
        Setting::Sort
    } else if spelled(f, 'H', "hoist"@) {
        Setting::Hoist
    } else if spelled(f, 'c', "color"@) {
        Setting::Color
    } else if spelled(f, 'U', "human-readable"@) {
        Setting::HumanReadable
    } else {
        Setting::Unknown
    }
}

/// Whether an option takes a value.
pub open spec fn takes_value_spec(f: Flag) -> bool {
    let s = setting_of(f);
    s == Setting::Sort || s == Setting::Hoist || s == Setting::Color
}

/// The sort type a value names: none means the default.
pub open spec fn sort_named(v: Option<Seq<char>>) -> Option<SortType> {
    match v {
        None => Some(SortType::Name),
        Some(s) => if s == "name"@ {
            Some(SortType::Name)
        } else if s == "size"@ {
            Some(SortType::Size)
        } else if s == "created"@ {
            Some(SortType::Created)
        } else if s == "modified"@ {
            Some(SortType::Modified)
        } else {
            None
        },
    }
}

/// The hoist type a value names: none means the default.
pub open spec fn hoist_named(v: Option<Seq<char>>) -> Option<HoistType> {
    match v {
        None => Some(HoistType::Nothing),
        Some(s) => if s == "none"@ {
            Some(HoistType::Nothing)
        } else if s == "directories"@ || s == "dirs"@ {
            Some(HoistType::Directories)
        } else if s == "hidden"@ {
            Some(HoistType::Hidden)
        } else if s == "symlinks"@ {
            Some(HoistType::Symlinks)
        } else {
            None
        },
    }
}

/// The color choice a value names (`Some(None)` is automatic): none means
/// the default.
pub open spec fn color_named(v: Option<Seq<char>>) -> Option<Option<bool>> {
    match v {
        None => Some(None),
        Some(s) => if s == "auto"@ {
            Some(None)
        } else if s == "always"@ {
            Some(Some(true))
        } else if s == "never"@ {
            Some(Some(false))
        } else {
            None
        },
    }
}

/// How an option is written back: with one dash or two.
pub open spec fn flag_text(f: Flag) -> Seq<char> {
    match f {
        Flag::Short(c) => seq!['-', c],
        Flag::Long(l) => "--"@ + l@,
    }
}

/// The value given, or nothing.
pub open spec fn value_view(v: Option<&str>) -> Option<Seq<char>> {
    match v {
        Some(s) => Some(s@),
        None => None,
    }
}

/// The error that an option with this value gives, if any.
pub open spec fn option_error(f: Flag, v: Option<Seq<char>>) -> Option<Seq<char>> {
    let s = setting_of(f);
    if s == Setting::Sort && sort_named(v) is None {
        Some("unknown sorting type: "@ + v->0)
    } else if s == Setting::Hoist && hoist_named(v) is None {
        Some("unknown hoisting type: "@ + v->0)
    } else if s == Setting::Color && color_named(v) is None {
        Some("unknown color choice: "@ + v->0)
    } else if s == Setting::Unknown {
        Some("unknown argument: '"@ + flag_text(f) + "'"@)
    } else {
        None
    }
}

/// The arguments after an option that was accepted.
pub open spec fn updated(a: Arguments, f: Flag, v: Option<Seq<char>>) -> Arguments {
    let s = setting_of(f);
    if s == Setting::All {
        Arguments { show_hidden: true, ..a }
    } else if s == Setting::ShowPermissions {
        Arguments { show_permissions: true, ..a }
    } else if s == Setting::ShowSizes {
        Arguments { show_sizes: true, ..a }
    } else if s == Setting::ShowModified {
        Arguments { show_modified: true, ..a }
    } else if s == Setting::ShowOwner {
        Arguments { show_owner: true, ..a }
    } else if s == Setting::ResolveSymlinks {
        Arguments { show_symlinks: true, ..a }
    } else if s == Setting::Reverse {
        Arguments { sort_reversed: true, ..a }
    } else if s == Setting::Sort {
        Arguments { sort_function: sort_named(v)->0, ..a }
    } else if s == Setting::Hoist {
        Arguments { hoist_function: hoist_named(v)->0, ..a }
    } else if s == Setting::Color {
        Arguments { color: color_named(v)->0, ..a }
    } else if s == Setting::HumanReadable {
        Arguments { human_readable: true, ..a }
    } else {
        a
    }
}

/// What parsing does after one option.
#[derive(Clone, Debug)]
pub enum Step {
    /// Go on with the next option.
    Continue,
    /// Show the usage and exit.
    Help,
    /// Show the version and exit.
    Version,
    /// Stop with this error.
    Fail(String),
}

fn spelled_as(f: &Flag, short: char, long: &str) -> (r: bool)
    ensures
        r == spelled(*f, short, long@),
{
    match f {
        Flag::Short(c) => *c == short,
        Flag::Long(l) => same_text(l.as_str(), long),
    }
}

/// What an option asks for.
pub fn setting(f: &Flag) -> (r: Setting)
    ensures
        r == setting_of(*f),
{
    if spelled_as(f, 'h', "help") {
        Setting::Help
    } else if spelled_as(f, 'V', "version") {
        Setting::Version
    } else if spelled_as(f, 'A', "all") {
        Setting::All
    } else if spelled_as(f, 'P', "show-permissions") {
        Setting::ShowPermissions
    } else if spelled_as(f, 'S', "show-sizes") {
        Setting::ShowSizes
    } else if spelled_as(f, 'M', "show-modified") {
        Setting::ShowModified
    } else if spelled_as(f, 'O', "show-owner") {
        Setting::ShowOwner
    } else if spelled_as(f, 'L', "resolve-symlinks") {
        Setting::ResolveSymlinks
    } else if spelled_as(f, 'r', "reverse") {
        Setting::Reverse
    } else if spelled_as(f, 's', "sort") {
        Setting::Sort
    } else if spelled_as(f, 'H', "hoist") {
        Setting::Hoist
    } else if spelled_as(f, 'c', "color") {
        Setting::Color
    } else if spelled_as(f, 'U', "human-readable") {
        Setting::HumanReadable
    } else {
        Setting::Unknown
    }
}

/// Whether an option takes a value, which the parser should then read.
pub fn takes_value(f: &Flag) -> (r: bool)
    ensures
        r == takes_value_spec(*f),
{
    let s = setting(f);
    matches!(s, Setting::Sort | Setting::Hoist | Setting::Color)
}

fn sort_from(v: Option<&str>) -> (r: Option<SortType>)
    ensures
        r == sort_named(value_view(v)),
{
    match v {
        None => Some(SortType::Name),
        Some(s) => if same_text(s, "name") {
            Some(SortType::Name)
        } else if same_text(s, "size") {
            Some(SortType::Size)
        } else if same_text(s, "created") {
            Some(SortType::Created)
        } else if same_text(s, "modified") {
            Some(SortType::Modified)
        } else {
            None
        },
    }
}

fn hoist_from(v: Option<&str>) -> (r: Option<HoistType>)
    ensures
        r == hoist_named(value_view(v)),
{
    match v {
        None => Some(HoistType::Nothing),
        Some(s) => if same_text(s, "none") {
            Some(HoistType::Nothing)
        } else if same_text(s, "directories") || same_text(s, "dirs") {
            Some(HoistType::Directories)
        } else if same_text(s, "hidden") {
            Some(HoistType::Hidden)
        } else if same_text(s, "symlinks") {
            Some(HoistType::Symlinks)
        } else {
            None
        },
    }
}

fn color_from(v: Option<&str>) -> (r: Option<Option<bool>>)
    ensures
        r == color_named(value_view(v)),
{
    match v {
        None => Some(None),
        Some(s) => if same_text(s, "auto") {
            Some(None)
        } else if same_text(s, "always") {
            Some(Some(true))
        } else if same_text(s, "never") {
            Some(Some(false))
        } else {
            None
        },
    }
}

fn message(prefix: &str, v: &str) -> (r: String)
    ensures
        r@ == prefix@ + v@,
{
    let mut m = String::from_str(prefix);
    m.append(v);
    m
}

fn unknown_message(f: &Flag) -> (r: String)
    ensures
        r@ == "unknown argument: '"@ + flag_text(*f) + "'"@,
{
    let mut m = String::from_str("unknown argument: '");
    match f {
        Flag::Short(c) => {
            m.append("-");
            m.append(crate::text::string_of(&vec![*c]).as_str());
            proof {
                reveal_strlit("-");
            }
        },
        Flag::Long(l) => {
            m.append("--");
            m.append(l.as_str());
        },
    }
    m.append("'");
    m
}

impl Arguments {
    /// Applies one option and its value (none where it has none, or where
    /// the value was missing) to the arguments parsed so far.
    pub fn apply(&mut self, f: &Flag, value: Option<&str>) -> (r: Step)
        ensures
            r is Help <==> setting_of(*f) == Setting::Help,
            r is Version <==> setting_of(*f) == Setting::Version,
            r is Fail <==> option_error(*f, value_view(value)) is Some,
            r matches Step::Fail(m) ==> m@ == option_error(*f, value_view(value))->0,
            r is Continue ==> *final(self) == updated(*old(self), *f, value_view(value)),
            !(r is Continue) ==> *final(self) == *old(self),
    {
        match setting(f) {
            Setting::Help => Step::Help,
            Setting::Version => Step::Version,
            Setting::All => {
                self.show_hidden = true;
                Step::Continue
            },
            Setting::ShowPermissions => {
                self.show_permissions = true;
                Step::Continue
            },
            Setting::ShowSizes => {
                self.show_sizes = true;
                Step::Continue
            },
            Setting::ShowModified => {
                self.show_modified = true;
                Step::Continue
            },
            Setting::ShowOwner => {
                self.show_owner = true;
                Step::Continue
            },
            Setting::ResolveSymlinks => {
                self.show_symlinks = true;
                Step::Continue
            },
            Setting::Reverse => {
                self.sort_reversed = true;
                Step::Continue
            },
            Setting::Sort => match sort_from(value) {
                Some(t) => {
                    self.sort_function = t;
                    Step::Continue
                },
                None => Step::Fail(message("unknown sorting type: ", value.unwrap())),
            },
            Setting::Hoist => match hoist_from(value) {
                Some(t) => {
                    self.hoist_function = t;
                    Step::Continue
                },
                None => Step::Fail(message("unknown hoisting type: ", value.unwrap())),
            },
            Setting::Color => match color_from(value) {
                Some(c) => {
                    self.color = c;
                    Step::Continue
                },
                None => Step::Fail(message("unknown color choice: ", value.unwrap())),
            },
            Setting::HumanReadable => {
                self.human_readable = true;
                Step::Continue
            },
            Setting::Unknown => Step::Fail(unknown_message(f)),
        }
    }
}

} // verus!
