use rs::arguments::Arguments;
use rs::display::modified::{format_time, CivilTime};
use rs::display::{
    HeaderDisplay, LinkTarget, ModifiedDisplay, NameDisplay, OwnerDisplay, PermissionsDisplay, SizeDisplay,
    WindowsPermissions,
};
use rs::entry::{Entry, EntryData, EntryKind, Platform, Timestamp};
use rs::style::{paint_spans, Color, Span};

fn data(kind: EntryKind, len: u64, mode: u32) -> EntryData {
    EntryData {
        kind,
        len,
        mode,
        attributes: 0,
        uid: 0,
        executable: false,
        modified: None,
        created: None,
    }
}

fn text(spans: &Vec<Span>) -> String {
    paint_spans(spans, false)
}

fn size_of(human: bool, len: u64) -> String {
    let mut arguments = Arguments::default();
    arguments.human_readable = human;
    let e = Entry::new(String::from("f"), data(EntryKind::File, len, 0));
    text(&SizeDisplay::new(&arguments).show(&e))
}

#[test]
fn human_sizes_at_unit_boundaries() {
    assert_eq!(size_of(true, 0), "    0 B  ");
    assert_eq!(size_of(true, 1023), " 1023 B  ");
    assert_eq!(size_of(true, 1024), "  1.0 KiB");
    assert_eq!(size_of(true, 1048575), "1024.0 KiB");
    assert_eq!(size_of(true, 1048576), "  1.0 MiB");
    assert_eq!(size_of(true, 1536), "  1.5 KiB");
    assert_eq!(size_of(true, u64::MAX), " 16.0 EiB");
}

#[test]
fn raw_sizes_are_aligned_and_capped() {
    assert_eq!(size_of(false, 42), "       42");
    assert_eq!(size_of(false, 123456789), "123456789");
    assert_eq!(size_of(false, 1234567890), "123456...");
}

#[test]
fn directory_size_is_a_dimmed_dash() {
    let e = Entry::new(String::from("d"), data(EntryKind::Directory, 4096, 0));
    let mut arguments = Arguments::default();
    let spans = SizeDisplay::new(&arguments).show(&e);
    assert_eq!(text(&spans), "        -");
    assert_eq!(spans[0].color, Some(Color::BrightBlack));
    arguments.human_readable = true;
    assert_eq!(text(&SizeDisplay::new(&arguments).show(&e)), "    - -  ");
}

fn permissions_of(mode: u32) -> String {
    let e = Entry::new(String::from("f"), data(EntryKind::File, 0, mode));
    text(&PermissionsDisplay::new(&Arguments::default()).show(&e))
}

#[test]
fn posix_permissions() {
    assert_eq!(permissions_of(0o100644), "[-rw-r--r--]");
    assert_eq!(permissions_of(0o040755), "[drwxr-xr-x]");
    assert_eq!(permissions_of(0o120777), "[lrwxrwxrwx]");
    assert_eq!(permissions_of(0o104755), "[-rwsr-xr-x]");
    assert_eq!(permissions_of(0o041777), "[drwxrwxrwt]");
    assert_eq!(permissions_of(0o140000), "[s---------]");
    assert_eq!(permissions_of(0o000000), "[?---------]");
}

#[test]
fn permission_characters_are_colored_by_meaning() {
    let d = PermissionsDisplay::new(&Arguments::default());
    assert_eq!(d.show_char('r').color, Some(Color::BrightYellow));
    assert_eq!(d.show_char('w').color, Some(Color::BrightRed));
    assert_eq!(d.show_char('x').color, Some(Color::BrightGreen));
    assert_eq!(d.show_char('-').color, Some(Color::BrightBlack));
    assert_eq!(d.show_char('d').color, Some(Color::BrightBlue));
    assert_eq!(d.show_char('l').color, Some(Color::BrightCyan));
    assert_eq!(d.show_char('?').color, Some(Color::BrightMagenta));
    assert_eq!(d.show_windows_char('h').color, Some(Color::BrightMagenta));
    assert_eq!(d.show_windows_char('a').color, Some(Color::BrightRed));
}

#[test]
fn windows_attributes() {
    let w = WindowsPermissions { bits: 1 | 16 };
    assert!(w.is_readonly());
    assert!(w.is_archive());
    assert!(!w.is_hidden());
    assert!(!w.is_system());
    assert_eq!(w.to_string(), "ra--");
    assert_eq!(WindowsPermissions { bits: 2 | 4 }.to_string(), "--hs");
    let mut d = data(EntryKind::Directory, 0, 0);
    d.attributes = 2;
    let e = Entry::new(String::from("x"), d);
    assert_eq!(text(&PermissionsDisplay::new(&Arguments::default()).show_windows(&e)), "[d--h-]");
}

fn name_display(resolve: bool) -> NameDisplay {
    let mut arguments = Arguments::default();
    arguments.show_symlinks = resolve;
    NameDisplay::new(&arguments)
}

#[test]
fn names_by_kind() {
    let d = name_display(false);
    let dir = Entry::new(String::from("a/zzz"), data(EntryKind::Directory, 0, 0));
    assert_eq!(text(&d.show(&dir, &LinkTarget::Unreadable)), "zzz/");
    let mut exe = data(EntryKind::File, 0, 0);
    exe.executable = true;
    let run = Entry::new(String::from("a/run"), exe);
    let spans = d.show(&run, &LinkTarget::Unreadable);
    assert_eq!(text(&spans), "run*");
    assert_eq!(spans[0].color, Some(Color::BrightGreen));
    let hidden = Entry::new(String::from("a/.rc"), data(EntryKind::File, 0, 0));
    let spans = d.show(&hidden, &LinkTarget::Unreadable);
    assert_eq!(text(&spans), ".rc");
    assert_eq!(spans[0].color, Some(Color::BrightBlack));
    assert_eq!(d.show_dir("x/").len(), 1);
    assert_eq!(d.show_file(&run, "run").len(), 2);
}

#[test]
fn symlinks_follow_one_level() {
    let link = Entry::new(String::from("a/l1"), data(EntryKind::Symlink, 0, 0));
    let target = Entry::new(String::from("a/l2"), data(EntryKind::Symlink, 0, 0));
    let file = Entry::new(String::from("a/f.txt"), data(EntryKind::File, 0, 0));
    let d = name_display(true);
    assert_eq!(text(&d.show(&link, &LinkTarget::Resolved(file))), "l1 -> a/f.txt");
    let shown = text(&d.show(&link, &LinkTarget::Resolved(target)));
    assert_eq!(shown, "l1 -> a/l2");
    assert_eq!(shown.matches("->").count(), 1);
    assert_eq!(text(&d.show(&link, &LinkTarget::Unreadable)), "l1 ~> N/A");
    assert_eq!(text(&d.show(&link, &LinkTarget::Missing(String::from("gone")))), "l1 ~> gone");
    assert_eq!(text(&name_display(false).show(&link, &LinkTarget::Unreadable)), "l1");
}

#[test]
fn modified_time_forms() {
    let c = CivilTime { year: 2024, month: 3, day: 7, hour: 9, minute: 5 };
    assert_eq!(format_time(c, false), "2024-03-07 09:05");
    assert_eq!(format_time(c, true), " 7 Mar '24  9:05");
    let c = CivilTime { year: 1999, month: 12, day: 31, hour: 23, minute: 59 };
    assert_eq!(format_time(c, true), "31 Dec '99 23:59");
}

#[test]
fn modified_time_of_entries() {
    let mut arguments = Arguments::default();
    let mut d = data(EntryKind::File, 0, 0);
    let none = Entry::new(String::from("f"), d);
    assert_eq!(text(&ModifiedDisplay::new(&arguments).show(&none, 0)), "               -");
    d.modified = Some(Timestamp { seconds: 86400 + 3600 + 120, nanos: 0 });
    let e = Entry::new(String::from("f"), d);
    assert_eq!(text(&ModifiedDisplay::new(&arguments).show(&e, 0)), "1970-01-02 01:02");
    assert_eq!(text(&ModifiedDisplay::new(&arguments).show(&e, 3600)), "1970-01-02 02:02");
    // An offset out of range falls back to UTC.
    assert_eq!(text(&ModifiedDisplay::new(&arguments).show(&e, 1_000_000)), "1970-01-02 01:02");
    arguments.human_readable = true;
    assert_eq!(text(&ModifiedDisplay::new(&arguments).show(&e, 0)), " 2 Jan '70  1:02");
}

#[test]
fn owner_and_header() {
    let arguments = Arguments::default();
    assert_eq!(text(&OwnerDisplay::new(&arguments).show(Some("root"))), "    root");
    assert_eq!(text(&OwnerDisplay::new(&arguments).show(None)), " unknown");
    assert_eq!(text(&HeaderDisplay::new(&arguments).show("some/dir")), "some/dir:");
}

#[test]
fn painting_adds_escape_codes() {
    let spans = HeaderDisplay::new(&Arguments::default()).show("x");
    let colored = paint_spans(&spans, true);
    assert_ne!(colored, "x:");
    assert!(colored.starts_with("\u{1b}["));
    assert!(colored.contains('x'));
    assert!(colored.ends_with(':'));
    assert_eq!(paint_spans(&spans, false), "x:");
}

#[test]
fn directories_take_the_platform_separator() {
    let dir = Entry::new(String::from("a/zzz"), data(EntryKind::Directory, 0, 0));
    let windows = NameDisplay::for_platform(&Arguments::default(), Platform::Windows);
    assert_eq!(text(&windows.show(&dir, &LinkTarget::Unreadable)), "zzz\\");
    let posix = NameDisplay::for_platform(&Arguments::default(), Platform::Posix);
    assert_eq!(text(&posix.show(&dir, &LinkTarget::Unreadable)), "zzz/");
}
