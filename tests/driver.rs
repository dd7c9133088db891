use rs::arguments::Arguments;
use rs::display::LinkTarget;
use rs::entry::{Entry, EntryData, EntryKind};
use rs::listing::{resolve, show, show_section, PathState, Platform, Resolution, Row};
use rs::style::paint_spans;

fn row(path: &str, kind: EntryKind, len: u64, mode: u32) -> Row {
    let data = EntryData {
        kind,
        len,
        mode,
        attributes: 0,
        uid: 0,
        executable: false,
        modified: None,
        created: None,
    };
    Row { entry: Entry::new(String::from(path), data), link: LinkTarget::Unreadable, owner: None }
}

#[test]
fn lines_hold_the_requested_columns() {
    let rows = vec![row("d/a.txt", EntryKind::File, 10, 0o100644), row("d/sub", EntryKind::Directory, 0, 0o040755)];
    let arguments = Arguments::default();
    assert_eq!(paint_spans(&show(&arguments, &rows, Platform::Posix, 0), false), "a.txt\nsub/\n");
    let mut arguments = Arguments::default();
    arguments.show_sizes = true;
    arguments.show_permissions = true;
    arguments.show_owner = true;
    let out = paint_spans(&show(&arguments, &rows, Platform::Posix, 0), false);
    assert_eq!(out, "[-rw-r--r--]        10  unknown a.txt\n[drwxr-xr-x]         -  unknown sub/\n");
}

#[test]
fn path_resolution_decisions() {
    match resolve("nowhere", PathState::Missing) {
        Resolution::Invalid(m) => assert_eq!(m, "Invalid path 'nowhere'."),
        _ => panic!("expected an invalid path"),
    }
    match resolve("f.txt", PathState::File) {
        Resolution::IsFile(m) => assert_eq!(m, "'f.txt' is a file."),
        _ => panic!("expected a file"),
    }
    assert!(matches!(resolve("l", PathState::Symlink), Resolution::Follow));
    assert!(matches!(resolve("d", PathState::Directory), Resolution::List));
}

#[test]
fn sections_of_a_multi_path_listing() {
    let arguments = Arguments::default();
    let rows = vec![row("d/a.txt", EntryKind::File, 10, 0o100644)];
    let body = show(&arguments, &rows, Platform::Posix, 0);
    let first = show_section(&arguments, "d", body.clone(), 0, 2);
    assert_eq!(paint_spans(&first, false), "d:\na.txt\n\n");
    let last = show_section(&arguments, "d", body, 1, 2);
    assert_eq!(paint_spans(&last, false), "d:\na.txt\n");
}
