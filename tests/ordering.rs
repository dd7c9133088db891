use core::cmp::Ordering;

use rs::arguments::Arguments;
use rs::entry::{Entry, EntryData, EntryKind, Timestamp};
use rs::pipeline::{compare_entries, entries_list, filter_hidden};
use rs::sort::{
    HoistDirectories, HoistHidden, HoistSymlinks, HoistType, MissingTime, SortCreated, SortModified,
    SortName, SortSize, SortType, Sorter,
};

fn data(kind: EntryKind, len: u64) -> EntryData {
    EntryData {
        kind,
        len,
        mode: 0,
        attributes: 0,
        uid: 0,
        executable: false,
        modified: None,
        created: None,
    }
}

fn file(path: &str, len: u64) -> Entry {
    Entry::new(String::from(path), data(EntryKind::File, len))
}

fn dir(path: &str) -> Entry {
    Entry::new(String::from(path), data(EntryKind::Directory, 4096))
}

fn sample() -> Vec<Entry> {
    vec![file("d/b.txt", 100), file("d/A.txt", 10), file("d/.hidden", 5), dir("d/zzz")]
}

fn names(entries: &[Entry]) -> Vec<String> {
    entries.iter().map(|e| e.name.clone().unwrap()).collect()
}

#[test]
fn scenario_default_order() {
    let arguments = Arguments::default();
    let (sorted, failures) = entries_list(&arguments, sample());
    assert_eq!(names(&sorted), vec!["A.txt", "b.txt", "zzz"]);
    assert_eq!(failures, 0);
}

#[test]
fn scenario_all_with_directories_hoisted() {
    // Directories first, then the rest by case-folded name; '.' sorts before
    // letters, so the hidden file leads the non-directories.
    let mut arguments = Arguments::default();
    arguments.show_hidden = true;
    arguments.hoist_function = HoistType::Directories;
    let (sorted, _) = entries_list(&arguments, sample());
    assert_eq!(names(&sorted), vec!["zzz", ".hidden", "A.txt", "b.txt"]);
}

#[test]
fn scenario_size_sort_hoists_directories() {
    let mut arguments = Arguments::default();
    arguments.show_hidden = true;
    arguments.sort_function = SortType::Size;
    arguments.normalize();
    assert_eq!(arguments.hoist_function, HoistType::Directories);
    let (sorted, _) = entries_list(&arguments, sample());
    assert_eq!(names(&sorted), vec!["zzz", "b.txt", "A.txt", ".hidden"]);

    arguments.show_hidden = false;
    let (sorted, _) = entries_list(&arguments, sample());
    assert_eq!(names(&sorted), vec!["zzz", "b.txt", "A.txt"]);
}

#[test]
fn normalize_keeps_explicit_hoist() {
    let mut arguments = Arguments::default();
    arguments.sort_function = SortType::Size;
    arguments.hoist_function = HoistType::Hidden;
    arguments.normalize();
    assert_eq!(arguments.hoist_function, HoistType::Hidden);

    let mut arguments = Arguments::default();
    arguments.normalize();
    assert_eq!(arguments.hoist_function, HoistType::Nothing);
}

#[test]
fn hoist_takes_precedence_over_sort_and_reverse() {
    let a = dir("d/zzz");
    let b = file("d/a.txt", 1);
    for sort in [SortType::Name, SortType::Size] {
        for reversed in [false, true] {
            let mut arguments = Arguments::default();
            arguments.hoist_function = HoistType::Directories;
            arguments.sort_function = sort;
            arguments.sort_reversed = reversed;
            assert_eq!(compare_entries(&arguments, &a, &b).0, Ordering::Less);
            assert_eq!(compare_entries(&arguments, &b, &a).0, Ordering::Greater);
        }
    }
}

#[test]
fn reverse_mirrors_the_sort_key() {
    let a = file("d/apple", 3);
    let b = file("d/Banana", 7);
    let mut forward = Arguments::default();
    let mut backward = Arguments::default();
    backward.sort_reversed = true;
    assert_eq!(compare_entries(&backward, &a, &b).0, compare_entries(&forward, &b, &a).0);
    assert_eq!(compare_entries(&forward, &a, &b).0, Ordering::Less);
    forward.sort_function = SortType::Size;
    backward.sort_function = SortType::Size;
    assert_eq!(compare_entries(&backward, &a, &b).0, compare_entries(&forward, &b, &a).0);
    assert_eq!(compare_entries(&forward, &a, &b).0, Ordering::Greater);
}

#[test]
fn hidden_filter_is_idempotent() {
    let once = filter_hidden(sample(), false);
    assert_eq!(names(&once), vec!["b.txt", "A.txt", "zzz"]);
    let twice = filter_hidden(once.clone(), false);
    assert_eq!(names(&twice), names(&once));
    let all = filter_hidden(sample(), true);
    assert_eq!(all.len(), 4);
    assert_eq!(filter_hidden(all, true).len(), 4);
}

#[test]
fn entries_without_a_name_are_kept() {
    let e = Entry::new(String::from(".."), data(EntryKind::Directory, 0));
    assert!(e.name.is_none());
    assert!(!e.is_hidden());
    assert_eq!(filter_hidden(vec![e], false).len(), 1);
}

#[test]
fn name_sort_folds_ascii_case() {
    let a = file("d/alpha", 0);
    let b = file("d/BETA", 0);
    assert_eq!(SortName.sort(&a, &b), Ok(Ordering::Less));
    assert_eq!(SortName.sort(&b, &a), Ok(Ordering::Greater));
    assert_eq!(SortName.sort(&file("d/X", 0), &file("d/x", 0)), Ok(Ordering::Equal));
}

#[test]
fn size_sort_is_largest_first() {
    assert_eq!(SortSize.sort(&file("a", 5), &file("b", 9)), Ok(Ordering::Greater));
    assert_eq!(SortSize.sort(&file("a", 9), &file("b", 5)), Ok(Ordering::Less));
}

#[test]
fn time_sorts_are_newest_first() {
    let mut old = file("old", 0);
    let mut new = file("new", 0);
    old.data.modified = Some(Timestamp { seconds: 100, nanos: 0 });
    new.data.modified = Some(Timestamp { seconds: 100, nanos: 5 });
    assert_eq!(SortModified.sort(&new, &old), Ok(Ordering::Less));
    assert_eq!(SortCreated.sort(&new, &old), Err(MissingTime::Created));
    old.data.created = Some(Timestamp { seconds: 1, nanos: 0 });
    new.data.created = Some(Timestamp { seconds: 2, nanos: 0 });
    assert_eq!(SortCreated.sort(&old, &new), Ok(Ordering::Greater));
}

#[test]
fn missing_times_are_counted_and_taken_as_equal() {
    let mut arguments = Arguments::default();
    arguments.sort_function = SortType::Created;
    let (sorted, failures) = entries_list(&arguments, vec![file("a", 1), file("b", 2), file("c", 3)]);
    assert_eq!(sorted.len(), 3);
    assert!(failures > 0);
    let (order, failure) = compare_entries(&arguments, &file("a", 1), &file("b", 2));
    assert_eq!(order, Ordering::Equal);
    assert_eq!(failure, Some(MissingTime::Created));
}

#[test]
fn hoists_partition_entries() {
    let link = Entry::new(String::from("d/l"), data(EntryKind::Symlink, 0));
    let plain = file("d/f", 0);
    let hidden = file("d/.f", 0);
    assert_eq!(HoistSymlinks.sort(&link, &plain), Ok(Ordering::Less));
    assert_eq!(HoistSymlinks.sort(&plain, &plain), Ok(Ordering::Equal));
    assert_eq!(HoistHidden.sort(&plain, &hidden), Ok(Ordering::Greater));
    assert_eq!(HoistDirectories.sort(&plain, &dir("d/x")), Ok(Ordering::Greater));
    assert_eq!(HoistType::Nothing.sort(&plain, &dir("d/x")), Ok(Ordering::Equal));
}

#[test]
fn one_missing_time_is_reported() {
    let mut arguments = Arguments::default();
    arguments.sort_function = SortType::Created;
    let dated = |path: &str, seconds: i64| {
        let mut e = file(path, 0);
        e.data.created = Some(Timestamp { seconds, nanos: 0 });
        e
    };
    let (sorted, failures) = entries_list(&arguments, vec![dated("a", 1), dated("b", 3), dated("c", 2)]);
    assert_eq!(failures, 0);
    assert_eq!(names(&sorted), vec!["b", "c", "a"]);
    let (_, failures) = entries_list(&arguments, vec![dated("a", 1), file("b", 0), dated("c", 2)]);
    assert!(failures > 0);
    let (_, failures) = entries_list(&arguments, vec![file("b", 0)]);
    assert_eq!(failures, 0);
}

#[test]
fn unnamed_entries_are_not_hoisted_as_hidden() {
    let unnamed = Entry::new(String::from(".."), data(EntryKind::Directory, 0));
    let hidden = file("d/.f", 0);
    assert_eq!(HoistHidden.sort(&hidden, &unnamed), Ok(Ordering::Less));
    assert_eq!(HoistHidden.sort(&unnamed, &file("d/f", 0)), Ok(Ordering::Equal));
}

#[test]
fn hoisting_groups_do_not_depend_on_the_sort() {
    let mut keys = Vec::new();
    for sort in [SortType::Name, SortType::Size] {
        for reversed in [false, true] {
            let mut arguments = Arguments::default();
            arguments.show_hidden = true;
            arguments.hoist_function = HoistType::Hidden;
            arguments.sort_function = sort;
            arguments.sort_reversed = reversed;
            let (sorted, _) = entries_list(&arguments, sample());
            keys.push(sorted.iter().map(|e| e.is_hidden()).collect::<Vec<_>>());
        }
    }
    assert!(keys.iter().all(|k| *k == vec![true, false, false, false]));
}
