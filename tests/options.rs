use rs::arguments::{takes_value, Arguments, Flag, Step};
use rs::sort::{HoistType, SortType};

fn short(c: char) -> Flag {
    Flag::Short(c)
}

fn long(s: &str) -> Flag {
    Flag::Long(String::from(s))
}

#[test]
fn switches_set_their_fields() {
    let mut a = Arguments::default();
    assert!(matches!(a.apply(&short('A'), None), Step::Continue));
    assert!(a.show_hidden);
    assert!(matches!(a.apply(&long("show-sizes"), None), Step::Continue));
    assert!(a.show_sizes);
    assert!(matches!(a.apply(&short('L'), None), Step::Continue));
    assert!(a.show_symlinks);
    assert!(matches!(a.apply(&long("reverse"), None), Step::Continue));
    assert!(a.sort_reversed);
    assert!(matches!(a.apply(&short('U'), None), Step::Continue));
    assert!(a.human_readable);
    assert!(!a.show_owner);
}

#[test]
fn valued_options() {
    let mut a = Arguments::default();
    assert!(takes_value(&short('s')));
    assert!(!takes_value(&short('A')));
    assert!(matches!(a.apply(&long("sort"), Some("size")), Step::Continue));
    assert_eq!(a.sort_function, SortType::Size);
    assert!(matches!(a.apply(&short('H'), Some("dirs")), Step::Continue));
    assert_eq!(a.hoist_function, HoistType::Directories);
    assert!(matches!(a.apply(&long("color"), Some("never")), Step::Continue));
    assert_eq!(a.color, Some(false));
    assert!(matches!(a.apply(&long("color"), None), Step::Continue));
    assert_eq!(a.color, None);
    assert!(matches!(a.apply(&long("sort"), None), Step::Continue));
    assert_eq!(a.sort_function, SortType::Name);
}

#[test]
fn option_errors() {
    let mut a = Arguments::default();
    match a.apply(&long("sort"), Some("color")) {
        Step::Fail(m) => assert_eq!(m, "unknown sorting type: color"),
        _ => panic!("expected an error"),
    }
    match a.apply(&short('H'), Some("all")) {
        Step::Fail(m) => assert_eq!(m, "unknown hoisting type: all"),
        _ => panic!("expected an error"),
    }
    match a.apply(&short('c'), Some("maybe")) {
        Step::Fail(m) => assert_eq!(m, "unknown color choice: maybe"),
        _ => panic!("expected an error"),
    }
    match a.apply(&short('x'), None) {
        Step::Fail(m) => assert_eq!(m, "unknown argument: '-x'"),
        _ => panic!("expected an error"),
    }
    match a.apply(&long("nope"), None) {
        Step::Fail(m) => assert_eq!(m, "unknown argument: '--nope'"),
        _ => panic!("expected an error"),
    }
    assert!(matches!(a.apply(&short('h'), None), Step::Help));
    assert!(matches!(a.apply(&long("version"), None), Step::Version));
}
