use rs::help::{write_help, write_help_option, write_help_option_values, HelpOption, HelpValues};
use rs::style::{paint_spans, Color};

fn option(short: Option<char>, long: &str, description: &str, values: Option<(&str, &[&str])>) -> HelpOption {
    HelpOption {
        short,
        long: long.to_string(),
        description: description.to_string(),
        values: values.map(|(default, values)| HelpValues {
            default: default.to_string(),
            values: values.iter().map(|v| v.to_string()).collect(),
        }),
    }
}

#[test]
fn option_without_values() {
    let o = option(Some('A'), "all", "Display hidden files.", None);
    let text = paint_spans(&write_help_option(&o), false);
    assert_eq!(text, format!("  -A, --all{}Display hidden files.\n", " ".repeat(21)));
}

#[test]
fn option_with_values() {
    let o = option(Some('s'), "sort", "Sort.", Some(("name", &["name", "size"])));
    let text = paint_spans(&write_help_option(&o), false);
    let pad = " ".repeat(32);
    let expected = format!(
        "  -s, --sort{}Sort.\n{pad}- Default value: name\n{pad}- Possible values: name, size\n",
        " ".repeat(20)
    );
    assert_eq!(text, expected);
}

#[test]
fn long_options_are_cut_and_short_ones_may_be_missing() {
    let o = option(None, "an-exceedingly-long-option-name", "X.", Some(("a", &[])));
    let text = paint_spans(&write_help_option(&o), false);
    let pad = " ".repeat(32);
    assert_eq!(text, format!("      --an-exceedingly-long-... X.\n{pad}- Default value: a\n"));
}

#[test]
fn value_lines() {
    let values = HelpValues {
        default: String::from("auto"),
        values: vec![String::from("auto"), String::from("always"), String::from("never")],
    };
    let spans = write_help_option_values(&values);
    let pad = " ".repeat(32);
    assert_eq!(
        paint_spans(&spans, false),
        format!("{pad}- Default value: auto\n{pad}- Possible values: auto, always, never\n")
    );
    assert!(spans.iter().any(|s| s.text == "always" && s.color == Some(Color::Bold)));
    let bare = HelpValues { default: String::from("x"), values: Vec::new() };
    assert_eq!(paint_spans(&write_help_option_values(&bare), false), format!("{pad}- Default value: x\n"));
}

#[test]
fn whole_usage_text() {
    let options = vec![Some(option(Some('h'), "help", "Help.", None)), None, Some(option(Some('r'), "reverse", "Reverse.", None))];
    let text = paint_spans(&write_help("Lists.", "rs", &options), false);
    let expected = format!(
        "Lists.\n\nUsage: rs [OPTIONS] [PATH...]\n\nOptions:\n  -h, --help{}Help.\n\n  -r, --reverse{}Reverse.\n",
        " ".repeat(20),
        " ".repeat(17)
    );
    assert_eq!(text, expected);
    let colored = paint_spans(&write_help("Lists.", "rs", &options), true);
    assert!(colored.contains("\u{1b}["));
    assert!(colored.contains("Usage:"));
}
