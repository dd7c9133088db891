//! The usage text: each option with its short and long spelling, its
//! description, and the values it takes.
use vstd::prelude::*;
use vstd::string::StringExecFns;

use crate::style::{extend, plain, span, views, Color, Span, SpanView};
use crate::text::{chars_of, spaces, string_of};

verus! {

/// The width that a long option and the gap after it take.
pub const GAP_WIDTH: usize = 24;

/// Where descriptions start: the indent, the short option, the dashes and the gap.
pub const DESCRIPTION_OFFSET: usize = 32;

/// The values an option takes, and the one it takes by default.
#[derive(Clone, Debug)]
pub struct HelpValues {
    pub default: String,
    pub values: Vec<String>,
}

/// An option as the usage text shows it.
#[derive(Clone, Debug)]
pub struct HelpOption {
    pub short: Option<char>,
    pub long: String,
    pub description: String,
    pub values: Option<HelpValues>,
}

/// A run of spaces, with no color.
pub open spec fn blank(n: nat) -> SpanView {
    (spaces(n), None)
}

/// The long spelling with its dashes, cut with an ellipsis where it would
/// fill the gap.
pub open spec fn long_text(long: Seq<char>) -> Seq<char> {
    if long.len() >= GAP_WIDTH {
        "--"@ + long.take(GAP_WIDTH - 4) + "..."@
    } else {
        "--"@ + long
    }
}

/// The spaces after the long spelling: at least one.
pub open spec fn gap_after(long: Seq<char>) -> nat {
    if long.len() < GAP_WIDTH - 1 {
        (GAP_WIDTH - long.len()) as nat
    } else {
        1
    }
}

/// The possible values, in bold, separated by commas.
pub open spec fn value_list(values: Seq<String>) -> Seq<SpanView>
    decreases values.len(),
{
    if values.len() == 0 {
        Seq::empty()
    } else if values.len() == 1 {
        seq![(values[0]@, Some(Color::Bold))]
    } else {
        value_list(values.drop_last()) + seq![(", "@, None), (values.last()@, Some(Color::Bold))]
    }
}

/// One line that starts under the description: a dim dash, a label in
/// italics, then what follows it.
pub open spec fn labelled(label: Seq<char>, rest: Seq<SpanView>) -> Seq<SpanView> {
    seq![
        blank(DESCRIPTION_OFFSET as nat),
        ("-"@, Some(Color::BrightBlack)),
        (" "@, None),
        (label, Some(Color::Italic)),
        (" "@, None),
    ] + rest + seq![("\n"@, None)]
}

/// The lines about an option's values: its default, then its possible
/// values where there are any.
pub open spec fn values_spans(v: HelpValues) -> Seq<SpanView> {
    labelled("Default value:"@, seq![(v.default@, Some(Color::Bold))]) + if v.values@.len() == 0 {
        Seq::empty()
    } else {
        labelled("Possible values:"@, value_list(v.values@))
    }
}

/// The lines of one option.
pub open spec fn option_spans(o: HelpOption) -> Seq<SpanView> {
    let head = match o.short {
        Some(c) => seq![("  "@, None), (seq!['-', c], Some(Color::BrightCyan)), (", "@, None)],
        None => seq![("  "@, None), blank(4)],
    };
    head + seq![
        (long_text(o.long@), Some(Color::BrightCyan)),
        blank(gap_after(o.long@)),
        (o.description@, None),
        ("\n"@, None),
    ] + match o.values {
        Some(v) => values_spans(v),
        None => Seq::empty(),
    }
}

/// A run of `n` spaces.
fn blank_span(n: usize) -> (r: Span)
    ensures
        r@ == blank(n as nat),
{
    let mut v: Vec<char> = Vec::new();
    let mut i: usize = 0;
    while i < n
        invariant
            i <= n,
            v@ == spaces(i as nat),
        decreases n - i,
    {
        v.push(' ');
        i += 1;
        assert(v@ =~= spaces(i as nat));
    }
    Span { text: string_of(&v), color: None }
}

/// The possible values of an option, separated by commas.
fn value_list_spans(values: &Vec<String>) -> (r: Vec<Span>)
    ensures
        views(r@) == value_list(values@),
{
    let mut out: Vec<Span> = Vec::new();
    let mut i: usize = 0;
    while i < values.len()
        invariant
            i <= values@.len(),
            views(out@) == value_list(values@.take(i as int)),
        decreases values@.len() - i,
    {
        let ghost before = views(out@);
        if i > 0 {
            out.push(plain(", "));
        }
        out.push(span(values[i].as_str(), Color::Bold));
        i += 1;
        proof {
            let t = values@.take(i as int);
            assert(t.drop_last() =~= values@.take(i - 1));
            assert(t.last() == values@[i - 1]);
            if i == 1 {
                assert(views(out@) =~= value_list(t));
            } else {
                assert(views(out@) =~= before + seq![(", "@, None), (t.last()@, Some(Color::Bold))]);
            }
        }
    }
    assert(values@.take(values@.len() as int) =~= values@);
    out
}

/// One labelled line under the description.
fn labelled_line(label: &str, rest: Vec<Span>) -> (r: Vec<Span>)
    ensures
        views(r@) == labelled(label@, views(rest@)),
{
    let mut out = vec![
        blank_span(DESCRIPTION_OFFSET),
        span("-", Color::BrightBlack),
        plain(" "),
        span(label, Color::Italic),
        plain(" "),
    ];
    let ghost head = views(out@);
    let ghost middle = views(rest@);
    extend(&mut out, rest);
    let ghost so_far = out@;
    let end = plain("\n");
    out.push(end);
    assert(views(out@) =~= views(so_far).push(("\n"@, None)));
    assert(views(out@) =~= labelled(label@, middle));
    out
}

/// The long spelling with its dashes, cut to fit the gap.
fn long_span(long: &str) -> (r: Span)
    ensures
        r@ == (long_text(long@), Some(Color::BrightCyan)),
{
    let cs = chars_of(long);
    let mut v: Vec<char> = vec!['-', '-'];
    let keep = if cs.len() >= GAP_WIDTH {
        GAP_WIDTH - 4
    } else {
        cs.len()
    };
    let mut i: usize = 0;
    while i < keep
        invariant
            i <= keep <= cs@.len(),
            v@ == seq!['-', '-'] + cs@.take(i as int),
        decreases keep - i,
    {
        v.push(cs[i]);
        i += 1;
        assert(v@ =~= seq!['-', '-'] + cs@.take(i as int));
    }
    if cs.len() >= GAP_WIDTH {
        v.push('.');
        v.push('.');
        v.push('.');
    }
    proof {
        reveal_strlit("--");
        reveal_strlit("...");
        assert(cs@.take(cs@.len() as int) =~= cs@);
        assert(v@ =~= long_text(long@));
    }
    Span { text: string_of(&v), color: Some(Color::BrightCyan) }
}

/// Writes the lines about an option's values, under its description: its
/// default, then its possible values where there are any.
pub fn write_help_option_values(v: &HelpValues) -> (r: Vec<Span>)
    ensures
        views(r@) == values_spans(*v),
{
    let default = vec![span(v.default.as_str(), Color::Bold)];
    assert(views(default@) =~= seq![(v.default@, Some(Color::Bold))]);
    let mut t = labelled_line("Default value:", default);
    let ghost first = views(t@);
    if v.values.len() > 0 {
        let more = labelled_line("Possible values:", value_list_spans(&v.values));
        extend(&mut t, more);
    } else {
        assert(views(t@) =~= first + Seq::<SpanView>::empty());
    }
    t
}

/// Writes one option of the usage text.
pub fn write_help_option(option: &HelpOption) -> (r: Vec<Span>)
    ensures
        views(r@) == option_spans(*option),
{
    let mut out = match option.short {
        Some(c) => vec![plain("  "), Span { text: string_of(&vec!['-', c]), color: Some(Color::BrightCyan) }, plain(", ")],
        None => vec![plain("  "), blank_span(4)],
    };
    let ghost head = views(out@);
    let n = chars_of(option.long.as_str()).len();
    let gap = if n < GAP_WIDTH - 1 {
        GAP_WIDTH - n
    } else {
        1
    };
    let line = vec![
        long_span(option.long.as_str()),
        blank_span(gap),
        Span { text: String::from_str(option.description.as_str()), color: None },
        plain("\n"),
    ];
    let ghost middle = views(line@);
    extend(&mut out, line);
    let ghost tail_start = views(out@);
    let tail = match &option.values {
        Some(v) => write_help_option_values(v),
        None => Vec::new(),
    };
    let ghost last = views(tail@);
    extend(&mut out, tail);
    proof {
        assert(views(out@) =~= head + middle + last);
        if option.values is Some {
            assert(last =~= values_spans(option.values->0));
        } else {
            assert(last =~= Seq::<SpanView>::empty());
        }
        assert(views(out@) =~= option_spans(*option));
    }
    out
}

/// The opening of the usage text: what the program is, how it is called,
/// and the heading of the options.
pub open spec fn preamble(description: Seq<char>, program: Seq<char>) -> Seq<SpanView> {
    seq![
        (description, Some(Color::Italic)),
        ("\n"@, None),
        ("\n"@, None),
        ("Usage:"@, Some(Color::Bold)),
        (" "@ + program + " [OPTIONS] [PATH...]\n\n"@, None),
        ("Options:"@, Some(Color::Bold)),
        ("\n"@, None),
    ]
}

/// The options in order; a missing one is a blank line between groups.
pub open spec fn options_spans(options: Seq<Option<HelpOption>>) -> Seq<SpanView>
    decreases options.len(),
{
    if options.len() == 0 {
        Seq::empty()
    } else {
        options_spans(options.drop_last()) + match options.last() {
            Some(o) => option_spans(o),
            None => seq![("\n"@, None)],
        }
    }
}

/// Writes the usage text.
pub fn write_help(description: &str, program: &str, options: &Vec<Option<HelpOption>>) -> (r: Vec<Span>)
    ensures
        views(r@) == preamble(description@, program@) + options_spans(options@),
{
    let mut usage = String::from_str(" ");
    usage.append(program);
    usage.append(" [OPTIONS] [PATH...]\n\n");
    let mut out = vec![
        span(description, Color::Italic),
        plain("\n"),
        plain("\n"),
        span("Usage:", Color::Bold),
        Span { text: usage, color: None },
        span("Options:", Color::Bold),
        plain("\n"),
    ];
    assert(views(out@) =~= preamble(description@, program@) + options_spans(options@.take(0)));
    let mut i: usize = 0;
    while i < options.len()
        invariant
            i <= options@.len(),
            views(out@) == preamble(description@, program@) + options_spans(options@.take(i as int)),
        decreases options@.len() - i,
    {
        let ghost before = views(out@);
        let part = match &options[i] {
            Some(o) => write_help_option(o),
            None => vec![plain("\n")],
        };
        let ghost added = views(part@);
        extend(&mut out, part);
        i += 1;
        proof {
            let t = options@.take(i as int);
            assert(t.drop_last() =~= options@.take(i - 1));
            if options@[i - 1] is None {
                assert(added =~= seq![("\n"@, None)]);
            }
            assert(views(out@) =~= preamble(description@, program@) + options_spans(t));
        }
    }
    assert(options@.take(options@.len() as int) =~= options@);
    out
}

} // verus!
