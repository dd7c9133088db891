//! Styled text: a rendered column is a sequence of spans, each with an
//! optional color, which are painted into one string at the end.
use owo_colors::OwoColorize;
use vstd::prelude::*;
use vstd::string::StringExecFns;

verus! {

/// The colors the renderers use, and the two text effects of the usage text.
#[derive(Clone, Copy, Debug, PartialEq, Eq, Structural)]
pub enum Color {
    Bold,
    Italic,
    Blue,
    BrightBlue,
    Cyan,
    BrightCyan,
    Green,
    BrightGreen,
    White,
    BrightBlack,
    BrightRed,
    BrightYellow,
    BrightMagenta,
}

/// The name by which the color is looked up.
pub open spec fn color_name(c: Color) -> Seq<char> {
    match c {
        Color::Bold => "bold"@,
        Color::Italic => "italic"@,
        Color::Blue => "blue"@,
        Color::BrightBlue => "bright blue"@,
        Color::Cyan => "cyan"@,
        Color::BrightCyan => "bright cyan"@,
        Color::Green => "green"@,
        Color::BrightGreen => "bright green"@,
        Color::White => "white"@,
        Color::BrightBlack => "bright black"@,
        Color::BrightRed => "bright red"@,
        Color::BrightYellow => "bright yellow"@,
        Color::BrightMagenta => "bright magenta"@,
    }
}

impl Color {
    /// The name by which the color is looked up.
    pub fn name(&self) -> (r: &'static str)
        ensures
            r@ == color_name(*self),
    {
        match self {
            Color::Bold => "bold",
            Color::Italic => "italic",
            Color::Blue => "blue",
            Color::BrightBlue => "bright blue",
            Color::Cyan => "cyan",
            Color::BrightCyan => "bright cyan",
            Color::Green => "green",
            Color::BrightGreen => "bright green",
            Color::White => "white",
            Color::BrightBlack => "bright black",
            Color::BrightRed => "bright red",
            Color::BrightYellow => "bright yellow",
            Color::BrightMagenta => "bright magenta",
        }
    }
}

/// A piece of text with an optional color.
#[derive(Clone, Debug)]
pub struct Span {
    pub text: String,
    pub color: Option<Color>,
}

/// What a span is: its characters and its color.
pub type SpanView = (Seq<char>, Option<Color>);

impl View for Span {
    type V = SpanView;

    open spec fn view(&self) -> SpanView {
        (self.text@, self.color)
    }
}

/// The views of a sequence of spans.
pub open spec fn views(s: Seq<Span>) -> Seq<SpanView> {
    s.map_values(|x: Span| x@)
}

/// A span of `text` in `color`.
pub fn span(text: &str, color: Color) -> (r: Span)
    ensures
        r@ == (text@, Some(color)),
{
    Span { text: String::from_str(text), color: Some(color) }
}

/// A span of `text` with no color.
pub fn plain(text: &str) -> (r: Span)
    ensures
        r@ == (text@, None::<Color>),
{
    Span { text: String::from_str(text), color: None }
}

/// The text with the escape codes of the named color around it.
pub uninterp spec fn painted(text: Seq<char>, color: Seq<char>) -> Seq<char>;

/// Relies on owo_colors: `DynColors::from_str` looks the color up by its
/// name, and `OwoColorize::color` wraps the text in that color's escape codes.
/// Only the names of `Color` are passed: none starts with `#`, which
/// `from_str` would slice as a hexadecimal code.
#[verifier::external_body]
fn paint(text: &str, color: &str) -> (r: String)
    requires
        exists|c: Color| color@ == color_name(c),
    ensures
        r@ == painted(text@, color@),
{
    match color.parse::<owo_colors::DynColors>() {
        Ok(c) => format!("{}", text.color(c)),
        Err(_) => String::from(text),
    }
}

/// The text with the escape codes of bold type around it.
pub uninterp spec fn in_bold(text: Seq<char>) -> Seq<char>;

/// The text with the escape codes of italic type around it.
pub uninterp spec fn in_italics(text: Seq<char>) -> Seq<char>;

/// Relies on owo_colors' `OwoColorize::bold`: the text in bold type.
#[verifier::external_body]
fn embolden(text: &str) -> (r: String)
    ensures
        r@ == in_bold(text@),
{
    format!("{}", text.bold())
}

/// Relies on owo_colors' `OwoColorize::italic`: the text in italic type.
#[verifier::external_body]
fn italicize(text: &str) -> (r: String)
    ensures
        r@ == in_italics(text@),
{
    format!("{}", text.italic())
}

/// What a span shows: its text, painted where color is on and it has one.
pub open spec fn shown(s: SpanView, color: bool) -> Seq<char> {
    match s.1 {
        Some(Color::Bold) if color => in_bold(s.0),
        Some(Color::Italic) if color => in_italics(s.0),
        Some(c) if color => painted(s.0, color_name(c)),
        _ => s.0,
    }
}

/// What a sequence of spans shows, one after another.
pub open spec fn shown_all(s: Seq<SpanView>, color: bool) -> Seq<char>
    decreases s.len(),
{
    if s.len() == 0 {
        Seq::empty()
    } else {
        shown_all(s.drop_last(), color) + shown(s.last(), color)
    }
}

/// Paints a span.
pub fn paint_span(s: &Span, color: bool) -> (r: String)
    ensures
        r@ == shown(s@, color),
{
    match s.color {
        Some(Color::Bold) if color => embolden(s.text.as_str()),
        Some(Color::Italic) if color => italicize(s.text.as_str()),
        Some(c) if color => {
            let name = c.name();
            assert(name@ == color_name(c));
            paint(s.text.as_str(), name)
        },
        _ => String::from_str(s.text.as_str()),
    }
}

/// Paints a sequence of spans into one string, in color or not.
pub fn paint_spans(spans: &Vec<Span>, color: bool) -> (r: String)
    ensures
        r@ == shown_all(views(spans@), color),
{
    let mut out = String::new();
    let mut i: usize = 0;
    while i < spans.len()
        invariant
            i <= spans@.len(),
            out@ == shown_all(views(spans@.take(i as int)), color),
        decreases spans@.len() - i,
    {
        let piece = paint_span(&spans[i], color);
        out.append(piece.as_str());
        i += 1;
        assert(views(spans@.take(i as int)).drop_last() =~= views(spans@.take(i - 1)));
    }
    assert(spans@.take(spans@.len() as int) =~= spans@);
    out
}

/// Appends the spans of `more` to `out`.
pub fn extend(out: &mut Vec<Span>, more: Vec<Span>)
    ensures
        views(final(out)@) == views(old(out)@) + views(more@),
{
    let mut m = more;
    out.append(&mut m);
    assert(views(final(out)@) =~= views(old(out)@) + views(more@));
}

} // verus!
