//! The header printed above each directory's listing when several are listed.
use vstd::prelude::*;

use crate::arguments::{Arguments, HasColor};
use crate::style::{plain, span, views, Color, Span, SpanView};

verus! {

/// The header for a directory: its path, then a colon.
pub open spec fn header_spans(path: Seq<char>) -> Seq<SpanView> {
    seq![(path, Some(Color::BrightBlue)), (":"@, None)]
}

/// Displays a directory header.
#[derive(Clone, Copy, Debug, PartialEq, Eq, Structural)]
pub struct HeaderDisplay {
    /// Whether to use color.
    pub color: Option<bool>,
}

impl HasColor for HeaderDisplay {
    open spec fn color_spec(&self) -> Option<bool> {
        self.color
    }

    fn has_color(&self) -> (r: Option<bool>) {
        self.color
    }
}

impl HeaderDisplay {
    /// Creates a new `HeaderDisplay`.
    pub fn new(arguments: &Arguments) -> (r: HeaderDisplay)
        ensures
            r.color == arguments.color,
    {
        HeaderDisplay { color: arguments.color }
    }

    /// Displays the header of the directory at `path`.
    pub fn show(&self, path: &str) -> (r: Vec<Span>)
        ensures
            views(r@) == header_spans(path@),
    {
        let r = vec![span(path, Color::BrightBlue), plain(":")];
        assert(views(r@) =~= header_spans(path@));
        r
    }
}

} // verus!
