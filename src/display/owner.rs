//! The owner column.
use vstd::prelude::*;

use crate::arguments::{Arguments, HasColor};
use crate::style::{views, Color, Span, SpanView};
use crate::text::{pad_left, right_aligned};

verus! {

/// The width of the column.
pub const WIDTH: usize = 8;

/// The owner column for a looked-up owner name, or `unknown` where the
/// lookup found none.
pub open spec fn owner_spans(owner: Option<Seq<char>>) -> Seq<SpanView> {
    let name = match owner {
        Some(n) => n,
        None => "unknown"@,
    };
    seq![(pad_left(name, WIDTH as nat), Some(Color::BrightGreen))]
}

/// Displays an entry's owner.
#[derive(Clone, Copy, Debug, PartialEq, Eq, Structural)]
pub struct OwnerDisplay {
    /// Whether to use color.
    pub color: Option<bool>,
}

impl HasColor for OwnerDisplay {
    open spec fn color_spec(&self) -> Option<bool> {
        self.color
    }

    fn has_color(&self) -> (r: Option<bool>) {
        self.color
    }
}

impl OwnerDisplay {
    /// Creates a new `OwnerDisplay`.
    pub fn new(arguments: &Arguments) -> (r: OwnerDisplay)
        ensures
            r.color == arguments.color,
    {
        OwnerDisplay { color: arguments.color }
    }

    /// Displays the name of an entry's owner, right-aligned; `unknown` where
    /// it could not be resolved.
    pub fn show(&self, owner: Option<&str>) -> (r: Vec<Span>)
        ensures
            views(r@) == owner_spans(
                match owner {
                    Some(n) => Some(n@),
                    None => None,
                },
            ),
    {
        let text = match owner {
            Some(n) => right_aligned(n, WIDTH),
            None => right_aligned("unknown", WIDTH),
        };
        let r = vec![Span { text, color: Some(Color::BrightGreen) }];
        assert(views(r@) =~= owner_spans(
            match owner {
                Some(n) => Some(n@),
                None => None,
            },
        ));
        r
    }
}

} // verus!
