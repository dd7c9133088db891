//! The size column.
use vstd::prelude::*;
use vstd::string::StringExecFns;

use crate::arguments::{Arguments, HasColor};
use crate::entry::Entry;
use crate::style::{views, Color, Span};
use crate::text::{chars_of, decimal, decimal_string, pad_left, right_aligned, string_of};

verus! {

/// The width of the size column.
pub const WIDTH: usize = 9;

/// `1024` to the power `i`.
pub open spec fn unit(i: nat) -> nat
    decreases i,
{
    if i == 0 {
        1
    } else {
        1024 * unit((i - 1) as nat)
    }
}

/// The suffix of the `i`th unit, padded to three characters.
pub open spec fn suffix(i: nat) -> Seq<char> {
    if i == 0 {
        "B  "@
    } else if i == 1 {
        "KiB"@
    } else if i == 2 {
        "MiB"@
    } else if i == 3 {
        "GiB"@
    } else if i == 4 {
        "TiB"@
    } else if i == 5 {
        "PiB"@
    } else {
        "EiB"@
    }
}

/// The index of the largest unit that is not above `bytes` (at most six).
pub open spec fn unit_index(bytes: nat) -> nat {
    if bytes < unit(1) {
        0
    } else if bytes < unit(2) {
        1
    } else if bytes < unit(3) {
        2
    } else if bytes < unit(4) {
        3
    } else if bytes < unit(5) {
        4
    } else if bytes < unit(6) {
        5
    } else {
        6
    }
}

/// `bytes` in the `i`th unit, in tenths, rounded half up.
pub open spec fn tenths(bytes: nat, i: nat) -> nat {
    (bytes * 10 + unit(i) / 2) / unit(i)
}

/// A count of tenths with one decimal place.
pub open spec fn one_decimal(t: nat) -> Seq<char> {
    decimal(t / 10) + seq!['.'] + decimal(t % 10)
}

/// The human-readable text of a byte count: a bare integer in bytes below
/// one KiB, else the value in the largest fitting unit with one decimal.
pub open spec fn human_size(bytes: nat) -> Seq<char> {
    let i = unit_index(bytes);
    if i == 0 {
        decimal(bytes) + seq![' '] + suffix(0)
    } else {
        one_decimal(tenths(bytes, i)) + seq![' '] + suffix(i)
    }
}

/// A raw count, cut to six characters and an ellipsis where it would not fit.
pub open spec fn capped(s: Seq<char>) -> Seq<char> {
    if s.len() <= WIDTH {
        s
    } else {
        s.take(6) + "..."@
    }
}

/// The text of the size column.
pub open spec fn size_text(human_readable: bool, e: Entry) -> Seq<char> {
    if e.is_dir_spec() {
        pad_left(if human_readable { "- -  "@ } else { "-"@ }, WIDTH as nat)
    } else if human_readable {
        pad_left(human_size(e.data.len as nat), WIDTH as nat)
    } else {
        pad_left(capped(decimal(e.data.len as nat)), WIDTH as nat)
    }
}

/// The color of the size column.
pub open spec fn size_color(e: Entry) -> Color {
    if e.is_dir_spec() {
        Color::BrightBlack
    } else {
        Color::BrightGreen
    }
}

/// Displays an entry's size.
#[derive(Clone, Copy, Debug, PartialEq, Eq, Structural)]
pub struct SizeDisplay {
    /// Whether to use color.
    pub color: Option<bool>,
    /// Whether to use human-readable units.
    pub human_readable: bool,
}

impl HasColor for SizeDisplay {
    open spec fn color_spec(&self) -> Option<bool> {
        self.color
    }

    fn has_color(&self) -> (r: Option<bool>) {
        self.color
    }
}

proof fn lemma_unit_values()
    ensures
        unit(0) == 1,
        unit(1) == 1024,
        unit(2) == 1048576,
        unit(3) == 1073741824,
        unit(4) == 1099511627776,
        unit(5) == 1125899906842624,
        unit(6) == 1152921504606846976,
{
    reveal_with_fuel(unit, 7);
}

impl SizeDisplay {
    /// Creates a new `SizeDisplay`.
    pub fn new(arguments: &Arguments) -> (r: SizeDisplay)
        ensures
            r.color == arguments.color,
            r.human_readable == arguments.human_readable,
    {
        SizeDisplay { color: arguments.color, human_readable: arguments.human_readable }
    }

    /// The given text right-aligned to the column, cut with an ellipsis where
    /// a raw count would not fit; dimmed or not.
    pub fn show_aligned(&self, v: &str, dim: bool) -> (r: Span)
        ensures
            r@.0 == pad_left(
                if self.human_readable {
                    v@
                } else {
                    capped(v@)
                },
                WIDTH as nat,
            ),
            r@.1 == Some(if dim { Color::BrightBlack } else { Color::BrightGreen }),
    {
        let text = if self.human_readable || v.unicode_len() <= WIDTH {
            String::from_str(v)
        } else {
            let cs = chars_of(v);
            let mut head: Vec<char> = Vec::new();
            let mut i: usize = 0;
            while i < 6
                invariant
                    i <= 6,
                    cs@.len() > WIDTH,
                    head@ == cs@.take(i as int),
                decreases 6 - i,
            {
                head.push(cs[i]);
                i += 1;
                assert(head@ =~= cs@.take(i as int));
            }
            head.push('.');
            head.push('.');
            head.push('.');
            proof {
                reveal_strlit("...");
                assert(head@ =~= v@.take(6) + "..."@);
            }
            string_of(&head)
        };
        let aligned = right_aligned(text.as_str(), WIDTH);
        Span { text: aligned, color: Some(if dim { Color::BrightBlack } else { Color::BrightGreen }) }
    }
}

/// The `i`th unit in bytes.
fn unit_of(i: usize) -> (r: u64)
    requires
        i <= 6,
    ensures
        r == unit(i as nat),
{
    proof {
        lemma_unit_values();
    }
    if i == 0 {
        1
    } else if i == 1 {
        1024
    } else if i == 2 {
        1048576
    } else if i == 3 {
        1073741824
    } else if i == 4 {
        1099511627776
    } else if i == 5 {
        1125899906842624
    } else {
        1152921504606846976
    }
}

/// The suffix of the `i`th unit.
fn suffix_of(i: usize) -> (r: &'static str)
    requires
        i <= 6,
    ensures
        r@ == suffix(i as nat),
{
    if i == 0 {
        "B  "
    } else if i == 1 {
        "KiB"
    } else if i == 2 {
        "MiB"
    } else if i == 3 {
        "GiB"
    } else if i == 4 {
        "TiB"
    } else if i == 5 {
        "PiB"
    } else {
        "EiB"
    }
}

impl SizeDisplay {
    /// The human-readable text of a byte count, right-aligned.
    pub fn show_human_readable(&self, bytes: u64) -> (r: Span)
        ensures
            r@ == (pad_left(human_size(bytes as nat), WIDTH as nat), Some(Color::BrightGreen)),
    {
        proof {
            lemma_unit_values();
        }
        let mut i: usize = 0;
        while i < 6 && bytes >= unit_of(i + 1)
            invariant
                i <= 6,
                forall|k: nat| 1 <= k <= i ==> bytes as nat >= unit(k),
            decreases 6 - i,
        {
            i += 1;
        }
        assert(unit_index(bytes as nat) == i);
        let mut text = if i == 0 {
            decimal_string(bytes)
        } else {
            let u = unit_of(i) as u128;
            let t: u128 = ((bytes as u128) * 10 + u / 2) / u;
            proof {
                let x: int = (bytes as int) * 10 + (u as int) / 2;
                assert(x / (u as int) <= x) by (nonlinear_arith)
                    requires
                        u >= 1,
                        x >= 0,
                ;
            }
            assert(t == tenths(bytes as nat, i as nat));
            let mut s = decimal_string((t / 10) as u64);
            s.append(".");
            let d = decimal_string((t % 10) as u64);
            s.append(d.as_str());
            proof {
                reveal_strlit(".");
            }
            s
        };
        text.append(" ");
        text.append(suffix_of(i));
        proof {
            reveal_strlit(" ");
            assert(text@ =~= human_size(bytes as nat));
        }
        self.show_aligned_human(text.as_str())
    }

    fn show_aligned_human(&self, v: &str) -> (r: Span)
        ensures
            r@ == (pad_left(v@, WIDTH as nat), Some(Color::BrightGreen)),
    {
        Span { text: right_aligned(v, WIDTH), color: Some(Color::BrightGreen) }
    }

    /// Displays an entry's size: a dimmed dash for a directory, else the byte
    /// count, raw or in human-readable units.
    pub fn show(&self, entry: &Entry) -> (r: Vec<Span>)
        ensures
            views(r@) == seq![(size_text(self.human_readable, *entry), Some(size_color(*entry)))],
    {
        proof {
            reveal_strlit("-");
        }
        let piece = if entry.is_dir() {
            self.show_aligned(if self.human_readable { "- -  " } else { "-" }, true)
        } else if self.human_readable {
            self.show_human_readable(entry.data.len)
        } else {
            let digits = decimal_string(entry.data.len);
            self.show_aligned(digits.as_str(), false)
        };
        let r = vec![piece];
        assert(views(r@) =~= seq![r@[0]@]);
        r
    }
}

/// The unit chosen for a byte count is the largest whose size does not
/// exceed it: `1024^i <= bytes < 1024^(i+1)`, the top unit having no upper
/// bound.
pub proof fn lemma_unit_index_bounds(bytes: u64)
    ensures
        unit_index(bytes as nat) <= 6,
        bytes >= 1 ==> unit(unit_index(bytes as nat)) <= bytes,
        unit_index(bytes as nat) < 6 ==> bytes < unit(unit_index(bytes as nat) + 1),
{
    lemma_unit_values();
}

} // verus!
