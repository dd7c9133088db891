//! Character-level helpers shared by the renderers and the comparators.
use core::cmp::Ordering;

use vstd::prelude::*;
use vstd::string::StringExecFns;

verus! {

broadcast use vstd::string::group_string_axioms;

/// The characters of `s`, one by one.
pub fn chars_of(s: &str) -> (r: Vec<char>)
    ensures
        r@ == s@,
{
    let mut r: Vec<char> = Vec::new();
    for c in it: s.chars()
        invariant
            r@ == it.seq().take(it.index() as int),
    {
        r.push(c);
    }
    r
}

/// Relies on std's `String: FromIterator<char>`: the string holds the given
/// characters in order.
#[verifier::external_body]
pub fn string_of(v: &Vec<char>) -> (r: String)
    ensures
        r@ == v@,
{
    String::from_iter(v.iter())
}


/// Whether `s` starts with a dot.
pub fn starts_with_dot(s: &str) -> (r: bool)
    ensures
        r == crate::entry::dotted(s@),
{
    let n = s.unicode_len();
    n > 0 && s.get_char(0) == '.'
}


/// A character with ASCII upper case turned to lower case; others unchanged.
pub open spec fn lower_char(c: char) -> char {
    if 'A' <= c && c <= 'Z' {
        ((c as u8) + 32u8) as char
    } else {
        c
    }
}

/// A string with ASCII upper case turned to lower case.
pub open spec fn lower(s: Seq<char>) -> Seq<char> {
    s.map_values(|c: char| lower_char(c))
}

/// The ASCII lower case of one character.
pub fn ascii_lower(c: char) -> (r: char)
    ensures
        r == lower_char(c),
{
    if 'A' <= c && c <= 'Z' {
        ((c as u8) + 32u8) as char
    } else {
        c
    }
}

/// The ASCII lower case of a string, as characters.
pub fn lowered(s: &str) -> (r: Vec<char>)
    ensures
        r@ == lower(s@),
{
    let cs = chars_of(s);
    let mut r: Vec<char> = Vec::new();
    let mut i: usize = 0;
    while i < cs.len()
        invariant
            i <= cs@.len(),
            r@ == lower(cs@.take(i as int)),
        decreases cs@.len() - i,
    {
        r.push(ascii_lower(cs[i]));
        i += 1;
        assert(lower(cs@.take(i as int)) =~= lower(cs@.take(i - 1)).push(lower_char(cs@[i - 1])));
    }
    assert(cs@.take(i as int) =~= cs@);
    r
}

/// Lexicographic order by code point, from index `i` on (both strings agree
/// before `i`).
pub open spec fn lex_from(a: Seq<char>, b: Seq<char>, i: nat) -> Ordering
    decreases a.len() - i,
{
    if i >= a.len() {
        if i >= b.len() {
            Ordering::Equal
        } else {
            Ordering::Less
        }
    } else if i >= b.len() {
        Ordering::Greater
    } else if (a[i as int] as u32) < (b[i as int] as u32) {
        Ordering::Less
    } else if (a[i as int] as u32) > (b[i as int] as u32) {
        Ordering::Greater
    } else {
        lex_from(a, b, i + 1)
    }
}

/// Lexicographic order of two strings by code point, which is also the
/// order of their UTF-8 bytes.
pub open spec fn lex(a: Seq<char>, b: Seq<char>) -> Ordering {
    lex_from(a, b, 0)
}

/// The opposite of an ordering.
pub open spec fn flip(o: Ordering) -> Ordering {
    match o {
        Ordering::Less => Ordering::Greater,
        Ordering::Equal => Ordering::Equal,
        Ordering::Greater => Ordering::Less,
    }
}

/// Swapping the arguments of the lexicographic order flips it.
pub proof fn lemma_lex_from_flip(a: Seq<char>, b: Seq<char>, i: nat)
    ensures
        lex_from(b, a, i) == flip(lex_from(a, b, i)),
    decreases a.len() - i,
{
    if i < a.len() && i < b.len() && (a[i as int] as u32) == (b[i as int] as u32) {
        lemma_lex_from_flip(a, b, i + 1);
    }
}

/// The lexicographic order is transitive.
pub proof fn lemma_lex_from_trans(a: Seq<char>, b: Seq<char>, c: Seq<char>, i: nat)
    requires
        lex_from(a, b, i) != Ordering::Greater,
        lex_from(b, c, i) != Ordering::Greater,
    ensures
        lex_from(a, c, i) != Ordering::Greater,
    decreases a.len() - i,
{
    if i < a.len() && i < b.len() && i < c.len() && (a[i as int] as u32) == (b[i as int] as u32)
        && (b[i as int] as u32) == (c[i as int] as u32) {
        lemma_lex_from_trans(a, b, c, i + 1);
    }
}

/// Compares two character sequences lexicographically by code point.
pub fn lex_compare(a: &Vec<char>, b: &Vec<char>) -> (r: Ordering)
    ensures
        r == lex(a@, b@),
{
    let mut i: usize = 0;
    while i < a.len() && i < b.len()
        invariant
            i <= a@.len(),
            i <= b@.len(),
            lex(a@, b@) == lex_from(a@, b@, i as nat),
        decreases a@.len() - i,
    {
        let x = a[i] as u32;
        let y = b[i] as u32;
        if x < y {
            return Ordering::Less;
        } else if x > y {
            return Ordering::Greater;
        }
        i += 1;
    }
    if i >= a.len() {
        if i >= b.len() {
            Ordering::Equal
        } else {
            Ordering::Less
        }
    } else {
        Ordering::Greater
    }
}


/// The decimal digit for `d` (below ten).
pub open spec fn digit(d: nat) -> char {
    ((d + 48) as u8) as char
}

/// The decimal representation of `n`, without leading zeros.
pub open spec fn decimal(n: nat) -> Seq<char>
    decreases n,
{
    if n < 10 {
        seq![digit(n)]
    } else {
        decimal(n / 10).push(digit(n % 10))
    }
}

/// Relies on itoa's `Buffer::format`: the decimal representation of an integer.
#[verifier::external_body]
pub fn decimal_string(n: u64) -> (r: String)
    ensures
        r@ == decimal(n as nat),
{
    String::from(itoa::Buffer::new().format(n))
}

/// `n` copies of `c`.
pub open spec fn fill(n: nat, c: char) -> Seq<char> {
    Seq::new(n, |i: int| c)
}

/// `n` spaces.
pub open spec fn spaces(n: nat) -> Seq<char> {
    fill(n, ' ')
}

/// `s` right-aligned to `width` characters: copies of `c` in front, where
/// it is shorter.
pub open spec fn pad_with(s: Seq<char>, width: nat, c: char) -> Seq<char> {
    if s.len() < width {
        fill((width - s.len()) as nat, c) + s
    } else {
        s
    }
}

/// `s` right-aligned to `width` characters: spaces in front, where it is shorter.
pub open spec fn pad_left(s: Seq<char>, width: nat) -> Seq<char> {
    pad_with(s, width, ' ')
}

/// `s` right-aligned to `width` characters with copies of `c` in front.
pub fn aligned_with(s: &str, width: usize, c: char) -> (r: String)
    ensures
        r@ == pad_with(s@, width as nat, c),
{
    let cs = chars_of(s);
    if cs.len() >= width {
        return string_of(&cs);
    }
    let count = width - cs.len();
    let mut out: Vec<char> = Vec::new();
    let mut i: usize = 0;
    while i < count
        invariant
            i <= count,
            out@ == fill(i as nat, c),
        decreases count - i,
    {
        out.push(c);
        i += 1;
        assert(out@ =~= fill(i as nat, c));
    }
    let mut j: usize = 0;
    while j < cs.len()
        invariant
            j <= cs@.len(),
            out@ == fill(count as nat, c) + cs@.take(j as int),
        decreases cs@.len() - j,
    {
        out.push(cs[j]);
        j += 1;
        assert(out@ =~= fill(count as nat, c) + cs@.take(j as int));
    }
    assert(cs@.take(cs@.len() as int) =~= cs@);
    string_of(&out)
}

/// `s` right-aligned to `width` characters.
pub fn right_aligned(s: &str, width: usize) -> (r: String)
    ensures
        r@ == pad_left(s@, width as nat),
{
    aligned_with(s, width, ' ')
}


/// Whether two strings hold the same characters.
pub fn same_text(a: &str, b: &str) -> (r: bool)
    ensures
        r == (a@ == b@),
{
    let x = chars_of(a);
    let y = chars_of(b);
    if x.len() != y.len() {
        return false;
    }
    let mut i: usize = 0;
    while i < x.len()
        invariant
            i <= x@.len(),
            x@ == a@,
            y@ == b@,
            x@.len() == y@.len(),
            x@.take(i as int) == y@.take(i as int),
        decreases x@.len() - i,
    {
        if x[i] != y[i] {
            assert(x@[i as int] != y@[i as int]);
            return false;
        }
        i += 1;
        assert(x@.take(i as int) =~= x@.take(i - 1).push(x@[i - 1]));
        assert(y@.take(i as int) =~= y@.take(i - 1).push(y@[i - 1]));
    }
    assert(x@ =~= x@.take(i as int));
    assert(y@ =~= y@.take(i as int));
    true
}

} // verus!
