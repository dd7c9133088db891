//! The filtering and ordering pipeline: hidden entries out unless asked for,
//! then the composite order (hoisting first, then the sort key, which may be
//! reversed).
use core::cmp::Ordering;

use vstd::prelude::*;

use crate::arguments::Arguments;
use crate::entry::Entry;
use crate::sort::{first_if, HoistType, MissingTime, SortType, Sorter};
use crate::text::{flip, lemma_lex_from_flip, lemma_lex_from_trans, lower};

verus! {

broadcast use vstd::seq_lib::group_to_multiset_ensures;

/// Whether an entry stays in a listing under the show-hidden policy.
pub open spec fn kept(show_hidden: bool, e: Entry) -> bool {
    show_hidden || !e.hidden()
}

/// The entries that stay in a listing, in their order.
pub open spec fn visible(show_hidden: bool, entries: Seq<Entry>) -> Seq<Entry> {
    entries.filter(|e: Entry| kept(show_hidden, e))
}

/// Drops every hidden entry unless `show_hidden` is set.
pub fn filter_hidden(entries: Vec<Entry>, show_hidden: bool) -> (r: Vec<Entry>)
    ensures
        r@ == visible(show_hidden, entries@),
{
    let ghost all = entries@;
    let mut r: Vec<Entry> = Vec::new();
    for e in it: entries.into_iter()
        invariant
            it.seq() == all,
            r@ == visible(show_hidden, all.take(it.index() as int)),
    {
        proof {
            let i = it.index() as int;
            assert(all.take(i + 1).drop_last() =~= all.take(i));
            assert(all.take(i + 1).last() == e);
            reveal(Seq::filter);
        }
        if show_hidden || !e.is_hidden() {
            r.push(e);
        }
    }
    proof {
        assert(all.take(all.len() as int) =~= all);
    }
    r
}

/// A comparator's result, with a failure read as equality.
pub open spec fn or_equal(r: Result<Ordering, MissingTime>) -> Ordering {
    match r {
        Ok(o) => o,
        Err(_) => Ordering::Equal,
    }
}

/// The composite order: the hoisting partition decides where it tells the
/// entries apart; otherwise the sort key does, reversed if asked.
#[verifier::opaque]
pub open spec fn composite(
    hoist: HoistType,
    sort: SortType,
    reverse: bool,
    a: Entry,
    b: Entry,
) -> Ordering {
    let h = or_equal(hoist.sort_spec(&a, &b));
    if h != Ordering::Equal {
        h
    } else {
        let s = or_equal(sort.sort_spec(&a, &b));
        if reverse {
            flip(s)
        } else {
            s
        }
    }
}

/// The composite order that a configuration asks for.
pub open spec fn arranged(arguments: &Arguments, a: Entry, b: Entry) -> Ordering {
    composite(arguments.hoist_function, arguments.sort_function, arguments.sort_reversed, a, b)
}

/// Whether the sort key has what it needs to compare `a` and `b`.
pub open spec fn comparable(sort: SortType, a: Entry, b: Entry) -> bool {
    sort.sort_spec(&a, &b) is Ok
}

/// Compares two entries by the composite order of `arguments`; the second
/// part names the time that the sort key lacked, if it did.
pub fn compare_entries(arguments: &Arguments, a: &Entry, b: &Entry) -> (r: (
    Ordering,
    Option<MissingTime>,
))
    ensures
        r.0 == arranged(arguments, *a, *b),
        r.1 is None <==> comparable(arguments.sort_function, *a, *b),
        r.1 is Some ==> arguments.sort_function.sort_spec(a, b) == Err::<Ordering, MissingTime>(
            r.1->0,
        ),
{
    proof {
        reveal(composite);
    }
    let hoisted = match arguments.hoist_function.sort(a, b) {
        Ok(o) => o,
        Err(_) => Ordering::Equal,
    };
    let (sorted, failure) = match arguments.sort_function.sort(a, b) {
        Ok(o) => (o, None),
        Err(m) => (Ordering::Equal, Some(m)),
    };
    let sorted = if arguments.sort_reversed {
        match sorted {
            Ordering::Less => Ordering::Greater,
            Ordering::Equal => Ordering::Equal,
            Ordering::Greater => Ordering::Less,
        }
    } else {
        sorted
    };
    let order = match hoisted {
        Ordering::Equal => sorted,
        other => other,
    };
    (order, failure)
}

/// Swapping two entries flips each hoisting partition.
pub proof fn lemma_hoist_flip(hoist: HoistType, a: Entry, b: Entry)
    ensures
        or_equal(hoist.sort_spec(&b, &a)) == flip(or_equal(hoist.sort_spec(&a, &b))),
{
}

/// Swapping two entries flips each sort key (a failure stays a failure).
pub proof fn lemma_sort_flip(sort: SortType, a: Entry, b: Entry)
    ensures
        or_equal(sort.sort_spec(&b, &a)) == flip(or_equal(sort.sort_spec(&a, &b))),
        comparable(sort, a, b) == comparable(sort, b, a),
{
    if sort == SortType::Name {
        lemma_lex_from_flip(lower(a.path@), lower(b.path@), 0);
    }
}

/// Swapping two entries flips the composite order.
pub proof fn lemma_composite_flip(hoist: HoistType, sort: SortType, reverse: bool, a: Entry, b: Entry)
    ensures
        composite(hoist, sort, reverse, b, a) == flip(composite(hoist, sort, reverse, a, b)),
{
    reveal(composite);
    lemma_hoist_flip(hoist, a, b);
    lemma_sort_flip(sort, a, b);
}

/// Hoisting takes priority: where the hoisting partition tells two entries
/// apart, the composite order is that partition's, whatever the sort key and
/// the reverse flag.
pub proof fn lemma_hoist_precedence(hoist: HoistType, sort: SortType, reverse: bool, a: Entry, b: Entry)
    requires
        or_equal(hoist.sort_spec(&a, &b)) != Ordering::Equal,
    ensures
        composite(hoist, sort, reverse, a, b) == or_equal(hoist.sort_spec(&a, &b)),
{
    reveal(composite);
}

/// Reversal mirrors the sort key: where the hoisting partition does not tell
/// two entries apart, comparing them reversed is comparing them swapped.
pub proof fn lemma_reverse_symmetry(hoist: HoistType, sort: SortType, a: Entry, b: Entry)
    requires
        or_equal(hoist.sort_spec(&a, &b)) == Ordering::Equal,
    ensures
        composite(hoist, sort, true, a, b) == composite(hoist, sort, false, b, a),
{
    reveal(composite);
    lemma_hoist_flip(hoist, a, b);
    lemma_sort_flip(sort, a, b);
}

/// Filtering twice under one policy is filtering once.
pub proof fn lemma_filter_idempotent(show_hidden: bool, entries: Seq<Entry>)
    ensures
        visible(show_hidden, visible(show_hidden, entries)) == visible(show_hidden, entries),
    decreases entries.len(),
{
    reveal(Seq::filter);
    if entries.len() > 0 {
        lemma_filter_idempotent(show_hidden, entries.drop_last());
        let inner = visible(show_hidden, entries.drop_last());
        if kept(show_hidden, entries.last()) {
            assert(inner.push(entries.last()).drop_last() =~= inner);
        }
    }
}

/// Each entry is in order with the next one.
#[verifier::opaque]
pub open spec fn in_order(arguments: &Arguments, s: Seq<Entry>) -> bool {
    forall|i: int| 0 <= i < s.len() - 1 ==> arranged(arguments, #[trigger] s[i], s[i + 1]) != Ordering::Greater
}

/// The sort key has what it needs for every pair of these entries.
#[verifier::opaque]
pub open spec fn all_comparable(sort: SortType, s: Seq<Entry>) -> bool {
    forall|x: Entry, y: Entry| s.contains(x) && s.contains(y) ==> #[trigger] comparable(sort, x, y)
}

/// Whether an entry lacks the time that the sort key needs.
pub open spec fn lacks_key(sort: SortType, e: Entry) -> bool {
    ||| sort == SortType::Created && e.data.created is None
    ||| sort == SortType::Modified && e.data.modified is None
}

/// Where `e` goes in `sorted`: after every entry that does not follow it and
/// before the first that does. Also counts the comparisons on which the sort
/// key failed.
fn insertion_point(arguments: &Arguments, sorted: &Vec<Entry>, e: &Entry) -> (r: (usize, usize))
    ensures
        r.0 <= sorted@.len(),
        r.0 > 0 ==> arranged(arguments, sorted@[r.0 - 1], *e) != Ordering::Greater,
        r.0 < sorted@.len() ==> arranged(arguments, sorted@[r.0 as int], *e) == Ordering::Greater,
        r.1 <= sorted@.len(),
        r.1 > 0 ==> exists|i: int|
            0 <= i < sorted@.len() && !comparable(arguments.sort_function, #[trigger] sorted@[i], *e),
        sorted@.len() > 0 && lacks_key(arguments.sort_function, *e) ==> r.1 > 0,
        sorted@.len() == 1 && lacks_key(arguments.sort_function, sorted@[0]) ==> r.1 > 0,
{
    let n = sorted.len();
    let mut lo: usize = 0;
    let mut hi: usize = n;
    let mut fails: usize = 0;
    let ghost mut compared = false;
    while lo < hi
        invariant
            n == sorted@.len(),
            lo <= hi <= sorted@.len(),
            lo > 0 ==> arranged(arguments, sorted@[lo - 1], *e) != Ordering::Greater,
            hi < sorted@.len() ==> arranged(arguments, sorted@[hi as int], *e) == Ordering::Greater,
            fails + (hi - lo) <= sorted@.len(),
            compared || (lo == 0 && hi == sorted@.len()),
            compared && lacks_key(arguments.sort_function, *e) ==> fails > 0,
            compared && sorted@.len() == 1 && lacks_key(arguments.sort_function, sorted@[0]) ==> fails
                > 0,
            fails > 0 ==> exists|i: int|
                0 <= i < sorted@.len() && !comparable(arguments.sort_function, #[trigger] sorted@[i], *e),
        decreases hi - lo,
    {
        let mid = lo + (hi - lo) / 2;
        let (order, failure) = compare_entries(arguments, &sorted[mid], e);
        proof {
            if lacks_key(arguments.sort_function, *e) || lacks_key(arguments.sort_function, sorted@[mid as int]) {
                assert(!comparable(arguments.sort_function, sorted@[mid as int], *e));
            }
            compared = true;
        }
        if failure.is_some() {
            fails = fails + 1;
            assert(!comparable(arguments.sort_function, sorted@[mid as int], *e));
        }
        if matches!(order, Ordering::Greater) {
            hi = mid;
        } else {
            lo = mid + 1;
        }
    }
    (lo, fails)
}

/// Putting `e` between an entry that does not follow it and one that does
/// keeps a sequence in order.
proof fn lemma_insert_in_order(arguments: &Arguments, before: Seq<Entry>, p: int, e: Entry)
    requires
        in_order(arguments, before),
        0 <= p <= before.len(),
        p > 0 ==> arranged(arguments, before[p - 1], e) != Ordering::Greater,
        p < before.len() ==> arranged(arguments, before[p], e) == Ordering::Greater,
    ensures
        in_order(arguments, before.insert(p, e)),
{
    reveal(in_order);
    let now = before.insert(p, e);
    before.insert_ensures(p, e);
    if p < before.len() {
        lemma_composite_flip(
            arguments.hoist_function,
            arguments.sort_function,
            arguments.sort_reversed,
            before[p],
            e,
        );
    }
    assert forall|k: int| 0 <= k < now.len() - 1 implies arranged(
        arguments,
        #[trigger] now[k],
        now[k + 1],
    ) != Ordering::Greater by {
        if k < p - 1 {
            assert(now[k] == before[k]);
            assert(now[k + 1] == before[k + 1]);
            assert(arranged(arguments, before[k], before[k + 1]) != Ordering::Greater);
        } else if k == p - 1 {
            assert(now[k] == before[p - 1]);
            assert(now[k + 1] == e);
        } else if k == p {
            assert(now[k] == e);
            assert(now[k + 1] == before[p]);
        } else {
            assert(now[k] == before[k - 1]);
            assert(now[k + 1] == before[k]);
            assert(arranged(arguments, before[k - 1], before[k]) != Ordering::Greater);
        }
    }
}

/// An element of a sequence with the same multiset as a prefix of `all` is
/// an element of `all`.
proof fn lemma_member_of_prefix(s: Seq<Entry>, all: Seq<Entry>, n: int, j: int)
    requires
        0 <= n <= all.len(),
        0 <= j < s.len(),
        s.to_multiset() == all.take(n).to_multiset(),
    ensures
        all.contains(s[j]),
{
    assert(s.contains(s[j]));
    assert(all.take(n).to_multiset().count(s[j]) > 0);
    assert(all.take(n).contains(s[j]));
    let k = choose|k: int| 0 <= k < n && all.take(n)[k] == s[j];
    assert(all[k] == s[j]);
}

/// A comparison that failed between an entry placed so far and the next
/// one shows that not all entries are comparable.
proof fn lemma_failure_witness(sort: SortType, before: Seq<Entry>, all: Seq<Entry>, i: int, e: Entry)
    requires
        0 <= i < all.len(),
        all[i] == e,
        before.to_multiset() == all.take(i).to_multiset(),
        exists|j: int| 0 <= j < before.len() && !comparable(sort, #[trigger] before[j], e),
    ensures
        !all_comparable(sort, all),
{
    reveal(all_comparable);
    let j = choose|j: int| 0 <= j < before.len() && !comparable(sort, #[trigger] before[j], e);
    lemma_member_of_prefix(before, all, i, j);
    assert(all.contains(e));
}

/// A sequence with the multiset of a one-element prefix is that prefix.
proof fn lemma_single(before: Seq<Entry>, all: Seq<Entry>)
    requires
        all.len() >= 1,
        before.to_multiset() == all.take(1).to_multiset(),
    ensures
        before.len() == 1,
        before[0] == all[0],
{
    assert(before.to_multiset().len() == before.len());
    assert(all.take(1).to_multiset().len() == all.take(1).len());
    assert(all.take(1).len() == 1);
    lemma_member_of_prefix(before, all, 1, 0);
    assert(before.to_multiset().count(before[0]) > 0);
    assert(all.take(1).contains(before[0]));
    assert(all.take(1)[0] == all[0]);
}

/// Once two entries are placed and one lacks the sort key's time, some
/// comparison has failed.
proof fn lemma_count_step(
    sort: SortType,
    all: Seq<Entry>,
    i: int,
    count: usize,
    fails: usize,
    failures: usize,
    before: Seq<Entry>,
    e: Entry,
)
    requires
        0 <= i < all.len(),
        all[i] == e,
        before.len() == i,
        i == 1 ==> before[0] == all[0],
        i >= 2 && (exists|k: int| 0 <= k < i && lacks_key(sort, #[trigger] all[k])) ==> count > 0,
        before.len() > 0 && lacks_key(sort, e) ==> fails > 0,
        before.len() == 1 && lacks_key(sort, before[0]) ==> fails > 0,
        count > 0 || fails > 0 ==> failures > 0,
    ensures
        i + 1 >= 2 && (exists|k: int| 0 <= k < i + 1 && lacks_key(sort, #[trigger] all[k])) ==> failures
            > 0,
{
    if i + 1 >= 2 && (exists|k: int| 0 <= k < i + 1 && lacks_key(sort, #[trigger] all[k])) {
        let k = choose|k: int| 0 <= k < i + 1 && lacks_key(sort, #[trigger] all[k]);
        if k == i {
        } else if i >= 2 {
            assert(count > 0);
        } else {
            assert(k == 0 && i == 1);
        }
    }
}

/// In a fully ordered listing, hoisting wins over the sort key: no entry is
/// hoisted below a later one, whatever the sort key and the reverse flag.
/// Within a hoisting group, a reversed listing is in the sort key's order
/// read backwards.
pub proof fn lemma_listing_groups(arguments: &Arguments, s: Seq<Entry>)
    requires
        sorted_all(arguments, s),
    ensures
        forall|i: int, j: int|
            0 <= i < j < s.len() ==> or_equal(
                arguments.hoist_function.sort_spec(&#[trigger] s[i], &#[trigger] s[j]),
            ) != Ordering::Greater,
        arguments.sort_reversed ==> forall|i: int, j: int|
            0 <= i < j < s.len() && or_equal(
                arguments.hoist_function.sort_spec(&#[trigger] s[i], &#[trigger] s[j]),
            ) == Ordering::Equal ==> or_equal(arguments.sort_function.sort_spec(&s[j], &s[i]))
                != Ordering::Greater,
{
    reveal(composite);
    assert forall|i: int, j: int| 0 <= i < j < s.len() implies or_equal(
        arguments.hoist_function.sort_spec(&#[trigger] s[i], &#[trigger] s[j]),
    ) != Ordering::Greater by {
        assert(arranged(arguments, s[i], s[j]) != Ordering::Greater);
    }
    if arguments.sort_reversed {
        assert forall|i: int, j: int|
            0 <= i < j < s.len() && or_equal(
                arguments.hoist_function.sort_spec(&#[trigger] s[i], &#[trigger] s[j]),
            ) == Ordering::Equal implies or_equal(arguments.sort_function.sort_spec(&s[j], &s[i]))
            != Ordering::Greater by {
            assert(arranged(arguments, s[i], s[j]) != Ordering::Greater);
            lemma_sort_flip(arguments.sort_function, s[i], s[j]);
        }
    }
}

/// The property that a hoisting puts first.
pub open spec fn hoist_key(hoist: HoistType, e: Entry) -> bool {
    match hoist {
        HoistType::Nothing => false,
        HoistType::Directories => e.is_dir_spec(),
        HoistType::Hidden => e.hidden(),
        HoistType::Symlinks => e.is_symlink_spec(),
    }
}

/// How many entries have the hoisted property.
pub open spec fn hoisted_count(hoist: HoistType, s: Seq<Entry>) -> nat {
    s.filter(|e: Entry| hoist_key(hoist, e)).len()
}

proof fn lemma_hoist_is_key(hoist: HoistType, a: Entry, b: Entry)
    ensures
        or_equal(hoist.sort_spec(&a, &b)) == first_if(hoist_key(hoist, a), hoist_key(hoist, b)),
{
}

/// The number of hoisted entries depends on the multiset alone.
proof fn lemma_hoisted_count_perm(hoist: HoistType, s: Seq<Entry>, t: Seq<Entry>)
    requires
        s.to_multiset() == t.to_multiset(),
    ensures
        hoisted_count(hoist, s) == hoisted_count(hoist, t),
    decreases s.len(),
{
    assert(s.to_multiset().len() == s.len());
    assert(t.to_multiset().len() == t.len());
    if s.len() == 0 {
        assert(t.len() == 0);
        assert(s =~= t);
    } else {
        let x = s.last();
        let rest = s.drop_last();
        assert(s =~= rest.push(x));
        assert(s.to_multiset().count(x) > 0);
        assert(t.contains(x));
        let k = choose|k: int| 0 <= k < t.len() && t[k] == x;
        let t2 = t.remove(k);
        assert(t2.to_multiset() == t.to_multiset().remove(x));
        assert(rest.push(x).to_multiset() == rest.to_multiset().insert(x));
        assert(rest.to_multiset() =~= t2.to_multiset());
        lemma_hoisted_count_perm(hoist, rest, t2);
        reveal(Seq::filter);
        assert(rest.push(x).drop_last() =~= rest);
        let a = t.subrange(0, k);
        let b = t.subrange(k + 1, t.len() as int);
        assert(t =~= a + seq![x] + b);
        assert(t2 =~= a + b);
        Seq::filter_distributes_over_add(a + seq![x], b, |e: Entry| hoist_key(hoist, e));
        Seq::filter_distributes_over_add(a, seq![x], |e: Entry| hoist_key(hoist, e));
        Seq::filter_distributes_over_add(a, b, |e: Entry| hoist_key(hoist, e));
        assert(seq![x].drop_last() =~= Seq::<Entry>::empty());
        assert(seq![x].last() == x);
        assert(Seq::<Entry>::empty().filter(|e: Entry| hoist_key(hoist, e)).len() == 0);
        assert(hoisted_count(hoist, seq![x].drop_last()) == 0);
        let one = hoisted_count(hoist, seq![x]);
        assert(one == if hoist_key(hoist, x) { 1nat } else { 0nat });
        assert(hoisted_count(hoist, s) == hoisted_count(hoist, rest) + one);
        assert(hoisted_count(hoist, t) == hoisted_count(hoist, a) + one + hoisted_count(hoist, b));
        assert(hoisted_count(hoist, t2) == hoisted_count(hoist, a) + hoisted_count(hoist, b));
    }
}

/// In a sequence where no entry without the hoisted property precedes one
/// with it, the hoisted entries are exactly the first ones.
proof fn lemma_hoisted_prefix(hoist: HoistType, s: Seq<Entry>)
    requires
        forall|i: int, j: int|
            0 <= i < j < s.len() ==> first_if(hoist_key(hoist, #[trigger] s[i]), hoist_key(hoist, #[trigger] s[j]))
                != Ordering::Greater,
    ensures
        hoisted_count(hoist, s) <= s.len(),
        forall|i: int| 0 <= i < s.len() ==> (hoist_key(hoist, #[trigger] s[i]) <==> i < hoisted_count(hoist, s)),
    decreases s.len(),
{
    reveal(Seq::filter);
    if s.len() > 0 {
        let rest = s.drop_last();
        assert forall|i: int, j: int| 0 <= i < j < rest.len() implies first_if(
            hoist_key(hoist, #[trigger] rest[i]),
            hoist_key(hoist, #[trigger] rest[j]),
        ) != Ordering::Greater by {
            assert(rest[i] == s[i] && rest[j] == s[j]);
        }
        lemma_hoisted_prefix(hoist, rest);
        let n = s.len() - 1;
        if hoist_key(hoist, s[n]) {
            assert forall|i: int| 0 <= i < n implies hoist_key(hoist, #[trigger] rest[i]) by {
                assert(rest[i] == s[i]);
                assert(first_if(hoist_key(hoist, s[i]), hoist_key(hoist, s[n])) != Ordering::Greater);
            }
            if hoisted_count(hoist, rest) < n {
                assert(hoist_key(hoist, rest[n - 1]));
            }
        }
        assert forall|i: int| 0 <= i < s.len() implies (hoist_key(hoist, #[trigger] s[i]) <==> i
            < hoisted_count(hoist, s)) by {
            if i < n {
                assert(s[i] == rest[i]);
            }
        }
    }
}

/// The hoisting groups of a fully ordered listing do not depend on the sort
/// key or the reverse flag: two orderings of the same entries under the
/// same hoisting have the hoisted property at the same places.
pub proof fn lemma_grouping_independent(a1: &Arguments, a2: &Arguments, s1: Seq<Entry>, s2: Seq<Entry>)
    requires
        a1.hoist_function == a2.hoist_function,
        sorted_all(a1, s1),
        sorted_all(a2, s2),
        s1.to_multiset() == s2.to_multiset(),
    ensures
        s1.len() == s2.len(),
        forall|i: int|
            0 <= i < s1.len() ==> hoist_key(a1.hoist_function, #[trigger] s1[i]) == hoist_key(
                a1.hoist_function,
                s2[i],
            ),
{
    let h = a1.hoist_function;
    assert(s1.to_multiset().len() == s1.len());
    assert(s2.to_multiset().len() == s2.len());
    lemma_listing_groups(a1, s1);
    lemma_listing_groups(a2, s2);
    assert forall|i: int, j: int| 0 <= i < j < s1.len() implies first_if(
        hoist_key(h, #[trigger] s1[i]),
        hoist_key(h, #[trigger] s1[j]),
    ) != Ordering::Greater by {
        lemma_hoist_is_key(h, s1[i], s1[j]);
    }
    assert forall|i: int, j: int| 0 <= i < j < s2.len() implies first_if(
        hoist_key(h, #[trigger] s2[i]),
        hoist_key(h, #[trigger] s2[j]),
    ) != Ordering::Greater by {
        lemma_hoist_is_key(h, s2[i], s2[j]);
    }
    lemma_hoisted_prefix(h, s1);
    lemma_hoisted_prefix(h, s2);
    lemma_hoisted_count_perm(h, s1, s2);
}

/// Orders the entries of one listing: hidden ones are dropped unless
/// `show_hidden` is set, and the rest are put in the composite order. The
/// second part counts the comparisons whose sort key lacked a time; each is
/// taken as equal.
#[verifier::rlimit(40)]
pub fn entries_list(arguments: &Arguments, entries: Vec<Entry>) -> (r: (Vec<Entry>, usize))
    ensures
        r.0@.to_multiset() == visible(arguments.show_hidden, entries@).to_multiset(),
        in_order(arguments, r.0@),
        all_comparable(arguments.sort_function, visible(arguments.show_hidden, entries@)) ==> r.1
            == 0,
        r.1 > 0 ==> !all_comparable(arguments.sort_function, visible(arguments.show_hidden, entries@)),
        visible(arguments.show_hidden, entries@).len() >= 2 && (exists|k: int|
            0 <= k < visible(arguments.show_hidden, entries@).len() && lacks_key(
                arguments.sort_function,
                #[trigger] visible(arguments.show_hidden, entries@)[k],
            )) ==> r.1 > 0,
        orderable(arguments, visible(arguments.show_hidden, entries@)) ==> sorted_all(
            arguments,
            r.0@,
        ),
{
    let shown = filter_hidden(entries, arguments.show_hidden);
    let ghost all = shown@;
    let mut sorted: Vec<Entry> = Vec::new();
    let mut failures: usize = 0;
    proof {
        reveal(in_order);
    }
    for e in it: shown.into_iter()
        invariant
            it.seq() == all,
            sorted@.to_multiset() == all.take(it.index() as int).to_multiset(),
            in_order(arguments, sorted@),
            all_comparable(arguments.sort_function, all) ==> failures == 0,
            it.index() >= 2 && (exists|k: int|
                0 <= k < it.index() && lacks_key(arguments.sort_function, #[trigger] all[k]))
                ==> failures > 0,
    {
        let ghost i = it.index() as int;
        let ghost before = sorted@;
        let ghost count = failures;
        proof {
            assert(before.to_multiset().len() == before.len());
            assert(all.take(i).to_multiset().len() == all.take(i).len());
        }
        proof {
            assert(all[i] == e);
            if i == 1 {
                lemma_single(before, all);
            }
        }
        let (p, fails) = insertion_point(arguments, &sorted, &e);
        failures = if failures <= usize::MAX - fails {
            failures + fails
        } else {
            usize::MAX
        };
        proof {
            assert(all.take(i + 1) =~= all.take(i).push(e));
            if fails > 0 {
                lemma_failure_witness(arguments.sort_function, before, all, i, e);
            }
            lemma_count_step(arguments.sort_function, all, i, count, fails, failures, before, e);
        }
        sorted.insert(p, e);
        proof {
            lemma_insert_in_order(arguments, before, p as int, e);
        }
    }
    proof {
        assert(all.take(all.len() as int) =~= all);
        if orderable(arguments, all) {
            assert forall|k: int| 0 <= k < sorted@.len() implies all.contains(#[trigger] sorted@[k]) by {
                lemma_member_of_prefix(sorted@, all, all.len() as int, k);
            }
            lemma_neighbours_to_all(arguments, sorted@, all);
        }
    }
    (sorted, failures)
}

/// Every entry is in order with every later one.
pub open spec fn sorted_all(arguments: &Arguments, s: Seq<Entry>) -> bool {
    forall|i: int, j: int|
        0 <= i < j < s.len() ==> arranged(arguments, #[trigger] s[i], #[trigger] s[j]) != Ordering::Greater
}

/// What makes the composite order transitive on a set of entries: the sort
/// key can compare each pair.
pub open spec fn orderable(arguments: &Arguments, s: Seq<Entry>) -> bool {
    all_comparable(arguments.sort_function, s)
}

/// The hoisting partitions are transitive.
proof fn lemma_hoist_trans(hoist: HoistType, a: Entry, b: Entry, c: Entry)
    requires
        or_equal(hoist.sort_spec(&a, &b)) != Ordering::Greater,
        or_equal(hoist.sort_spec(&b, &c)) != Ordering::Greater,
    ensures
        or_equal(hoist.sort_spec(&a, &c)) != Ordering::Greater,
        or_equal(hoist.sort_spec(&a, &c)) == Ordering::Equal ==> or_equal(hoist.sort_spec(&a, &b))
            == Ordering::Equal && or_equal(hoist.sort_spec(&b, &c)) == Ordering::Equal,
{
}

/// The sort keys are transitive where they can compare.
proof fn lemma_sort_trans(sort: SortType, a: Entry, b: Entry, c: Entry)
    requires
        comparable(sort, a, b),
        comparable(sort, b, c),
        comparable(sort, a, c),
        or_equal(sort.sort_spec(&a, &b)) != Ordering::Greater,
        or_equal(sort.sort_spec(&b, &c)) != Ordering::Greater,
    ensures
        or_equal(sort.sort_spec(&a, &c)) != Ordering::Greater,
{
    if sort == SortType::Name {
        lemma_lex_from_trans(lower(a.path@), lower(b.path@), lower(c.path@), 0);
    }
}

/// The composite order is transitive on entries that are orderable.
proof fn lemma_composite_trans(arguments: &Arguments, a: Entry, b: Entry, c: Entry)
    requires
        orderable(arguments, seq![a, b, c]),
        arranged(arguments, a, b) != Ordering::Greater,
        arranged(arguments, b, c) != Ordering::Greater,
    ensures
        arranged(arguments, a, c) != Ordering::Greater,
{
    reveal(composite);
    reveal(all_comparable);
    let s = seq![a, b, c];
    assert(s.contains(a) && s.contains(b) && s.contains(c)) by {
        assert(s[0] == a && s[1] == b && s[2] == c);
    }
    assert(comparable(arguments.sort_function, a, b));
    assert(comparable(arguments.sort_function, b, c));
    assert(comparable(arguments.sort_function, a, c));
    let h = arguments.hoist_function;
    let t = arguments.sort_function;
    lemma_hoist_trans(h, a, b, c);
    if or_equal(h.sort_spec(&a, &c)) == Ordering::Equal {
        if arguments.sort_reversed {
            lemma_sort_flip(t, a, b);
            lemma_sort_flip(t, b, c);
            lemma_sort_flip(t, a, c);
            lemma_sort_trans(t, c, b, a);
        } else {
            lemma_sort_trans(t, a, b, c);
        }
    }
}

/// Order between neighbours is order between all pairs, where the composite
/// order is transitive.
proof fn lemma_neighbours_to_all(arguments: &Arguments, s: Seq<Entry>, everything: Seq<Entry>)
    requires
        in_order(arguments, s),
        orderable(arguments, everything),
        forall|i: int| 0 <= i < s.len() ==> everything.contains(#[trigger] s[i]),
    ensures
        sorted_all(arguments, s),
{
    assert forall|i: int, j: int| 0 <= i < j < s.len() implies arranged(
        arguments,
        #[trigger] s[i],
        #[trigger] s[j],
    ) != Ordering::Greater by {
        lemma_chain(arguments, s, everything, i, j);
    }
}

proof fn lemma_chain(arguments: &Arguments, s: Seq<Entry>, everything: Seq<Entry>, i: int, j: int)
    requires
        in_order(arguments, s),
        orderable(arguments, everything),
        forall|k: int| 0 <= k < s.len() ==> everything.contains(#[trigger] s[k]),
        0 <= i < j < s.len(),
    ensures
        arranged(arguments, s[i], s[j]) != Ordering::Greater,
    decreases j - i,
{
    reveal(in_order);
    if j > i + 1 {
        lemma_chain(arguments, s, everything, i, j - 1);
        assert(arranged(arguments, s[j - 1], s[j]) != Ordering::Greater);
        lemma_orderable_triple(arguments, everything, s[i], s[j - 1], s[j]);
        lemma_composite_trans(arguments, s[i], s[j - 1], s[j]);
    } else {
        assert(arranged(arguments, s[i], s[i + 1]) != Ordering::Greater);
    }
}

/// Three members of an orderable sequence are orderable.
proof fn lemma_orderable_triple(arguments: &Arguments, everything: Seq<Entry>, a: Entry, b: Entry, c: Entry)
    requires
        orderable(arguments, everything),
        everything.contains(a),
        everything.contains(b),
        everything.contains(c),
    ensures
        orderable(arguments, seq![a, b, c]),
{
    reveal(all_comparable);
    let t = seq![a, b, c];
    assert forall|x: Entry, y: Entry| t.contains(x) && t.contains(y) implies #[trigger] comparable(
        arguments.sort_function,
        x,
        y,
    ) by {
        assert(everything.contains(x) && everything.contains(y)) by {
            let k = choose|k: int| 0 <= k < t.len() && t[k] == x;
            let m = choose|m: int| 0 <= m < t.len() && t[m] == y;
            assert(k == 0 || k == 1 || k == 2);
            assert(m == 0 || m == 1 || m == 2);
        }
    }
}

} // verus!
