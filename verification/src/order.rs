//! The order of texts and lists of pairs kept in that order.
use crate::text::{self, chars_of};
use vstd::prelude::*;

verus! {

/// `a` comes before `b`: at the first position where they differ `a` has the
/// smaller character, or `a` ends first.
pub open spec fn precedes(a: Seq<char>, b: Seq<char>) -> bool
    decreases a.len(),
{
    if b.len() == 0 {
        false
    } else if a.len() == 0 {
        true
    } else if a[0] != b[0] {
        a[0] < b[0]
    } else {
        precedes(a.drop_first(), b.drop_first())
    }
}

proof fn never_before_itself(a: Seq<char>)
    ensures
        !precedes(a, a),
    decreases a.len(),
{
    if a.len() > 0 {
        never_before_itself(a.drop_first());
    }
}

/// No text comes before itself, and of two different texts exactly one comes
/// before the other.
pub proof fn order_is_total(a: Seq<char>, b: Seq<char>)
    ensures
        !precedes(a, a),
        a != b ==> precedes(a, b) != precedes(b, a),
        a == b ==> !precedes(a, b) && !precedes(b, a),
    decreases a.len(),
{
    never_before_itself(a);
    if a.len() > 0 && b.len() > 0 && a[0] == b[0] {
        order_is_total(a.drop_first(), b.drop_first());
        if a.drop_first() == b.drop_first() {
            assert(a =~= seq![a[0]] + a.drop_first());
            assert(b =~= seq![b[0]] + b.drop_first());
            assert(a == b);
        }
    } else if a.len() == 0 && b.len() == 0 {
        assert(a =~= b);
    }
}

/// The order is transitive.
pub proof fn order_is_transitive(a: Seq<char>, b: Seq<char>, c: Seq<char>)
    requires
        precedes(a, b),
        precedes(b, c),
    ensures
        precedes(a, c),
    decreases a.len(),
{
    if a.len() > 0 && b.len() > 0 && c.len() > 0 && a[0] == b[0] && b[0] == c[0] {
        order_is_transitive(a.drop_first(), b.drop_first(), c.drop_first());
    }
}

/// Whether the first text comes before the second.
pub fn less_text(a: &str, b: &str) -> (less: bool)
    ensures
        less == precedes(a@, b@),
{
    let x = chars_of(a);
    let y = chars_of(b);
    let mut i: usize = 0;
    assert(x@.skip(0) =~= x@);
    assert(y@.skip(0) =~= y@);
    while i < x.len() && i < y.len()
        invariant
            x@ == a@,
            y@ == b@,
            i <= x@.len(),
            i <= y@.len(),
            precedes(a@, b@) == precedes(x@.skip(i as int), y@.skip(i as int)),
        decreases x.len() - i,
    {
        assert(x@.skip(i as int).drop_first() =~= x@.skip(i + 1));
        assert(y@.skip(i as int).drop_first() =~= y@.skip(i + 1));
        if x[i] != y[i] {
            return x[i] < y[i];
        }
        i += 1;
    }
    i < y.len()
}

/// The list with `v` stored under `k`: an entry of that key keeps its place and
/// takes the new value, a new key goes before the first entry that it precedes.
pub open spec fn put<V>(list: Seq<(Seq<char>, V)>, k: Seq<char>, v: V) -> Seq<(Seq<char>, V)>
    decreases list.len(),
{
    if list.len() == 0 {
        seq![(k, v)]
    } else if k == list[0].0 {
        seq![(k, v)] + list.drop_first()
    } else if precedes(k, list[0].0) {
        seq![(k, v)] + list
    } else {
        seq![list[0]] + put(list.drop_first(), k, v)
    }
}

/// The list after storing the pairs one after the other.
pub open spec fn put_all<V>(
    list: Seq<(Seq<char>, V)>,
    pairs: Seq<(Seq<char>, V)>,
) -> Seq<(Seq<char>, V)>
    decreases pairs.len(),
{
    if pairs.len() == 0 {
        list
    } else {
        put(put_all(list, pairs.drop_last()), pairs.last().0, pairs.last().1)
    }
}

/// The value stored under `k`.
pub open spec fn lookup<V>(list: Seq<(Seq<char>, V)>, k: Seq<char>) -> Option<V>
    decreases list.len(),
{
    if list.len() == 0 {
        None
    } else if list[0].0 == k {
        Some(list[0].1)
    } else {
        lookup(list.drop_first(), k)
    }
}

/// Each key comes before every later key.
pub open spec fn ordered<V>(list: Seq<(Seq<char>, V)>) -> bool {
    forall|i: int, j: int| 0 <= i < j < list.len() ==> precedes(#[trigger] list[i].0, #[trigger] list[j].0)
}

/// Storing a pair keeps the list in order, and the keys of the result are those
/// of the list and `k`.
pub proof fn put_keeps_order<V>(list: Seq<(Seq<char>, V)>, k: Seq<char>, v: V)
    requires
        ordered(list),
    ensures
        ordered(put(list, k, v)),
        forall|i: int| 0 <= i < put(list, k, v).len() ==> (#[trigger] put(list, k, v)[i].0) == k || exists|j: int|
            0 <= j < list.len() && list[j].0 == put(list, k, v)[i].0,
    decreases list.len(),
{
    let result = put(list, k, v);
    if list.len() == 0 {
    } else if k == list[0].0 {
        assert forall|i: int| 0 <= i < result.len() implies (#[trigger] result[i].0) == k || exists|j: int|
            0 <= j < list.len() && list[j].0 == result[i].0 by {
            assert(list[i].0 == result[i].0);
        }
    } else if precedes(k, list[0].0) {
        assert forall|i: int, j: int| 0 <= i < j < result.len() implies precedes(
            #[trigger] result[i].0,
            #[trigger] result[j].0,
        ) by {
            if i == 0 {
                if j > 1 {
                    assert(precedes(list[0].0, list[j - 1].0));
                    order_is_transitive(k, list[0].0, list[j - 1].0);
                }
            } else {
                assert(precedes(list[i - 1].0, list[j - 1].0));
            }
        }
        assert forall|i: int| 0 <= i < result.len() implies (#[trigger] result[i].0) == k || exists|j: int|
            0 <= j < list.len() && list[j].0 == result[i].0 by {
            if i > 0 {
                assert(list[i - 1].0 == result[i].0);
            }
        }
    } else {
        let rest = list.drop_first();
        assert forall|i: int, j: int| 0 <= i < j < rest.len() implies precedes(
            #[trigger] rest[i].0,
            #[trigger] rest[j].0,
        ) by {
            assert(precedes(list[i + 1].0, list[j + 1].0));
        }
        put_keeps_order(rest, k, v);
        let tail = put(rest, k, v);
        order_is_total(k, list[0].0);
        assert forall|i: int| 0 <= i < tail.len() implies precedes(list[0].0, #[trigger] tail[i].0) by {
            if tail[i].0 != k {
                let j = choose|j: int| 0 <= j < rest.len() && rest[j].0 == tail[i].0;
                assert(precedes(list[0].0, list[j + 1].0));
            }
        }
        assert forall|i: int, j: int| 0 <= i < j < result.len() implies precedes(
            #[trigger] result[i].0,
            #[trigger] result[j].0,
        ) by {
            if i == 0 {
                assert(precedes(list[0].0, tail[j - 1].0));
            } else {
                assert(precedes(tail[i - 1].0, tail[j - 1].0));
            }
        }
        assert forall|i: int| 0 <= i < result.len() implies (#[trigger] result[i].0) == k || exists|j: int|
            0 <= j < list.len() && list[j].0 == result[i].0 by {
            if i == 0 {
                assert(list[0].0 == result[0].0);
            } else if tail[i - 1].0 != k {
                let j = choose|j: int| 0 <= j < rest.len() && rest[j].0 == tail[i - 1].0;
                assert(list[j + 1].0 == result[i].0);
            }
        }
    }
}

/// What is stored under a key is found under it, and nothing else changes.
pub proof fn put_is_found<V>(list: Seq<(Seq<char>, V)>, k: Seq<char>, v: V, other: Seq<char>)
    ensures
        lookup(put(list, k, v), k) == Some(v),
        other != k ==> lookup(put(list, k, v), other) == lookup(list, other),
    decreases list.len(),
{
    let result = put(list, k, v);
    if list.len() == 0 {
        assert(result.drop_first() =~= list);
    } else if k == list[0].0 {
        assert(result.drop_first() =~= list.drop_first());
    } else if precedes(k, list[0].0) {
        assert(result.drop_first() =~= list);
    } else {
        put_is_found(list.drop_first(), k, v, other);
        assert(result.drop_first() =~= put(list.drop_first(), k, v));
    }
}

/// An ordered list is the only one that has its values under their keys.
pub proof fn ordered_lists_are_unique<V>(a: Seq<(Seq<char>, V)>, b: Seq<(Seq<char>, V)>)
    requires
        ordered(a),
        ordered(b),
        forall|k: Seq<char>| #[trigger] lookup(a, k) == lookup(b, k),
    ensures
        a == b,
    decreases a.len(),
{
    if a.len() == 0 {
        if b.len() > 0 {
            assert(lookup(a, b[0].0) == lookup(b, b[0].0));
        }
        assert(a =~= b);
    } else {
        assert(lookup(a, a[0].0) == lookup(b, a[0].0));
        found_has_place(b, a[0].0);
        assert(lookup(a, b[0].0) == lookup(b, b[0].0));
        found_has_place(a, b[0].0);
        let i = choose|i: int| 0 <= i < b.len() && (#[trigger] b[i]).0 == a[0].0;
        let j = choose|j: int| 0 <= j < a.len() && (#[trigger] a[j]).0 == b[0].0;
        if a[0].0 != b[0].0 {
            assert(precedes(b[0].0, b[i].0));
            assert(precedes(a[0].0, a[j].0));
            order_is_total(a[0].0, b[0].0);
        }
        let ra = a.drop_first();
        let rb = b.drop_first();
        assert forall|k: Seq<char>| #[trigger] lookup(ra, k) == lookup(rb, k) by {
            assert(lookup(a, k) == lookup(b, k));
            if k == a[0].0 {
                order_is_total(k, k);
                if lookup(ra, k) is Some {
                    found_has_place(ra, k);
                    let m = choose|m: int| 0 <= m < ra.len() && (#[trigger] ra[m]).0 == k;
                    assert(precedes(a[0].0, a[m + 1].0));
                }
                if lookup(rb, k) is Some {
                    found_has_place(rb, k);
                    let m = choose|m: int| 0 <= m < rb.len() && (#[trigger] rb[m]).0 == k;
                    assert(precedes(b[0].0, b[m + 1].0));
                }
            }
        }
        assert(ordered(ra)) by {
            assert forall|i: int, j: int| 0 <= i < j < ra.len() implies precedes(
                #[trigger] ra[i].0,
                #[trigger] ra[j].0,
            ) by {
                assert(precedes(a[i + 1].0, a[j + 1].0));
            }
        }
        assert(ordered(rb)) by {
            assert forall|i: int, j: int| 0 <= i < j < rb.len() implies precedes(
                #[trigger] rb[i].0,
                #[trigger] rb[j].0,
            ) by {
                assert(precedes(b[i + 1].0, b[j + 1].0));
            }
        }
        ordered_lists_are_unique(ra, rb);
        assert(a =~= seq![a[0]] + ra);
        assert(b =~= seq![b[0]] + rb);
    }
}

proof fn found_has_place<V>(list: Seq<(Seq<char>, V)>, k: Seq<char>)
    requires
        lookup(list, k) is Some,
    ensures
        exists|i: int| 0 <= i < list.len() && (#[trigger] list[i]).0 == k,
    decreases list.len(),
{
    if list[0].0 != k {
        found_has_place(list.drop_first(), k);
        let i = choose|i: int| 0 <= i < list.drop_first().len() && (#[trigger] list.drop_first()[i]).0 == k;
        assert(list[i + 1].0 == k);
    }
}

/// The pairs of texts as their characters.
pub open spec fn pair_views(list: Seq<(&str, &str)>) -> Seq<(Seq<char>, Seq<char>)> {
    list.map_values(|p: (&str, &str)| (p.0@, p.1@))
}

/// Storing a pair leaves alone what comes before its place.
pub proof fn put_splits<V>(list: Seq<(Seq<char>, V)>, k: Seq<char>, v: V, i: int)
    requires
        0 <= i <= list.len(),
        forall|j: int| 0 <= j < i ==> k != (#[trigger] list[j]).0 && !precedes(k, list[j].0),
    ensures
        put(list, k, v) == list.take(i) + put(list.skip(i), k, v),
    decreases i,
{
    if i == 0 {
        assert(list.skip(0) =~= list);
        assert(put(list, k, v) =~= list.take(0) + put(list.skip(0), k, v));
    } else {
        let rest = list.drop_first();
        assert forall|j: int| 0 <= j < i - 1 implies k != (#[trigger] rest[j]).0 && !precedes(k, rest[j].0) by {
            assert(rest[j] == list[j + 1]);
        }
        put_splits(rest, k, v, i - 1);
        assert(rest.skip(i - 1) =~= list.skip(i));
        assert(k != list[0].0 && !precedes(k, list[0].0));
        assert(put(list, k, v) =~= list.take(i) + put(list.skip(i), k, v));
    }
}

/// Stores a pair of texts in an ordered list.
pub fn put_pair<'a>(list: &mut Vec<(&'a str, &'a str)>, key: &'a str, value: &'a str)
    ensures
        pair_views(final(list)@) == put(pair_views(old(list)@), key@, value@),
{
    let ghost before = pair_views(list@);
    let mut i: usize = 0;
    while i < list.len()
        invariant
            i <= list@.len(),
            list@ == old(list)@,
            before == pair_views(list@),
            forall|j: int| 0 <= j < i ==> key@ != (#[trigger] before[j]).0 && !precedes(key@, before[j].0),
        decreases list.len() - i,
    {
        let entry: (&str, &str) = list[i];
        proof {
            put_splits(before, key@, value@, i as int);
            assert(before.skip(i as int)[0] == before[i as int]);
        }
        if crate::text::same_text(key, entry.0) {
            list.set(i, (key, value));
            assert(pair_views(list@) =~= put(before, key@, value@));
            return;
        }
        if less_text(key, entry.0) {
            list.insert(i, (key, value));
            assert(pair_views(list@) =~= put(before, key@, value@));
            return;
        }
        i += 1;
    }
    proof {
        put_splits(before, key@, value@, i as int);
    }
    list.push((key, value));
    assert(pair_views(list@) =~= put(before, key@, value@));
}

/// Stores all pairs of texts in an ordered list.
pub fn put_pairs<'a>(list: &mut Vec<(&'a str, &'a str)>, pairs: &[(&'a str, &'a str)])
    ensures
        pair_views(final(list)@) == put_all(pair_views(old(list)@), pair_views(pairs@)),
{
    let mut i: usize = 0;
    assert(pairs@.take(0) =~= Seq::empty());
    while i < pairs.len()
        invariant
            i <= pairs@.len(),
            pair_views(list@) == put_all(pair_views(old(list)@), pair_views(pairs@.take(i as int))),
        decreases pairs.len() - i,
    {
        let pair: (&str, &str) = pairs[i];
        put_pair(list, pair.0, pair.1);
        i += 1;
        proof {
            let now = pair_views(pairs@.take(i as int));
            assert(now.drop_last() =~= pair_views(pairs@.take(i - 1)));
            assert(now.last() == (pair.0@, pair.1@));
        }
    }
    assert(pairs@.take(i as int) =~= pairs@);
}

/// Each text comes before every later one.
pub open spec fn ascending(list: Seq<Seq<char>>) -> bool {
    forall|i: int, j: int| 0 <= i < j < list.len() ==> precedes(#[trigger] list[i], #[trigger] list[j])
}

/// An ascending list is the only one with its members.
pub proof fn ascending_lists_are_unique(a: Seq<Seq<char>>, b: Seq<Seq<char>>)
    requires
        ascending(a),
        ascending(b),
        forall|x: Seq<char>| a.contains(x) <==> b.contains(x),
    ensures
        a == b,
    decreases a.len(),
{
    if a.len() == 0 {
        if b.len() > 0 {
            assert(b.contains(b[0]));
            assert(a.contains(b[0]));
        }
        assert(a =~= b);
    } else {
        assert(a.contains(a[0]));
        assert(b.contains(a[0]));
        assert(b.contains(b[0]));
        assert(a.contains(b[0]));
        let i = choose|i: int| 0 <= i < b.len() && b[i] == a[0];
        let j = choose|j: int| 0 <= j < a.len() && a[j] == b[0];
        if a[0] != b[0] {
            assert(precedes(b[0], b[i]));
            assert(precedes(a[0], a[j]));
            order_is_total(a[0], b[0]);
        }
        let ra = a.drop_first();
        let rb = b.drop_first();
        assert forall|x: Seq<char>| ra.contains(x) <==> rb.contains(x) by {
            order_is_total(x, x);
            if ra.contains(x) {
                let k = choose|k: int| 0 <= k < ra.len() && ra[k] == x;
                assert(a[k + 1] == x);
                assert(precedes(a[0], a[k + 1]));
                assert(b.contains(x));
                let m = choose|m: int| 0 <= m < b.len() && b[m] == x;
                assert(rb[m - 1] == x);
            }
            if rb.contains(x) {
                let k = choose|k: int| 0 <= k < rb.len() && rb[k] == x;
                assert(b[k + 1] == x);
                assert(precedes(b[0], b[k + 1]));
                assert(a.contains(x));
                let m = choose|m: int| 0 <= m < a.len() && a[m] == x;
                assert(ra[m - 1] == x);
            }
        }
        assert(ascending(ra)) by {
            assert forall|i: int, j: int| 0 <= i < j < ra.len() implies precedes(
                #[trigger] ra[i],
                #[trigger] ra[j],
            ) by {
                assert(precedes(a[i + 1], a[j + 1]));
            }
        }
        assert(ascending(rb)) by {
            assert forall|i: int, j: int| 0 <= i < j < rb.len() implies precedes(
                #[trigger] rb[i],
                #[trigger] rb[j],
            ) by {
                assert(precedes(b[i + 1], b[j + 1]));
            }
        }
        ascending_lists_are_unique(ra, rb);
        assert(a =~= seq![a[0]] + ra);
        assert(b =~= seq![b[0]] + rb);
    }
}

/// Whether a list of texts holds `x`.
pub fn holds_text(list: &Vec<String>, x: &str) -> (found: bool)
    ensures
        found == text::texts(list@).contains(x@),
{
    let mut i: usize = 0;
    while i < list.len()
        invariant
            i <= list@.len(),
            forall|k: int| 0 <= k < i ==> (#[trigger] list@[k])@ != x@,
        decreases list.len() - i,
    {
        if text::same_text(&list[i], x) {
            assert(text::texts(list@)[i as int] == x@);
            return true;
        }
        i += 1;
    }
    proof {
        if text::texts(list@).contains(x@) {
            let k = choose|k: int| 0 <= k < text::texts(list@).len() && text::texts(list@)[k] == x@;
            assert(list@[k]@ == x@);
        }
    }
    false
}

/// Puts a text into an ascending list, unless it is there already.
pub fn put_text(list: &mut Vec<String>, x: &str)
    requires
        ascending(text::texts(old(list)@)),
    ensures
        ascending(text::texts(final(list)@)),
        forall|y: Seq<char>|
            text::texts(final(list)@).contains(y) <==> (text::texts(old(list)@).contains(y) || y == x@),
{
    let ghost before = text::texts(list@);
    let mut i: usize = 0;
    while i < list.len()
        invariant
            i <= list@.len(),
            list@ == old(list)@,
            before == text::texts(list@),
            ascending(before),
            forall|k: int| 0 <= k < i ==> precedes(#[trigger] before[k], x@),
        ensures
            i <= list@.len(),
            list@ == old(list)@,
            before == text::texts(list@),
            ascending(before),
            forall|k: int| 0 <= k < i ==> precedes(#[trigger] before[k], x@),
            i < list@.len() ==> precedes(x@, before[i as int]),
        decreases list.len() - i,
    {
        if text::same_text(&list[i], x) {
            assert(before[i as int] == x@);
            return;
        }
        if less_text(x, &list[i]) {
            assert(before[i as int] == list@[i as int]@);
            break;
        }
        proof {
            order_is_total(before[i as int], x@);
        }
        i += 1;
    }
    list.insert(i, x.to_owned());
    proof {
        let after = text::texts(list@);
        assert(after =~= before.insert(i as int, x@));
        assert forall|a: int, b: int| 0 <= a < b < after.len() implies precedes(
            #[trigger] after[a],
            #[trigger] after[b],
        ) by {
            if a == i {
                assert(after[b] == before[b - 1]);
                if b - 1 > i {
                    assert(precedes(before[i as int], before[b - 1]));
                    order_is_transitive(x@, before[i as int], before[b - 1]);
                }
            } else if b == i {
                assert(after[a] == before[a]);
            } else if a < i && b > i {
                assert(after[a] == before[a] && after[b] == before[b - 1]);
            } else if a > i {
                assert(after[a] == before[a - 1] && after[b] == before[b - 1]);
            } else {
                assert(after[a] == before[a] && after[b] == before[b]);
            }
        }
        assert forall|y: Seq<char>| after.contains(y) <==> (before.contains(y) || y == x@) by {
            if after.contains(y) {
                let k = choose|k: int| 0 <= k < after.len() && after[k] == y;
                if k < i {
                    assert(before[k] == y);
                } else if k > i {
                    assert(before[k - 1] == y);
                }
            }
            if before.contains(y) {
                let k = choose|k: int| 0 <= k < before.len() && before[k] == y;
                if k < i {
                    assert(after[k] == y);
                } else {
                    assert(after[k + 1] == y);
                }
            }
            if y == x@ {
                assert(after[i as int] == y);
            }
        }
    }
}

/// The members of `a` that `b` does not hold, in ascending order.
pub fn difference(a: &Vec<String>, b: &Vec<String>) -> (list: Vec<String>)
    ensures
        ascending(text::texts(list@)),
        forall|y: Seq<char>|
            text::texts(list@).contains(y) <==> (text::texts(a@).contains(y) && !text::texts(
                b@,
            ).contains(y)),
{
    let mut list: Vec<String> = Vec::new();
    let mut i: usize = 0;
    assert(text::texts(list@) =~= Seq::empty());
    while i < a.len()
        invariant
            i <= a@.len(),
            ascending(text::texts(list@)),
            forall|y: Seq<char>|
                text::texts(list@).contains(y) <==> (text::texts(a@).take(i as int).contains(y)
                    && !text::texts(b@).contains(y)),
        decreases a.len() - i,
    {
        let ghost sofar = text::texts(a@).take(i as int);
        let ghost next = text::texts(a@).take(i + 1);
        proof {
            assert(next =~= sofar.push(a@[i as int]@));
            assert forall|y: Seq<char>| next.contains(y) <==> (sofar.contains(y) || y == a@[i as int]@) by {
                if next.contains(y) {
                    let k = choose|k: int| 0 <= k < next.len() && next[k] == y;
                    if k < i {
                        assert(sofar[k] == y);
                    }
                }
                if sofar.contains(y) {
                    let k = choose|k: int| 0 <= k < sofar.len() && sofar[k] == y;
                    assert(next[k] == y);
                }
                if y == a@[i as int]@ {
                    assert(next[i as int] == y);
                }
            }
        }
        if !holds_text(b, &a[i]) {
            put_text(&mut list, &a[i]);
        }
        i += 1;
    }
    assert(text::texts(a@).take(i as int) =~= text::texts(a@));
    list
}

} // verus!
