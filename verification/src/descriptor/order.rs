//! The order of hidraw devices: by the names of their device nodes.

use vstd::prelude::*;

use super::discovery;
use super::discovery::{HidrawEntry, HidrawEntryView};
use crate::text;

verus! {

/// Whether a name comes before another, or is the same: by the first characters in which they
/// differ, and a name before all that it begins.
pub open spec fn name_le(a: Seq<char>, b: Seq<char>) -> bool
    decreases a.len(),
{
    if a.len() == 0 {
        true
    } else if b.len() == 0 {
        false
    } else if a[0] == b[0] {
        name_le(a.drop_first(), b.drop_first())
    } else {
        a[0] < b[0]
    }
}

/// Entries in order, with one more put in front of the first that comes after it.
pub open spec fn put_in(entries: Seq<HidrawEntryView>, entry: HidrawEntryView) -> Seq<
    HidrawEntryView,
>
    decreases entries.len(),
{
    if entries.len() == 0 || name_le(entries.last().name, entry.name) {
        entries.push(entry)
    } else {
        put_in(entries.drop_last(), entry).push(entries.last())
    }
}

/// Entries in the order of their names.
pub open spec fn by_name(entries: Seq<HidrawEntryView>) -> Seq<HidrawEntryView>
    decreases entries.len(),
{
    if entries.len() == 0 {
        Seq::empty()
    } else {
        put_in(by_name(entries.drop_last()), entries.last())
    }
}

/// Whether a name comes before another, or is the same.
fn is_name_le(a: &str, b: &str) -> (r: bool)
    ensures
        r == name_le(a@, b@),
{
    let x: Vec<char> = text::chars_of(a);
    let y: Vec<char> = text::chars_of(b);
    let mut i: usize = 0;
    assert(a@.skip(0) =~= a@ && b@.skip(0) =~= b@);
    while i < x.len() && i < y.len()
        invariant
            i <= x@.len(),
            i <= y@.len(),
            x@ == a@,
            y@ == b@,
            name_le(a@, b@) == name_le(a@.skip(i as int), b@.skip(i as int)),
        decreases x@.len() - i,
    {
        assert(a@.skip(i as int).drop_first() =~= a@.skip(i + 1));
        assert(b@.skip(i as int).drop_first() =~= b@.skip(i + 1));
        if x[i] != y[i] {
            return x[i] < y[i];
        }
        i = i + 1;
    }
    i == x.len()
}

/// Borrowed entries over mathematical values.
pub open spec fn refs_view(entries: Seq<&HidrawEntry>) -> Seq<HidrawEntryView> {
    entries.map_values(|e: &HidrawEntry| e@)
}

proof fn put_in_at(entries: Seq<HidrawEntryView>, entry: HidrawEntryView, at: int)
    requires
        0 <= at <= entries.len(),
        at == 0 || name_le(entries[at - 1].name, entry.name),
        forall|k: int| at <= k < entries.len() ==> !name_le((#[trigger] entries[k]).name, entry.name),
    ensures
        put_in(entries, entry) == entries.insert(at, entry),
    decreases entries.len(),
{
    if at == entries.len() {
        assert(entries.insert(at, entry) =~= entries.push(entry));
    } else {
        assert(entries.last() == entries[entries.len() - 1]);
        put_in_at(entries.drop_last(), entry, at);
        assert(entries.insert(at, entry) =~= entries.drop_last().insert(at, entry).push(
            entries.last(),
        ));
    }
}

/// The entries in the order of their names.
pub fn sort_entries(entries: &Vec<HidrawEntry>) -> (sorted: Vec<&HidrawEntry>)
    ensures
        refs_view(sorted@) == by_name(discovery::entries_view(entries@)),
{
    let ghost all = discovery::entries_view(entries@);
    let mut sorted: Vec<&HidrawEntry> = Vec::new();
    assert(all.take(0) =~= Seq::empty());
    assert(refs_view(sorted@) =~= Seq::empty());
    let mut i: usize = 0;
    while i < entries.len()
        invariant
            i <= entries@.len(),
            all == discovery::entries_view(entries@),
            refs_view(sorted@) == by_name(all.take(i as int)),
        decreases entries@.len() - i,
    {
        let entry: &HidrawEntry = &entries[i];
        let ghost before = refs_view(sorted@);
        let mut at: usize = sorted.len();
        while at > 0 && !is_name_le(sorted[at - 1].name.as_str(), entry.name.as_str())
            invariant
                at <= sorted@.len(),
                before == refs_view(sorted@),
                forall|k: int|
                    at <= k < before.len() ==> !name_le(
                        (#[trigger] before[k]).name,
                        entry@.name,
                    ),
            decreases at,
        {
            assert(before[at - 1] == sorted@[at - 1]@);
            at = at - 1;
        }
        proof {
            if at > 0 {
                assert(before[at - 1] == sorted@[at - 1]@);
            }
            put_in_at(before, entry@, at as int);
            assert(all.take(i + 1).drop_last() =~= all.take(i as int));
            assert(all.take(i + 1).last() == entry@);
        }
        sorted.insert(at, entry);
        assert(refs_view(sorted@) =~= before.insert(at as int, entry@));
        i = i + 1;
    }
    assert(all.take(i as int) =~= all);
    sorted
}

/// Of two names one comes before the other, or they are the same.
pub proof fn names_are_ordered(a: Seq<char>, b: Seq<char>)
    ensures
        name_le(a, b) || name_le(b, a),
        name_le(a, b) && name_le(b, a) ==> a == b,
    decreases a.len(),
{
    if a.len() > 0 && b.len() > 0 && a[0] == b[0] {
        names_are_ordered(a.drop_first(), b.drop_first());
        if name_le(a, b) && name_le(b, a) {
            assert(a =~= seq![a[0]] + a.drop_first());
            assert(b =~= seq![b[0]] + b.drop_first());
        }
    } else if a.len() == 0 && b.len() == 0 {
        assert(a =~= b);
    }
}

proof fn names_are_transitive(a: Seq<char>, b: Seq<char>, c: Seq<char>)
    requires
        name_le(a, b),
        name_le(b, c),
    ensures
        name_le(a, c),
    decreases a.len(),
{
    if a.len() > 0 && a[0] == b[0] && b[0] == c[0] {
        names_are_transitive(a.drop_first(), b.drop_first(), c.drop_first());
    }
}

/// Entries whose names ascend.
pub open spec fn ascending(entries: Seq<HidrawEntryView>) -> bool {
    forall|i: int, j: int|
        0 <= i < j < entries.len() ==> name_le(
            (#[trigger] entries[i]).name,
            (#[trigger] entries[j]).name,
        )
}

/// Entries of which no two have the same name, as in a directory.
pub open spec fn distinct(entries: Seq<HidrawEntryView>) -> bool {
    forall|i: int, j: int|
        0 <= i < j < entries.len() ==> (#[trigger] entries[i]).name != (#[trigger] entries[j]).name
}

proof fn put_in_keeps_order(entries: Seq<HidrawEntryView>, entry: HidrawEntryView)
    requires
        ascending(entries),
    ensures
        ascending(put_in(entries, entry)),
        put_in(entries, entry).to_multiset() == entries.to_multiset().insert(entry),
        forall|i: int|
            0 <= i < put_in(entries, entry).len() ==> (#[trigger] put_in(entries, entry)[i])
                == entry || entries.contains(put_in(entries, entry)[i]),
    decreases entries.len(),
{
    broadcast use vstd::seq_lib::group_to_multiset_ensures;

    let all = put_in(entries, entry);
    if entries.len() == 0 || name_le(entries.last().name, entry.name) {
        assert forall|i: int, j: int| 0 <= i < j < all.len() implies name_le(
            (#[trigger] all[i]).name,
            (#[trigger] all[j]).name,
        ) by {
            if j == entries.len() && i < entries.len() - 1 {
                names_are_transitive(entries[i].name, entries.last().name, entry.name);
            }
        }
        assert forall|i: int| 0 <= i < all.len() implies (#[trigger] all[i]) == entry
            || entries.contains(all[i]) by {
            if i < entries.len() {
                assert(entries[i] == all[i]);
            }
        }
    } else {
        let rest = entries.drop_last();
        let last = entries.last();
        put_in_keeps_order(rest, entry);
        names_are_ordered(last.name, entry.name);
        let front = put_in(rest, entry);
        assert forall|i: int| 0 <= i < front.len() implies name_le(
            (#[trigger] front[i]).name,
            last.name,
        ) by {
            if front[i] != entry {
                let k = rest.index_of(front[i]);
                assert(entries[k] == front[i]);
                assert(entries[entries.len() - 1] == last);
            }
        }
        assert forall|i: int| 0 <= i < all.len() implies (#[trigger] all[i]) == entry
            || entries.contains(all[i]) by {
            if i < front.len() {
                if front[i] != entry {
                    let k = rest.index_of(front[i]);
                    assert(entries[k] == all[i]);
                }
            } else {
                assert(entries[entries.len() - 1] == all[i]);
            }
        }
        assert(entries =~= rest.push(last));
        assert(all.to_multiset() =~= entries.to_multiset().insert(entry));
    }
}

/// Sorting puts the entries into the order of their names, and neither loses nor adds any.
pub proof fn sorting_orders_the_entries(entries: Seq<HidrawEntryView>)
    ensures
        ascending(by_name(entries)),
        by_name(entries).to_multiset() == entries.to_multiset(),
    decreases entries.len(),
{
    broadcast use vstd::seq_lib::group_to_multiset_ensures;

    if entries.len() > 0 {
        sorting_orders_the_entries(entries.drop_last());
        put_in_keeps_order(by_name(entries.drop_last()), entries.last());
        assert(entries =~= entries.drop_last().push(entries.last()));
    } else {
        assert(by_name(entries) =~= entries);
    }
}

proof fn ascending_is_unique(a: Seq<HidrawEntryView>, b: Seq<HidrawEntryView>)
    requires
        ascending(a),
        ascending(b),
        distinct(a),
        distinct(b),
        a.to_multiset() == b.to_multiset(),
    ensures
        a == b,
    decreases a.len(),
{
    broadcast use vstd::seq_lib::group_to_multiset_ensures;

    vstd::seq_lib::to_multiset_len(a);
    vstd::seq_lib::to_multiset_len(b);
    if a.len() > 0 {
        let x = a.last();
        let y = b.last();
        assert(a[a.len() - 1] == x && b[b.len() - 1] == y);
        assert(a.contains(x) && b.contains(y));
        assert(b.to_multiset().count(x) > 0 && a.to_multiset().count(y) > 0);
        let j = b.index_of(x);
        let k = a.index_of(y);
        assert(b[j] == x && a[k] == y);
        names_are_ordered(x.name, y.name);
        assert(x == y);
        let front = a.drop_last();
        let other = b.drop_last();
        assert(front =~= a.remove(a.len() - 1));
        assert(other =~= b.remove(b.len() - 1));
        ascending_is_unique(front, other);
        assert(a =~= front.push(x));
        assert(b =~= other.push(y));
    } else {
        assert(a =~= b);
    }
}

proof fn same_entries_are_distinct(a: Seq<HidrawEntryView>, b: Seq<HidrawEntryView>)
    requires
        distinct(a),
        a.to_multiset() == b.to_multiset(),
    ensures
        distinct(b),
{
    broadcast use vstd::seq_lib::group_to_multiset_ensures;

    assert forall|i: int, j: int| 0 <= i < j < b.len() implies (#[trigger] b[i]).name != (
    #[trigger] b[j]).name by {
        assert(b.contains(b[i]) && b.contains(b[j]));
        assert(b.to_multiset().count(b[i]) > 0 && b.to_multiset().count(b[j]) > 0);
        let k = a.index_of(b[i]);
        let m = a.index_of(b[j]);
        assert(a.contains(b[i]) && a.contains(b[j]));
        assert(a[k] == b[i] && a[m] == b[j]);
        if b[i].name == b[j].name {
            assert(k == m);
            // The same entry would be in `b` twice and in `a` once.
            let e = b[i];
            let b1 = b.remove(j);
            assert(b1[i] == e);
            assert(b1.contains(e));
            assert(b1.to_multiset().count(e) > 0);
            let a1 = a.remove(k);
            assert(a1.to_multiset() == b1.to_multiset());
            assert(a1.to_multiset().count(e) > 0);
            let n = a1.index_of(e);
            assert(a1.contains(e) && a1[n] == e);
            let n2 = if n < k {
                n
            } else {
                n + 1
            };
            assert(a[n2] == e && n2 != k);
            assert(false);
        }
    }
}

/// The order in which the entries of a directory are read does not matter: what is found is the
/// same.
pub proof fn reading_order_does_not_matter(a: Seq<HidrawEntryView>, b: Seq<HidrawEntryView>)
    requires
        distinct(a),
        a.to_multiset() == b.to_multiset(),
    ensures
        by_name(a) == by_name(b),
        discovery::devices_of_all(by_name(a)) == discovery::devices_of_all(by_name(b)),
{
    sorting_orders_the_entries(a);
    sorting_orders_the_entries(b);
    same_entries_are_distinct(a, by_name(a));
    same_entries_are_distinct(a, by_name(b));
    ascending_is_unique(by_name(a), by_name(b));
}

/// Names are ordered by the first character in which they differ.
pub proof fn the_first_difference_decides(a: Seq<char>, b: Seq<char>, k: int)
    requires
        0 <= k < a.len(),
        k < b.len(),
        a.take(k) == b.take(k),
        a[k] < b[k],
    ensures
        name_le(a, b),
        !name_le(b, a),
    decreases k,
{
    if k > 0 {
        assert(a.take(k)[0] == a[0] && b.take(k)[0] == b[0]);
        assert(a.drop_first().take(k - 1) =~= a.take(k).drop_first());
        assert(b.drop_first().take(k - 1) =~= b.take(k).drop_first());
        the_first_difference_decides(a.drop_first(), b.drop_first(), k - 1);
    }
}

/// A name comes before all longer names that begin with it.
pub proof fn beginnings_come_first(a: Seq<char>, more: Seq<char>)
    ensures
        name_le(a, a + more),
        more.len() > 0 ==> !name_le(a + more, a),
    decreases a.len(),
{
    if a.len() > 0 {
        assert((a + more).drop_first() =~= a.drop_first() + more);
        beginnings_come_first(a.drop_first(), more);
    }
}

/// The entries with a given name, in the order in which they come.
pub open spec fn named(entries: Seq<HidrawEntryView>, name: Seq<char>) -> Seq<HidrawEntryView>
    decreases entries.len(),
{
    if entries.len() == 0 {
        Seq::empty()
    } else if entries.last().name == name {
        named(entries.drop_last(), name).push(entries.last())
    } else {
        named(entries.drop_last(), name)
    }
}

proof fn put_in_behind_its_name(
    entries: Seq<HidrawEntryView>,
    entry: HidrawEntryView,
    name: Seq<char>,
)
    ensures
        named(put_in(entries, entry), name) == if entry.name == name {
            named(entries, name).push(entry)
        } else {
            named(entries, name)
        },
    decreases entries.len(),
{
    let all = put_in(entries, entry);
    if entries.len() == 0 || name_le(entries.last().name, entry.name) {
        assert(all.drop_last() =~= entries);
    } else {
        beginnings_come_first(entry.name, Seq::empty());
        assert(entry.name + Seq::<char>::empty() =~= entry.name);
        put_in_behind_its_name(entries.drop_last(), entry, name);
        assert(all.drop_last() =~= put_in(entries.drop_last(), entry));
    }
}

/// Sorting leaves entries with the same name in the order in which they came.
pub proof fn same_names_stay_in_order(entries: Seq<HidrawEntryView>, name: Seq<char>)
    ensures
        named(by_name(entries), name) == named(entries, name),
    decreases entries.len(),
{
    if entries.len() > 0 {
        same_names_stay_in_order(entries.drop_last(), name);
        put_in_behind_its_name(by_name(entries.drop_last()), entries.last(), name);
    }
}

} // verus!
