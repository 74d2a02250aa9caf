//! Configuration overrides given on the invocation: a mapping from option name to
//! value, kept in the order of its keys so that it is always written out the
//! same way.

use vstd::prelude::*;
use crate::key_order::{key_precedes, lemma_key_order, precedes};

verus! {

/// One override as the contracts see it: the option's name and its value.
pub type Entry = (Seq<char>, Seq<char>);

/// Each key comes strictly before every key after it.
pub open spec fn ascending_keys(entries: Seq<Entry>) -> bool {
    forall|i: int, j: int|
        0 <= i < j < entries.len() ==> key_precedes(
            (#[trigger] entries[i]).0,
            (#[trigger] entries[j]).0,
        )
}

/// Some entry has the key `key`.
pub open spec fn holds_key(entries: Seq<Entry>, key: Seq<char>) -> bool {
    exists|i: int| 0 <= i < entries.len() && (#[trigger] entries[i]).0 == key
}

/// A position at which `key` is held, where there is one.
pub open spec fn position_of(entries: Seq<Entry>, key: Seq<char>) -> int {
    choose|i: int| 0 <= i < entries.len() && (#[trigger] entries[i]).0 == key
}

/// The mapping that a sequence of entries stands for.
pub open spec fn entries_map(entries: Seq<Entry>) -> Map<Seq<char>, Seq<char>> {
    Map::new(
        |key: Seq<char>| holds_key(entries, key),
        |key: Seq<char>| entries[position_of(entries, key)].1,
    )
}

/// In entries with ascending keys no key occurs twice.
pub proof fn lemma_keys_unique(entries: Seq<Entry>, i: int, j: int)
    requires
        ascending_keys(entries),
        0 <= i < entries.len(),
        0 <= j < entries.len(),
        entries[i].0 == entries[j].0,
    ensures
        i == j,
{
    let key = entries[i].0;
    lemma_key_order(key, key, key);
    if i < j {
        assert(key_precedes(entries[i].0, entries[j].0));
    } else if j < i {
        assert(key_precedes(entries[j].0, entries[i].0));
    }
}

/// With ascending keys the mapping holds each entry's value under its key.
pub proof fn lemma_entry_in_map(entries: Seq<Entry>, i: int)
    requires
        ascending_keys(entries),
        0 <= i < entries.len(),
    ensures
        entries_map(entries).contains_key(entries[i].0),
        entries_map(entries)[entries[i].0] == entries[i].1,
{
    let key = entries[i].0;
    assert(holds_key(entries, key));
    lemma_keys_unique(entries, i, position_of(entries, key));
}

/// Entries with ascending keys are fixed by the mapping they stand for: the
/// order in which the entries were put in leaves no trace.
pub proof fn lemma_entries_fixed_by_map(a: Seq<Entry>, b: Seq<Entry>)
    requires
        ascending_keys(a),
        ascending_keys(b),
        entries_map(a) == entries_map(b),
    ensures
        a == b,
    decreases a.len(),
{
    if a.len() == 0 {
        if b.len() > 0 {
            lemma_entry_in_map(b, 0);
            assert(holds_key(a, b[0].0));
        }
        assert(a =~= b);
    } else if b.len() == 0 {
        lemma_entry_in_map(a, 0);
        assert(holds_key(b, a[0].0));
    } else {
        let (m, n) = (a.len() - 1, b.len() - 1);
        // The last entries hold the greatest key of the mapping on both sides.
        lemma_entry_in_map(a, m);
        lemma_entry_in_map(b, n);
        assert(holds_key(b, a[m].0));
        assert(holds_key(a, b[n].0));
        let i = position_of(a, b[n].0);
        let j = position_of(b, a[m].0);
        lemma_key_order(a[m].0, b[n].0, a[m].0);
        if i < m {
            assert(key_precedes(a[i].0, a[m].0));
        }
        if j < n {
            assert(key_precedes(b[j].0, b[n].0));
        }
        assert(a[m].0 == b[n].0);
        assert(a[m] == b[n]);
        let (x, y) = (a.drop_last(), b.drop_last());
        assert(ascending_keys(x)) by {
            assert forall|i: int, j: int| 0 <= i < j < x.len() implies key_precedes(
                (#[trigger] x[i]).0,
                (#[trigger] x[j]).0,
            ) by {
                assert(key_precedes(a[i].0, a[j].0));
            }
        }
        assert(ascending_keys(y)) by {
            assert forall|i: int, j: int| 0 <= i < j < y.len() implies key_precedes(
                (#[trigger] y[i]).0,
                (#[trigger] y[j]).0,
            ) by {
                assert(key_precedes(b[i].0, b[j].0));
            }
        }
        assert(entries_map(x) =~= entries_map(y)) by {
            lemma_drop_last_map(a);
            lemma_drop_last_map(b);
        }
        lemma_entries_fixed_by_map(x, y);
        assert(a =~= x.push(a[m]));
        assert(b =~= y.push(b[n]));
    }
}

/// Dropping the last of entries with ascending keys removes its key from the
/// mapping and leaves the rest as it was.
proof fn lemma_drop_last_map(entries: Seq<Entry>)
    requires
        ascending_keys(entries),
        entries.len() > 0,
    ensures
        entries_map(entries.drop_last()) == entries_map(entries).remove(entries.last().0),
{
    let rest = entries.drop_last();
    let last = entries.len() - 1;
    assert(ascending_keys(rest)) by {
        assert forall|i: int, j: int| 0 <= i < j < rest.len() implies key_precedes(
            (#[trigger] rest[i]).0,
            (#[trigger] rest[j]).0,
        ) by {
            assert(key_precedes(entries[i].0, entries[j].0));
        }
    }
    let left = entries_map(rest);
    let right = entries_map(entries).remove(entries.last().0);
    assert forall|key: Seq<char>| left.contains_key(key) implies right.contains_key(key)
        && right[key] == left[key] by {
        let i = position_of(rest, key);
        assert(rest[i] == entries[i]);
        if key == entries[last].0 {
            lemma_keys_unique(entries, i, last);
        }
        lemma_entry_in_map(entries, i);
        lemma_entry_in_map(rest, i);
    }
    assert forall|key: Seq<char>| right.contains_key(key) implies left.contains_key(key) by {
        let i = position_of(entries, key);
        assert(i != last);
        assert(rest[i] == entries[i]);
    }
    assert(left =~= right);
}

/// The overrides of one request: option names with their values, unique by
/// name and kept in the order of the names.
#[derive(Debug, PartialEq, Eq)]
pub struct ConfigOverrides {
    entries: Vec<(String, String)>,
}

impl View for ConfigOverrides {
    type V = Seq<Entry>;

    /// The entries in the order in which they are written out.
    closed spec fn view(&self) -> Seq<Entry> {
        self.entries.deep_view()
    }
}

impl ConfigOverrides {
    #[verifier::type_invariant]
    spec fn in_key_order(self) -> bool {
        ascending_keys(self.entries.deep_view())
    }

    /// The mapping from option name to value.
    pub open spec fn as_map(&self) -> Map<Seq<char>, Seq<char>> {
        entries_map(self@)
    }

    /// Makes an empty set of overrides.
    pub fn new() -> (overrides: Self)
        ensures
            overrides@ == Seq::<Entry>::empty(),
    {
        let overrides = ConfigOverrides { entries: Vec::new() };
        assert(overrides.entries.deep_view() =~= Seq::<Entry>::empty());
        overrides
    }

    /// Returns how many options are overridden.
    pub fn len(&self) -> (count: usize)
        ensures
            count == self@.len(),
    {
        self.entries.len()
    }

    /// Tells whether no option is overridden.
    pub fn is_empty(&self) -> (empty: bool)
        ensures
            empty == (self@.len() == 0),
    {
        self.entries.len() == 0
    }

    /// Hands out the entries in the order of their keys.
    pub fn entries(&self) -> (entries: &Vec<(String, String)>)
        ensures
            entries.deep_view() == self@,
            ascending_keys(self@),
    {
        proof {
            use_type_invariant(self);
        }
        &self.entries
    }

    /// Sets the option `key` to `value` and returns the value that the option
    /// was overridden with before, if it was.
    pub fn insert(&mut self, key: String, value: String) -> (previous: Option<String>)
        ensures
            final(self).as_map() == old(self).as_map().insert(key@, value@),
            ascending_keys(final(self)@),
            previous.deep_view() == (if old(self).as_map().contains_key(key@) {
                Some(old(self).as_map()[key@])
            } else {
                None
            }),
            final(self)@.len() == (if old(self).as_map().contains_key(key@) {
                old(self)@.len()
            } else {
                old(self)@.len() + 1
            }),
    {
        proof {
            use_type_invariant(&*self);
        }
        let mut entries: Vec<(String, String)> = Vec::new();
        std::mem::swap(&mut entries, &mut self.entries);
        let ghost before = entries.deep_view();
        let ghost entry = (key@, value@);
        let mut at: usize = 0;
        while at < entries.len() && precedes(entries[at].0.as_str(), key.as_str())
            invariant
                at <= entries.len(),
                before == entries.deep_view(),
                forall|j: int| 0 <= j < at ==> key_precedes((#[trigger] before[j]).0, key@),
            decreases entries.len() - at,
        {
            at += 1;
        }
        let held = at < entries.len() && entries[at].0 == key;
        let previous = if held {
            let (_, replaced) = entries.remove(at);
            Some(replaced)
        } else {
            None
        };
        entries.insert(at, (key, value));
        proof {
            let after = entries.deep_view();
            let n = at as int;
            if held {
                assert(after =~= before.update(n, entry));
                lemma_update_value(before, n, entry);
                lemma_entry_in_map(before, n);
            } else {
                assert(after =~= before.insert(n, entry));
                if n < before.len() {
                    lemma_key_order(before[n].0, key@, key@);
                }
                lemma_insert_entry(before, n, entry);
            }
        }
        self.entries = entries;
        previous
    }
}

/// Replacing the value of the entry at `at` keeps the keys ascending and sets
/// the key's value in the mapping.
proof fn lemma_update_value(entries: Seq<Entry>, at: int, entry: Entry)
    requires
        ascending_keys(entries),
        0 <= at < entries.len(),
        entries[at].0 == entry.0,
    ensures
        ascending_keys(entries.update(at, entry)),
        entries_map(entries.update(at, entry)) == entries_map(entries).insert(entry.0, entry.1),
{
    let after = entries.update(at, entry);
    assert forall|i: int, j: int| 0 <= i < j < after.len() implies key_precedes(
        (#[trigger] after[i]).0,
        (#[trigger] after[j]).0,
    ) by {
        assert(key_precedes(entries[i].0, entries[j].0));
    }
    let left = entries_map(after);
    let right = entries_map(entries).insert(entry.0, entry.1);
    assert forall|key: Seq<char>| left.contains_key(key) implies right.contains_key(key)
        && right[key] == left[key] by {
        let i = position_of(after, key);
        lemma_entry_in_map(after, i);
        if i != at {
            assert(entries[i] == after[i]);
            lemma_entry_in_map(entries, i);
        }
    }
    assert forall|key: Seq<char>| right.contains_key(key) implies left.contains_key(key) by {
        if key == entry.0 {
            assert(after[at].0 == key);
        } else {
            let i = position_of(entries, key);
            assert(after[i].0 == key);
        }
    }
    assert(left =~= right);
}

/// Putting an entry with a new key at its place among ascending keys keeps
/// them ascending and adds the entry to the mapping.
proof fn lemma_insert_entry(entries: Seq<Entry>, at: int, entry: Entry)
    requires
        ascending_keys(entries),
        0 <= at <= entries.len(),
        forall|j: int| 0 <= j < at ==> key_precedes((#[trigger] entries[j]).0, entry.0),
        at < entries.len() ==> key_precedes(entry.0, entries[at].0),
    ensures
        ascending_keys(entries.insert(at, entry)),
        entries_map(entries.insert(at, entry)) == entries_map(entries).insert(entry.0, entry.1),
{
    let after = entries.insert(at, entry);
    assert forall|j: int| at <= j < entries.len() implies key_precedes(
        entry.0,
        (#[trigger] entries[j]).0,
    ) by {
        if at < j {
            assert(key_precedes(entries[at].0, entries[j].0));
            lemma_key_order(entry.0, entries[at].0, entries[j].0);
        }
    }
    assert forall|i: int, j: int| 0 <= i < j < after.len() implies key_precedes(
        (#[trigger] after[i]).0,
        (#[trigger] after[j]).0,
    ) by {
        if i == at {
            assert(after[j] == entries[j - 1]);
        } else if j == at {
            assert(after[i] == entries[i]);
        } else {
            let (p, q) = (if i < at { i } else { i - 1 }, if j < at { j } else { j - 1 });
            assert(after[i] == entries[p]);
            assert(after[j] == entries[q]);
            assert(key_precedes(entries[p].0, entries[q].0));
        }
    }
    let left = entries_map(after);
    let right = entries_map(entries).insert(entry.0, entry.1);
    assert forall|key: Seq<char>| left.contains_key(key) implies right.contains_key(key)
        && right[key] == left[key] by {
        let i = position_of(after, key);
        lemma_entry_in_map(after, i);
        if i != at {
            let p = if i < at { i } else { i - 1 };
            assert(after[i] == entries[p]);
            lemma_entry_in_map(entries, p);
            if key == entry.0 {
                assert(after[at].0 == key);
                lemma_keys_unique(after, i, at);
            }
        }
    }
    assert forall|key: Seq<char>| right.contains_key(key) implies left.contains_key(key) by {
        if key == entry.0 {
            assert(after[at].0 == key);
        } else {
            let p = position_of(entries, key);
            let i = if p < at { p } else { p + 1 };
            assert(after[i] == entries[p]);
        }
    }
    assert(left =~= right);
}

} // verus!
