//! A table from names to values, kept in dictionary order of the names.

use vstd::prelude::*;
use crate::text::{chars_of, lemma_text_lt_irreflexive, lemma_text_lt_total, lemma_text_lt_transitive, same_text, text_before, text_lt};

verus! {

/// Whether the names of `entries` rise strictly, in dictionary order.
pub open spec fn sorted<V>(entries: Seq<(Seq<char>, V)>) -> bool {
    forall|i: int, j: int|
        0 <= i < j < entries.len() ==> text_lt(#[trigger] entries[i].0, #[trigger] entries[j].0)
}

/// The value that `entries` holds under `name`: that of the first entry of
/// that name.
pub open spec fn value_of<V>(entries: Seq<(Seq<char>, V)>, name: Seq<char>) -> Option<V>
    decreases entries.len(),
{
    if entries.len() == 0 {
        None
    } else if entries[0].0 == name {
        Some(entries[0].1)
    } else {
        value_of(entries.drop_first(), name)
    }
}

/// How many entries at the start of `entries` have a name before `name`.
pub open spec fn rank<V>(entries: Seq<(Seq<char>, V)>, name: Seq<char>) -> nat
    decreases entries.len(),
{
    if entries.len() == 0 || !text_lt(entries[0].0, name) {
        0
    } else {
        1 + rank(entries.drop_first(), name)
    }
}

/// `entries` with `value` stored under `name`: in place of the entry of that
/// name, or as a new entry where the order of the names puts it.
pub open spec fn stored<V>(entries: Seq<(Seq<char>, V)>, name: Seq<char>, value: V) -> Seq<
    (Seq<char>, V),
> {
    let at = rank(entries, name) as int;
    if at < entries.len() && entries[at].0 == name {
        entries.update(at, (name, value))
    } else {
        entries.insert(at, (name, value))
    }
}

/// In a sorted table the rank of a name is where the names stop being
/// smaller.
pub proof fn lemma_rank<V>(entries: Seq<(Seq<char>, V)>, name: Seq<char>, at: int)
    requires
        0 <= at <= entries.len(),
        forall|j: int| 0 <= j < at ==> text_lt(#[trigger] entries[j].0, name),
        at < entries.len() ==> !text_lt(entries[at].0, name),
    ensures
        rank(entries, name) == at,
    decreases entries.len(),
{
    if entries.len() == 0 || !text_lt(entries[0].0, name) {
        if at > 0 {
            assert(text_lt(entries[0].0, name));
        }
    } else {
        let rest = entries.drop_first();
        assert forall|j: int| 0 <= j < at - 1 implies text_lt(#[trigger] rest[j].0, name) by {
            assert(rest[j] == entries[j + 1]);
        }
        lemma_rank(rest, name, at - 1);
    }
}

/// What a table holds under a name is found at the one position of that name.
pub proof fn lemma_value_at<V>(entries: Seq<(Seq<char>, V)>, name: Seq<char>, at: int)
    requires
        0 <= at <= entries.len(),
        forall|j: int| 0 <= j < at ==> (#[trigger] entries[j]).0 != name,
    ensures
        at < entries.len() && entries[at].0 == name ==> value_of(entries, name) == Some(
            entries[at].1,
        ),
        (forall|j: int| at <= j < entries.len() ==> (#[trigger] entries[j]).0 != name)
            ==> value_of(entries, name) is None,
    decreases entries.len(),
{
    if entries.len() == 0 {
    } else if entries[0].0 == name {
        assert(at == 0);
    } else {
        let rest = entries.drop_first();
        assert forall|j: int| 0 <= j < at - 1 implies (#[trigger] rest[j]).0 != name by {
            assert(rest[j] == entries[j + 1]);
        }
        if at == 0 {
            if forall|j: int| at <= j < entries.len() ==> (#[trigger] entries[j]).0 != name {
                assert(entries[0].0 != name);
            }
        }
        if at > 0 {
            lemma_value_at(rest, name, at - 1);
        } else {
            lemma_value_at(rest, name, 0);
        }
        if forall|j: int| at <= j < entries.len() ==> (#[trigger] entries[j]).0 != name {
            assert forall|j: int| 0 <= j < rest.len() implies (#[trigger] rest[j]).0 != name by {
                assert(rest[j] == entries[j + 1]);
            }
        }
    }
}

/// Storing a value keeps the table sorted, puts the value under its name and
/// leaves what stands under every other name.
pub proof fn lemma_stored<V>(entries: Seq<(Seq<char>, V)>, name: Seq<char>, value: V)
    requires
        sorted(entries),
    ensures
        sorted(stored(entries, name, value)),
        forall|other: Seq<char>| #[trigger]
            value_of(stored(entries, name, value), other) == if other == name {
                Some(value)
            } else {
                value_of(entries, other)
            },
{
    let after = stored(entries, name, value);
    let at = rank(entries, name) as int;
    lemma_rank_bounds(entries, name);
    assert forall|i: int, j: int| 0 <= i < j < after.len() implies text_lt(
        #[trigger] after[i].0,
        #[trigger] after[j].0,
    ) by {
        if at < entries.len() && entries[at].0 == name {
            assert(after[i].0 == entries[i].0);
            assert(after[j].0 == entries[j].0);
        } else {
            let before_i = if i < at {
                i
            } else {
                i - 1
            };
            let before_j = if j < at {
                j
            } else {
                j - 1
            };
            if i == at {
                // the new name against a later, larger one
                assert(after[j] == entries[j - 1]);
                lemma_text_lt_total(entries[at].0, name);
                if j - 1 > at {
                    lemma_text_lt_transitive(name, entries[at].0, entries[j - 1].0);
                }
            } else if j == at {
                assert(after[i] == entries[i]);
            } else {
                assert(after[i] == entries[before_i]);
                assert(after[j] == entries[before_j]);
            }
        }
    }
    assert forall|other: Seq<char>| #[trigger]
        value_of(after, other) == if other == name {
            Some(value)
        } else {
            value_of(entries, other)
        } by {
        lemma_stored_value(entries, name, value, other);
    }
}

/// The rank of a name lies within the table; the names before it are
/// smaller and the name at it is not.
pub proof fn lemma_rank_bounds<V>(entries: Seq<(Seq<char>, V)>, name: Seq<char>)
    ensures
        rank(entries, name) <= entries.len(),
        forall|j: int| 0 <= j < rank(entries, name) ==> text_lt(#[trigger] entries[j].0, name),
        rank(entries, name) < entries.len() ==> !text_lt(
            entries[rank(entries, name) as int].0,
            name,
        ),
    decreases entries.len(),
{
    if entries.len() == 0 || !text_lt(entries[0].0, name) {
    } else {
        let rest = entries.drop_first();
        lemma_rank_bounds(rest, name);
        assert forall|j: int| 0 <= j < rank(entries, name) implies text_lt(
            #[trigger] entries[j].0,
            name,
        ) by {
            if j > 0 {
                assert(entries[j] == rest[j - 1]);
            }
        }
    }
}

/// In a sorted table no two entries share a name, so the value under a name
/// is that of any entry of that name.
pub proof fn lemma_value_of_sorted<V>(entries: Seq<(Seq<char>, V)>, name: Seq<char>)
    requires
        sorted(entries),
    ensures
        forall|i: int|
            0 <= i < entries.len() && (#[trigger] entries[i]).0 == name ==> value_of(
                entries,
                name,
            ) == Some(entries[i].1),
        (forall|i: int| 0 <= i < entries.len() ==> (#[trigger] entries[i]).0 != name)
            ==> value_of(entries, name) is None,
{
    assert forall|i: int| 0 <= i < entries.len() && (#[trigger] entries[i]).0 == name implies value_of(
        entries,
        name,
    ) == Some(entries[i].1) by {
        assert forall|j: int| 0 <= j < i implies (#[trigger] entries[j]).0 != name by {
            assert(text_lt(entries[j].0, entries[i].0));
            lemma_text_lt_irreflexive(name);
        }
        lemma_value_at(entries, name, i);
    }
    lemma_value_at(entries, name, 0);
}

proof fn lemma_stored_value<V>(
    entries: Seq<(Seq<char>, V)>,
    name: Seq<char>,
    value: V,
    other: Seq<char>,
)
    requires
        sorted(entries),
        sorted(stored(entries, name, value)),
    ensures
        value_of(stored(entries, name, value), other) == if other == name {
            Some(value)
        } else {
            value_of(entries, other)
        },
{
    let after = stored(entries, name, value);
    let at = rank(entries, name) as int;
    lemma_rank_bounds(entries, name);
    lemma_value_of_sorted(after, other);
    lemma_value_of_sorted(entries, other);
    let replaced = at < entries.len() && entries[at].0 == name;
    assert(after[at] == (name, value));
    if other != name {
        if exists|i: int| 0 <= i < entries.len() && (#[trigger] entries[i]).0 == other {
            let i = choose|i: int| 0 <= i < entries.len() && (#[trigger] entries[i]).0 == other;
            let moved = if replaced || i < at {
                i
            } else {
                i + 1
            };
            assert(after[moved] == entries[i]);
        } else {
            assert forall|k: int| 0 <= k < after.len() implies (#[trigger] after[k]).0
                != other by {
                if k != at {
                    let origin = if replaced || k < at {
                        k
                    } else {
                        k - 1
                    };
                    assert(after[k] == entries[origin]);
                }
            }
        }
    }
}

/// One row of a table.
pub struct Entry<V> {
    pub name: String,
    pub value: V,
}

/// A table from names to values. Its rows stand in dictionary order of the
/// names, and no name stands twice.
pub struct NameTable<V> {
    entries: Vec<Entry<V>>,
}

/// What a list of rows holds: for each row its name and its value.
pub open spec fn rows_view<V>(rows: Seq<Entry<V>>) -> Seq<(Seq<char>, V)> {
    Seq::new(rows.len(), |i: int| (rows[i].name@, rows[i].value))
}

/// The table that a list of rows makes: each row is stored under its name,
/// and of two rows of one name the first counts.
pub open spec fn loaded<V>(rows: Seq<(Seq<char>, V)>) -> Seq<(Seq<char>, V)>
    decreases rows.len(),
{
    if rows.len() == 0 {
        rows
    } else {
        stored(loaded(rows.drop_first()), rows[0].0, rows[0].1)
    }
}

/// Rows that stand in order with no name twice, as a table writes them, make
/// the table that wrote them: writing a table out and reading it back
/// changes nothing.
pub proof fn lemma_loaded_sorted<V>(rows: Seq<(Seq<char>, V)>)
    requires
        sorted(rows),
    ensures
        loaded(rows) == rows,
    decreases rows.len(),
{
    if rows.len() > 0 {
        let rest = rows.drop_first();
        assert forall|i: int, j: int| 0 <= i < j < rest.len() implies text_lt(
            #[trigger] rest[i].0,
            #[trigger] rest[j].0,
        ) by {
            assert(rest[i] == rows[i + 1]);
            assert(rest[j] == rows[j + 1]);
        }
        lemma_loaded_sorted(rest);
        if rest.len() > 0 {
            assert(rest[0] == rows[1]);
            assert(text_lt(rows[0].0, rows[1].0));
            lemma_text_lt_irreflexive(rows[0].0);
            if text_lt(rest[0].0, rows[0].0) {
                lemma_text_lt_transitive(rows[0].0, rest[0].0, rows[0].0);
            }
        }
        lemma_rank(rest, rows[0].0, 0);
        assert(rest.insert(0, rows[0]) =~= rows);
    }
}

impl<V> View for NameTable<V> {
    type V = Seq<(Seq<char>, V)>;

    closed spec fn view(&self) -> Seq<(Seq<char>, V)> {
        rows_view(self.entries@)
    }
}

impl<V: Copy> NameTable<V> {
    /// Whether the rows stand in order: what every table made by this
    /// module's functions satisfies.
    pub open spec fn wf(&self) -> bool {
        sorted(self@)
    }

    /// The empty table.
    pub fn new() -> (table: Self)
        ensures
            table@ == Seq::<(Seq<char>, V)>::empty(),
            table.wf(),
    {
        let table = NameTable { entries: Vec::new() };
        assert(table@ =~= Seq::<(Seq<char>, V)>::empty());
        table
    }

    /// Makes a table of the rows of a document. Of two rows of one name the
    /// first counts; rows that stand in order are taken as they stand.
    pub fn from_rows(rows: &Vec<Entry<V>>) -> (table: Self)
        ensures
            table.wf(),
            table@ == loaded(rows_view(rows@)),
    {
        let mut table = NameTable::new();
        let ghost all = rows_view(rows@);
        let mut i: usize = rows.len();
        assert(all.skip(i as int) =~= Seq::<(Seq<char>, V)>::empty());
        while i > 0
            invariant
                i <= rows@.len(),
                all == rows_view(rows@),
                table.wf(),
                table@ == loaded(all.skip(i as int)),
            decreases i,
        {
            i -= 1;
            assert(all.skip(i as int).drop_first() =~= all.skip(i + 1));
            assert(all.skip(i as int)[0] == all[i as int]);
            table.put(rows[i].name.as_str(), rows[i].value);
        }
        assert(all.skip(0) =~= all);
        table
    }

    /// The rows of the table, in the order of the names: what a document
    /// holds of it.
    pub fn to_rows(&self) -> (rows: Vec<Entry<V>>)
        ensures
            rows_view(rows@) == self@,
    {
        let mut rows: Vec<Entry<V>> = Vec::new();
        let mut i: usize = 0;
        while i < self.entries.len()
            invariant
                i <= self.entries@.len(),
                rows@.len() == i,
                forall|k: int|
                    0 <= k < i ==> (#[trigger] rows@[k]).name@ == self.entries@[k].name@
                        && rows@[k].value == self.entries@[k].value,
            decreases self.entries@.len() - i,
        {
            rows.push(Entry { name: self.entries[i].name.clone(), value: self.entries[i].value });
            i += 1;
        }
        assert(rows_view(rows@) =~= self@);
        rows
    }

    /// The number of rows.
    pub fn len(&self) -> (len: usize)
        ensures
            len == self@.len(),
    {
        self.entries.len()
    }

    /// The name of row `i`.
    pub fn name_at(&self, i: usize) -> (name: &String)
        requires
            i < self@.len(),
        ensures
            name@ == self@[i as int].0,
    {
        &self.entries[i].name
    }

    /// The value of row `i`.
    pub fn value_at(&self, i: usize) -> (value: V)
        requires
            i < self@.len(),
        ensures
            value == self@[i as int].1,
    {
        self.entries[i].value
    }

    /// Where `name` stands or would stand, and whether it stands there.
    fn locate(&self, name: &[char]) -> (place: (usize, bool))
        requires
            self.wf(),
        ensures
            place.0 == rank(self@, name@),
            place.0 <= self@.len(),
            place.1 == (place.0 < self@.len() && self@[place.0 as int].0 == name@),
    {
        let mut at: usize = 0;
        while at < self.entries.len()
            invariant
                at <= self@.len(),
                self@.len() == self.entries@.len(),
                forall|j: int| 0 <= j < at ==> text_lt(#[trigger] self@[j].0, name@),
            ensures
                at <= self@.len(),
                forall|j: int| 0 <= j < at ==> text_lt(#[trigger] self@[j].0, name@),
                at < self@.len() ==> !text_lt(self@[at as int].0, name@),
            decreases self@.len() - at,
        {
            let row = chars_of(self.entries[at].name.as_str());
            assert(row@ == self@[at as int].0);
            if !text_before(row.as_slice(), name) {
                break ;
            }
            at += 1;
        }
        proof {
            lemma_rank(self@, name@, at as int);
        }
        if at < self.entries.len() {
            let row = chars_of(self.entries[at].name.as_str());
            assert(row@ == self@[at as int].0);
            (at, same_text(row.as_slice(), name))
        } else {
            (at, false)
        }
    }

    /// The value stored under `name`, if any.
    pub fn get(&self, name: &str) -> (value: Option<V>)
        requires
            self.wf(),
        ensures
            value == value_of(self@, name@),
    {
        let chars = chars_of(name);
        let (at, found) = self.locate(chars.as_slice());
        proof {
            lemma_value_of_sorted(self@, name@);
            lemma_rank_bounds(self@, name@);
            if !found {
                assert forall|i: int| 0 <= i < self@.len() implies (#[trigger] self@[i]).0
                    != name@ by {
                    if i < at {
                        lemma_text_lt_irreflexive(name@);
                    } else {
                        if i > at {
                            lemma_rank_gap(self@, name@, i);
                        }
                    }
                }
            }
        }
        if found {
            Some(self.entries[at].value)
        } else {
            None
        }
    }

    /// Stores `value` under `name`, in place of what stood there.
    pub fn put(&mut self, name: &str, value: V)
        requires
            old(self).wf(),
        ensures
            final(self)@ == stored(old(self)@, name@, value),
            final(self).wf(),
            forall|other: Seq<char>| #[trigger]
                value_of(final(self)@, other) == if other == name@ {
                    Some(value)
                } else {
                    value_of(old(self)@, other)
                },
    {
        let chars = chars_of(name);
        let (at, found) = self.locate(chars.as_slice());
        proof {
            lemma_stored(self@, name@, value);
        }
        let entry = Entry { name: name.to_owned(), value };
        if found {
            self.entries.set(at, entry);
        } else {
            self.entries.insert(at, entry);
        }
        assert(self@ =~= stored(old(self)@, name@, value));
    }
}

/// In a sorted table the rows after the rank of a name have larger names.
pub proof fn lemma_rank_gap<V>(entries: Seq<(Seq<char>, V)>, name: Seq<char>, i: int)
    requires
        sorted(entries),
        rank(entries, name) < i < entries.len(),
    ensures
        entries[i].0 != name,
        text_lt(name, entries[i].0),
{
    let at = rank(entries, name) as int;
    lemma_rank_bounds(entries, name);
    lemma_text_lt_total(entries[at].0, name);
    assert(text_lt(entries[at].0, entries[i].0));
    if entries[at].0 != name {
        lemma_text_lt_transitive(name, entries[at].0, entries[i].0);
    }
    lemma_text_lt_irreflexive(name);
}

} // verus!
