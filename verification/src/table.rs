//! A small table keyed by symbol, kept as a list in which no key occurs twice.

use vstd::prelude::*;

verus! {

/// One row of a table.
pub struct Entry<V> {
    pub key: String,
    pub value: V,
}

/// The value that the rows hold for `key`, if any.
pub open spec fn lookup<V>(rows: Seq<Entry<V>>, key: Seq<char>) -> Option<V>
    decreases rows.len(),
{
    if rows.len() == 0 {
        None
    } else if rows.last().key@ == key {
        Some(rows.last().value)
    } else {
        lookup(rows.drop_last(), key)
    }
}

/// No key stands in two rows.
pub open spec fn distinct_keys<V>(rows: Seq<Entry<V>>) -> bool {
    forall|i: int, j: int| 0 <= i < j < rows.len() ==> rows[i].key@ != rows[j].key@
}

/// Overwriting the row of a key leaves every other key as it was.
pub proof fn lemma_lookup_update<V>(rows: Seq<Entry<V>>, i: int, row: Entry<V>, key: Seq<char>)
    requires
        0 <= i < rows.len(),
        row.key@ == rows[i].key@,
        distinct_keys(rows),
    ensures
        lookup(rows.update(i, row), key) == if key == row.key@ {
            Some(row.value)
        } else {
            lookup(rows, key)
        },
    decreases rows.len(),
{
    let after = rows.update(i, row);
    if i == rows.len() - 1 {
        assert(after.drop_last() =~= rows.drop_last());
    } else {
        assert(after.drop_last() =~= rows.drop_last().update(i, row));
        lemma_lookup_update(rows.drop_last(), i, row, key);
    }
}

/// A key that no row holds has no value.
pub proof fn lemma_lookup_absent<V>(rows: Seq<Entry<V>>, key: Seq<char>)
    requires
        forall|i: int| 0 <= i < rows.len() ==> rows[i].key@ != key,
    ensures
        lookup(rows, key) is None,
    decreases rows.len(),
{
    if rows.len() > 0 {
        lemma_lookup_absent(rows.drop_last(), key);
    }
}

/// A table from symbols to values.
pub struct SymbolTable<V> {
    rows: Vec<Entry<V>>,
}

impl<V: Copy> SymbolTable<V> {
    /// The table's invariant: no symbol has two rows.
    pub closed spec fn wf(&self) -> bool {
        distinct_keys(self.rows@)
    }

    /// The table as a map.
    pub closed spec fn view(&self) -> Map<Seq<char>, V> {
        Map::new(
            |k: Seq<char>| lookup(self.rows@, k) is Some,
            |k: Seq<char>| lookup(self.rows@, k)->0,
        )
    }

    /// An empty table.
    pub fn new() -> (t: Self)
        ensures
            t.wf(),
            t@ == Map::<Seq<char>, V>::empty(),
    {
        let t = SymbolTable { rows: Vec::new() };
        assert(t@ =~= Map::<Seq<char>, V>::empty());
        t
    }

    fn position(&self, key: &String) -> (r: Option<usize>)
        ensures
            match r {
                Some(i) => i < self.rows@.len() && self.rows@[i as int].key@ == key@,
                None => forall|i: int| 0 <= i < self.rows@.len() ==> self.rows@[i].key@ != key@,
            },
    {
        let mut i: usize = 0;
        while i < self.rows.len()
            invariant
                i <= self.rows@.len(),
                forall|k: int| 0 <= k < i ==> self.rows@[k].key@ != key@,
            decreases self.rows@.len() - i,
        {
            if self.rows[i].key.eq(key) {
                return Some(i);
            }
            i += 1;
        }
        None
    }

    /// The value of `key`, if it has one.
    pub fn get(&self, key: &str) -> (r: Option<V>)
        requires
            self.wf(),
        ensures
            r == (if self@.contains_key(key@) {
                Some(self@[key@])
            } else {
                None
            }),
    {
        let owned = key.to_owned();
        match self.position(&owned) {
            Some(i) => {
                proof {
                    lemma_lookup_update(self.rows@, i as int, self.rows@[i as int], key@);
                    assert(self.rows@.update(i as int, self.rows@[i as int]) =~= self.rows@);
                }
                Some(self.rows[i].value)
            },
            None => {
                proof {
                    lemma_lookup_absent(self.rows@, key@);
                }
                None
            },
        }
    }

    /// Gives `key` the value `value`, in place of the one it had.
    pub fn insert(&mut self, key: &str, value: V)
        requires
            old(self).wf(),
        ensures
            final(self).wf(),
            final(self)@ == old(self)@.insert(key@, value),
    {
        let owned = key.to_owned();
        let ghost before = self.rows@;
        match self.position(&owned) {
            Some(i) => {
                let row = Entry { key: owned, value };
                self.rows.set(i, row);
                proof {
                    assert forall|k: Seq<char>|
                        lookup(self.rows@, k) == (if k == key@ {
                            Some(value)
                        } else {
                            lookup(before, k)
                        }) by {
                        lemma_lookup_update(before, i as int, row, k);
                    }
                }
            },
            None => {
                let row = Entry { key: owned, value };
                self.rows.push(row);
                proof {
                    assert(self.rows@.drop_last() =~= before);
                    lemma_lookup_absent(before, key@);
                }
            },
        }
        assert(self@ =~= old(self)@.insert(key@, value));
    }
}

} // verus!
