//! The parameters of a request, kept in the order of their keys.

use crate::text::{
    compare, lemma_lex_asymmetric, lemma_lex_total, lemma_lex_transitive, lex_less, same_text,
    TextOrder,
};
use vstd::prelude::*;

verus! {

/// A key with its value.
pub type Pair = (Seq<char>, Seq<char>);

/// The keys stand in strictly rising order.
pub open spec fn sorted(list: Seq<Pair>) -> bool {
    forall|i: int, j: int| 0 <= i < j < list.len() ==> lex_less(list[i].0, list[j].0)
}

/// `list` after `key` was given `value`: the pair stands where the order of
/// the keys puts it, in place of an earlier pair of the same key.
pub open spec fn inserted(list: Seq<Pair>, key: Seq<char>, value: Seq<char>) -> Seq<Pair>
    decreases list.len(),
{
    if list.len() == 0 {
        seq![(key, value)]
    } else if lex_less(key, list[0].0) {
        seq![(key, value)] + list
    } else if list[0].0 == key {
        seq![(key, value)] + list.drop_first()
    } else {
        seq![list[0]] + inserted(list.drop_first(), key, value)
    }
}

/// The value that `list` holds for `key`, if any.
pub open spec fn value_of(list: Seq<Pair>, key: Seq<char>) -> Option<Seq<char>>
    decreases list.len(),
{
    if list.len() == 0 {
        None
    } else if list[0].0 == key {
        Some(list[0].1)
    } else {
        value_of(list.drop_first(), key)
    }
}

/// Pairs whose keys come before `key` are passed over by an insertion.
pub proof fn lemma_inserted_after(list: Seq<Pair>, key: Seq<char>, value: Seq<char>, i: int)
    requires
        0 <= i <= list.len(),
        forall|j: int| 0 <= j < i ==> lex_less(list[j].0, key),
    ensures
        inserted(list, key, value) == list.subrange(0, i) + inserted(
            list.subrange(i, list.len() as int),
            key,
            value,
        ),
    decreases i,
{
    if i == 0 {
        assert(list.subrange(0, list.len() as int) =~= list);
        assert(list.subrange(0, 0) + inserted(list, key, value) =~= inserted(list, key, value));
    } else {
        lemma_lex_asymmetric(list[0].0, key);
        let rest = list.drop_first();
        assert(forall|j: int| 0 <= j < i - 1 ==> rest[j] == list[j + 1]);
        lemma_inserted_after(rest, key, value, i - 1);
        assert(rest.subrange(i - 1, rest.len() as int) =~= list.subrange(i, list.len() as int));
        assert(seq![list[0]] + (rest.subrange(0, i - 1) + inserted(
            list.subrange(i, list.len() as int),
            key,
            value,
        )) =~= list.subrange(0, i) + inserted(list.subrange(i, list.len() as int), key, value));
    }
}

/// After an insertion the key has the new value and every other key the
/// value it had.
pub proof fn lemma_inserted_lookup(
    list: Seq<Pair>,
    key: Seq<char>,
    value: Seq<char>,
    other: Seq<char>,
)
    ensures
        value_of(inserted(list, key, value), other) == if other == key {
            Some(value)
        } else {
            value_of(list, other)
        },
    decreases list.len(),
{
    let out = inserted(list, key, value);
    if list.len() == 0 {
        assert(out.drop_first() =~= list);
    } else if lex_less(key, list[0].0) {
        assert(out.drop_first() =~= list);
    } else if list[0].0 == key {
        assert(out.drop_first() =~= list.drop_first());
    } else {
        lemma_inserted_lookup(list.drop_first(), key, value, other);
        assert(out.drop_first() =~= inserted(list.drop_first(), key, value));
    }
}

/// An insertion into a sorted list gives a sorted list, in which every pair
/// is the new one or one of the list.
pub proof fn lemma_inserted_sorted(list: Seq<Pair>, key: Seq<char>, value: Seq<char>)
    requires
        sorted(list),
    ensures
        sorted(inserted(list, key, value)),
        forall|i: int|
            0 <= i < inserted(list, key, value).len() ==> #[trigger] inserted(
                list,
                key,
                value,
            )[i].0 == key || exists|j: int|
                0 <= j < list.len() && list[j] == inserted(list, key, value)[i],
    decreases list.len(),
{
    let out = inserted(list, key, value);
    if list.len() == 0 {
    } else if lex_less(key, list[0].0) {
        assert forall|i: int, j: int| 0 <= i < j < out.len() implies lex_less(
            out[i].0,
            out[j].0,
        ) by {
            if i == 0 {
                if j > 1 {
                    lemma_lex_transitive(key, list[0].0, list[j - 1].0);
                }
            } else {
                assert(out[i] == list[i - 1] && out[j] == list[j - 1]);
            }
        }
        assert(out.drop_first() =~= list);
        assert forall|i: int| 0 <= i < out.len() implies #[trigger] out[i].0 == key || exists|
            j: int,
        |
            0 <= j < list.len() && list[j] == out[i] by {
            if i > 0 {
                assert(list[i - 1] == out[i]);
            }
        }
    } else if list[0].0 == key {
        assert(out.drop_first() =~= list.drop_first());
        assert forall|i: int, j: int| 0 <= i < j < out.len() implies lex_less(
            out[i].0,
            out[j].0,
        ) by {
            assert(out[i].0 == list[i].0 && out[j].0 == list[j].0);
        }
        assert forall|i: int| 0 <= i < out.len() implies #[trigger] out[i].0 == key || exists|
            j: int,
        |
            0 <= j < list.len() && list[j] == out[i] by {
            if i > 0 {
                assert(list[i] == out[i]);
            }
        }
    } else {
        let rest = list.drop_first();
        let tail = inserted(rest, key, value);
        assert(forall|j: int| 0 <= j < rest.len() ==> rest[j] == list[j + 1]);
        assert(sorted(rest));
        lemma_inserted_sorted(rest, key, value);
        assert(out.drop_first() =~= tail);
        lemma_lex_total(key, list[0].0);
        assert forall|i: int| 0 <= i < out.len() implies #[trigger] out[i].0 == key || exists|
            j: int,
        |
            0 <= j < list.len() && list[j] == out[i] by {
            if i > 0 {
                assert(out[i] == tail[i - 1]);
                if tail[i - 1].0 != key {
                    let j = choose|j: int| 0 <= j < rest.len() && rest[j] == tail[i - 1];
                    assert(list[j + 1] == out[i]);
                }
            } else {
                assert(list[0] == out[0]);
            }
        }
        assert forall|i: int, j: int| 0 <= i < j < out.len() implies lex_less(
            out[i].0,
            out[j].0,
        ) by {
            if i == 0 {
                assert(out[j] == tail[j - 1]);
                if tail[j - 1].0 != key {
                    let k = choose|k: int| 0 <= k < rest.len() && rest[k] == tail[j - 1];
                    assert(list[k + 1] == out[j]);
                }
            } else {
                assert(out[i] == tail[i - 1] && out[j] == tail[j - 1]);
            }
        }
    }
}

/// An insertion into a list that begins with `head`.
pub proof fn lemma_inserted_cons(head: Pair, tail: Seq<Pair>, key: Seq<char>, value: Seq<char>)
    ensures
        inserted(seq![head] + tail, key, value) == if lex_less(key, head.0) {
            seq![(key, value)] + (seq![head] + tail)
        } else if head.0 == key {
            seq![(key, value)] + tail
        } else {
            seq![head] + inserted(tail, key, value)
        },
{
    let list = seq![head] + tail;
    assert(list[0] == head);
    assert(list.drop_first() =~= tail);
}

/// The order in which two different keys are given their values makes no
/// difference to the list.
pub proof fn lemma_insert_order(
    list: Seq<Pair>,
    a: Seq<char>,
    x: Seq<char>,
    b: Seq<char>,
    y: Seq<char>,
)
    requires
        a != b,
    ensures
        inserted(inserted(list, a, x), b, y) == inserted(inserted(list, b, y), a, x),
    decreases list.len(),
{
    let none = Seq::<Pair>::empty();
    lemma_lex_total(a, b);
    if lex_less(a, b) {
        lemma_lex_asymmetric(a, b);
    } else {
        lemma_lex_asymmetric(b, a);
    }
    if list.len() == 0 {
        assert(seq![(a, x)] =~= seq![(a, x)] + none);
        assert(seq![(b, y)] =~= seq![(b, y)] + none);
        lemma_inserted_cons((a, x), none, b, y);
        lemma_inserted_cons((b, y), none, a, x);
    } else {
        let h = list[0];
        let t = list.drop_first();
        assert(list =~= seq![h] + t);
        lemma_lex_total(a, h.0);
        lemma_lex_total(b, h.0);
        if lex_less(a, h.0) {
            lemma_lex_asymmetric(a, h.0);
        }
        if lex_less(h.0, a) {
            lemma_lex_asymmetric(h.0, a);
        }
        if lex_less(b, h.0) {
            lemma_lex_asymmetric(b, h.0);
        }
        if lex_less(h.0, b) {
            lemma_lex_asymmetric(h.0, b);
        }
        if lex_less(a, h.0) && lex_less(h.0, b) {
            lemma_lex_transitive(a, h.0, b);
        }
        if lex_less(b, h.0) && lex_less(h.0, a) {
            lemma_lex_transitive(b, h.0, a);
        }
        lemma_inserted_cons(h, t, a, x);
        lemma_inserted_cons(h, t, b, y);
        lemma_inserted_cons((a, x), list, b, y);
        lemma_inserted_cons((b, y), list, a, x);
        lemma_inserted_cons((a, x), t, b, y);
        lemma_inserted_cons((b, y), t, a, x);
        lemma_inserted_cons(h, inserted(t, a, x), b, y);
        lemma_inserted_cons(h, inserted(t, b, y), a, x);
        lemma_insert_order(t, a, x, b, y);
    }
}

/// A list of request parameters in the order of their keys, each key once.
pub struct ParamList {
    items: Vec<(Vec<char>, Vec<char>)>,
}

impl ParamList {
    /// The pairs of the list, in order.
    pub closed spec fn view(&self) -> Seq<Pair> {
        Seq::new(self.items@.len(), |i: int| (self.items@[i].0@, self.items@[i].1@))
    }

    /// The list's invariant: the keys rise strictly.
    pub open spec fn wf(&self) -> bool {
        sorted(self@)
    }

    /// An empty list.
    pub fn new() -> (list: Self)
        ensures
            list@ == Seq::<Pair>::empty(),
            list.wf(),
    {
        let list = ParamList { items: Vec::new() };
        assert(list@ =~= Seq::<Pair>::empty());
        list
    }

    /// The number of pairs.
    pub fn len(&self) -> (n: usize)
        ensures
            n == self@.len(),
    {
        self.items.len()
    }

    /// The key of the pair at index `i`.
    pub fn key(&self, i: usize) -> (k: &Vec<char>)
        requires
            i < self@.len(),
        ensures
            k@ == self@[i as int].0,
    {
        &self.items[i].0
    }

    /// The value of the pair at index `i`.
    pub fn value(&self, i: usize) -> (v: &Vec<char>)
        requires
            i < self@.len(),
        ensures
            v@ == self@[i as int].1,
    {
        &self.items[i].1
    }

    /// Gives `key` the value `value`.
    pub fn insert(&mut self, key: Vec<char>, value: Vec<char>)
        requires
            old(self).wf(),
        ensures
            final(self)@ == inserted(old(self)@, key@, value@),
            final(self).wf(),
    {
        let ghost before = self@;
        let mut i: usize = 0;
        let mut found: bool = false;
        while i < self.items.len() && !found
            invariant
                self@ == before,
                i <= self.items@.len(),
                forall|j: int| 0 <= j < i ==> lex_less(before[j].0, key@),
                found ==> i < self.items@.len() && !lex_less(before[i as int].0, key@),
            decreases self.items@.len() - i + (if found { 0int } else { 1int }),
        {
            match compare(&self.items[i].0, &key) {
                TextOrder::Before => {
                    i += 1;
                },
                _ => {
                    found = true;
                },
            }
        }
        proof {
            lemma_inserted_after(before, key@, value@, i as int);
            lemma_inserted_sorted(before, key@, value@);
        }
        let ghost rest = before.subrange(i as int, before.len() as int);
        if found && same_text(&self.items[i].0, &key) {
            self.items.set(i, (key, value));
            assert(self@ =~= before.subrange(0, i as int) + (seq![(key@, value@)]
                + rest.drop_first()));
        } else {
            proof {
                if found {
                    lemma_lex_total(key@, before[i as int].0);
                }
            }
            self.items.insert(i, (key, value));
            assert(self@ =~= before.subrange(0, i as int) + (seq![(key@, value@)] + rest));
        }
    }
}

} // verus!
