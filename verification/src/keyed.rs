//! Lists of items that are found by a textual key, kept in the order in
//! which the items were added.

use vstd::prelude::*;

verus! {

/// An item with a textual key.
pub trait Keyed {
    /// The key, as a sequence of characters.
    spec fn key(&self) -> Seq<char>;

    /// The key, as stored.
    fn key_text(&self) -> (r: &String)
        ensures
            r@ == self.key(),
    ;
}

impl Keyed for String {
    open spec fn key(&self) -> Seq<char> {
        self@
    }

    fn key_text(&self) -> (r: &String) {
        self
    }
}

/// The keys of a list of items, in order.
pub open spec fn keys<T: Keyed>(items: Seq<T>) -> Seq<Seq<char>> {
    Seq::new(items.len(), |i: int| items[i].key())
}

/// Whether no key occurs twice.
pub open spec fn distinct(ks: Seq<Seq<char>>) -> bool {
    forall|i: int, j: int| 0 <= i < j < ks.len() ==> ks[i] != ks[j]
}

/// The first position at which `k` occurs in `ks`.
pub open spec fn first_index(ks: Seq<Seq<char>>, k: Seq<char>) -> Option<int>
    decreases ks.len(),
{
    if ks.len() == 0 {
        None
    } else {
        match first_index(ks.drop_last(), k) {
            Some(i) => Some(i),
            None => if ks.last() == k {
                Some(ks.len() - 1)
            } else {
                None
            },
        }
    }
}

/// [`first_index`] finds `k` exactly where `k` occurs, and then at its
/// first occurrence.
pub proof fn lemma_first_index(ks: Seq<Seq<char>>, k: Seq<char>)
    ensures
        first_index(ks, k) matches Some(i) ==> 0 <= i < ks.len() && ks[i] == k && forall|j: int|
            0 <= j < i ==> ks[j] != k,
        first_index(ks, k) is None ==> forall|j: int| 0 <= j < ks.len() ==> ks[j] != k,
    decreases ks.len(),
{
    if ks.len() > 0 {
        lemma_first_index(ks.drop_last(), k);
        assert(forall|j: int| 0 <= j < ks.len() - 1 ==> ks.drop_last()[j] == ks[j]);
    }
}

/// A position that holds `k` and has no `k` before it is the first index.
pub proof fn lemma_first_index_is(ks: Seq<Seq<char>>, k: Seq<char>, i: int)
    requires
        0 <= i < ks.len(),
        ks[i] == k,
        forall|j: int| 0 <= j < i ==> ks[j] != k,
    ensures
        first_index(ks, k) == Some(i),
{
    lemma_first_index(ks, k);
}

/// A key that occurs nowhere has no first index.
pub proof fn lemma_first_index_none(ks: Seq<Seq<char>>, k: Seq<char>)
    requires
        forall|j: int| 0 <= j < ks.len() ==> ks[j] != k,
    ensures
        first_index(ks, k) is None,
{
    lemma_first_index(ks, k);
}

/// The position of the first item whose key is `key`.
pub fn position<T: Keyed>(items: &Vec<T>, key: &String) -> (r: Option<usize>)
    ensures
        r matches Some(i) ==> i < items.len() && first_index(keys(items@), key@) == Some(i as int),
        r is None ==> first_index(keys(items@), key@) is None,
{
    let ghost ks = keys(items@);
    let mut i: usize = 0;
    while i < items.len()
        invariant
            i <= items.len(),
            ks == keys(items@),
            forall|j: int| 0 <= j < i ==> ks[j] != key@,
        decreases items.len() - i,
    {
        if *items[i].key_text() == *key {
            proof {
                lemma_first_index_is(ks, key@, i as int);
            }
            return Some(i);
        }
        i = i + 1;
    }
    proof {
        lemma_first_index_none(ks, key@);
    }
    None
}

/// Finding a key after one more key was added at the end.
pub proof fn lemma_first_index_push(ks: Seq<Seq<char>>, k: Seq<char>, q: Seq<char>)
    ensures
        first_index(ks.push(k), q) == match first_index(ks, q) {
            Some(i) => Some(i),
            None => if k == q {
                Some(ks.len() as int)
            } else {
                None
            },
        },
{
    assert(ks.push(k).drop_last() =~= ks);
}

/// Adding a key that does not occur keeps the keys distinct.
pub proof fn lemma_distinct_push(ks: Seq<Seq<char>>, k: Seq<char>)
    requires
        distinct(ks),
        first_index(ks, k) is None,
    ensures
        distinct(ks.push(k)),
{
    lemma_first_index(ks, k);
}

/// Among distinct keys, each is found at its own position.
pub proof fn lemma_distinct_first_index(ks: Seq<Seq<char>>, i: int)
    requires
        distinct(ks),
        0 <= i < ks.len(),
    ensures
        first_index(ks, ks[i]) == Some(i),
{
    lemma_first_index_is(ks, ks[i], i);
}

} // verus!
