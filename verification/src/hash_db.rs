//! A store of values of any type, each found by a textual key.
//!
//! What is stored under a key is a value of some type that the store does
//! not know. A caller gets it back by naming the type; the store's
//! contracts speak of the keys only.

use vstd::prelude::*;
use std::any::Any;
use crate::keyed::{
    Keyed, distinct, first_index, keys, lemma_distinct_push, lemma_first_index, position,
};

verus! {

/// A value of a type that only the one who stored it knows: a
/// `Box<dyn Any>`, which the verifier cannot look into.
#[verifier::external_body]
struct AnyValue {
    inner: Box<dyn Any>,
}

/// One stored value with its key.
struct Record {
    key: String,
    value: AnyValue,
}

impl Keyed for Record {
    closed spec fn key(&self) -> Seq<char> {
        self.key@
    }

    fn key_text(&self) -> (r: &String) {
        &self.key
    }
}

/// Calls `Box::new` and keeps the box as a `Box<dyn Any>`. Nothing is
/// claimed of the result.
#[verifier::external_body]
fn boxed<T: Any>(value: T) -> AnyValue {
    AnyValue { inner: Box::new(value) }
}

/// Calls `<dyn Any>::downcast_ref`, which gives the value back where it is
/// of type `T`. Nothing is claimed of the result.
#[verifier::external_body]
fn downcast<T: Any>(value: &AnyValue) -> Option<&T> {
    value.inner.downcast_ref::<T>()
}

/// Calls `<dyn Any>::is`, which says whether the value is of type `T`.
/// Nothing is claimed of the result.
#[verifier::external_body]
fn holds<T: Any>(value: &AnyValue) -> bool {
    value.inner.is::<T>()
}

/// The store.
pub struct HashDb {
    db: Vec<Record>,
}

impl HashDb {
    /// The keys in the order in which they were first inserted.
    pub closed spec fn keys(&self) -> Seq<Seq<char>> {
        keys(self.db@)
    }

    /// No key occurs twice.
    pub open spec fn wf(&self) -> bool {
        distinct(self.keys())
    }

    /// Whether something is stored under `key`.
    pub open spec fn contains(&self, key: Seq<char>) -> bool {
        first_index(self.keys(), key) is Some
    }

    /// An empty store.
    pub fn new() -> (r: Self)
        ensures
            r.keys() == Seq::<Seq<char>>::empty(),
            r.wf(),
    {
        HashDb { db: Vec::new() }
    }

    /// Stores `value` under `key`. What was stored under the key before is
    /// dropped, and the key keeps its place.
    pub fn insert<T: Any>(&mut self, key: &str, value: T)
        requires
            old(self).wf(),
        ensures
            final(self).wf(),
            final(self).contains(key@),
            old(self).contains(key@) ==> final(self).keys() == old(self).keys(),
            !old(self).contains(key@) ==> final(self).keys() == old(self).keys().push(key@),
    {
        let ghost before = self.keys();
        let text = key.to_owned();
        let found = position(&self.db, &text);
        proof {
            lemma_first_index(before, key@);
        }
        let record = Record { key: text, value: boxed(value) };
        match found {
            Some(i) => {
                self.db.set(i, record);
                assert(self.keys() =~= before);
            },
            None => {
                self.db.push(record);
                assert(self.keys() =~= before.push(key@));
                proof {
                    lemma_distinct_push(before, key@);
                    crate::keyed::lemma_first_index_push(before, key@, key@);
                }
            },
        }
    }

    /// The value stored under `key`, where there is one and it is of type
    /// `T`.
    pub fn get<T: Any>(&self, key: &str) -> (r: Option<&T>)
        ensures
            r is Some ==> self.contains(key@),
    {
        let text = key.to_owned();
        match position(&self.db, &text) {
            Some(i) => downcast::<T>(&self.db[i].value),
            None => None,
        }
    }

    /// Whether a value of type `T` is stored under `key`.
    pub fn is_type<T: Any>(&self, key: &str) -> (r: bool)
        ensures
            r ==> self.contains(key@),
    {
        let text = key.to_owned();
        match position(&self.db, &text) {
            Some(i) => holds::<T>(&self.db[i].value),
            None => false,
        }
    }

    /// The number of keys.
    pub fn len(&self) -> (r: usize)
        ensures
            r == self.keys().len(),
    {
        self.db.len()
    }
}

} // verus!
