use vstd::prelude::*;
use std::collections::HashMap;
use crate::book::Book;
use vstd::std_specs::hash::spec_hash_map_iter;
use vstd::std_specs::iter::IteratorSpec;

verus! {

broadcast use vstd::std_specs::hash::group_hash_axioms;

/// `listed` holds each book of `m` exactly once, in some order.
pub open spec fn lists_store(listed: Seq<Book>, m: Map<u128, Book>) -> bool {
    &&& listed.len() == m.dom().len()
    &&& forall|i: int| 0 <= i < listed.len() ==>
            m.contains_key(#[trigger] listed[i].id) && m[listed[i].id] == listed[i]
    &&& forall|k: u128| #[trigger] m.contains_key(k) ==>
            exists|i: int| 0 <= i < listed.len() && listed[i].id == k
    &&& forall|i: int, j: int| 0 <= i < listed.len() && 0 <= j < listed.len() && i != j ==>
            listed[i].id != listed[j].id
}

/// The books of the service, keyed by identifier. Shared access (`&self`) reads it;
/// exclusive access (`&mut self`) changes it.
pub struct BookStore {
    books: HashMap<u128, Book>,
}

impl View for BookStore {
    type V = Map<u128, Book>;

    closed spec fn view(&self) -> Map<u128, Book> {
        self.books@
    }
}

impl BookStore {
    /// Finitely many books, each under its own identifier.
    pub open spec fn wf(&self) -> bool {
        &&& self@.dom().finite()
        &&& forall|k: u128| #[trigger] self@.contains_key(k) ==> self@[k].id == k
    }

    /// An empty store.
    pub fn new() -> (r: Self)
        ensures
            r.wf(),
            r@ == Map::<u128, Book>::empty(),
    {
        BookStore { books: HashMap::new() }
    }

    /// Inserts `book` under its identifier, replacing any book stored there.
    pub fn insert(&mut self, book: Book)
        requires
            old(self).wf(),
        ensures
            final(self).wf(),
            final(self)@ == old(self)@.insert(book.id, book),
    {
        let id = book.id;
        let _ = self.books.insert(id, book);
        assert forall|k: u128| #[trigger] self@.contains_key(k) implies self@[k].id == k by {
            if k != id {
                assert(old(self)@.contains_key(k));
            }
        }
    }

    /// Whether a book is stored under `id`.
    pub fn contains(&self, id: u128) -> (r: bool)
        ensures
            r == self@.contains_key(id),
    {
        self.books.contains_key(&id)
    }

    /// A copy of the book stored under `id`, if any.
    pub fn get(&self, id: u128) -> (r: Option<Book>)
        ensures
            r == (if self@.contains_key(id) { Some(self@[id]) } else { None::<Book> }),
    {
        match self.books.get(&id) {
            Some(b) => Some(b.clone()),
            None => None,
        }
    }

    /// A snapshot of all stored books, in no particular order.
    pub fn list(&self) -> (r: Vec<Book>)
        requires
            self.wf(),
        ensures
            lists_store(r@, self@),
    {
        let ghost m = self@;
        let ghost pairs = spec_hash_map_iter(&self.books).remaining();
        let mut out: Vec<Book> = Vec::new();
        for entry in it: self.books.iter()
            invariant
                self.wf(),
                m == self@,
                it.seq() == pairs,
                out@.len() == it.index(),
                forall|i: int| 0 <= i < out@.len() ==> out@[i] == *pairs[i].1,
        {
            let (_, b) = entry;
            out.push(b.clone());
        }
        proof {
            assert(pairs.len() == m.dom().len());
            assert(pairs.no_duplicates());
            assert forall|i: int| 0 <= i < out@.len() implies m.contains_key(#[trigger] out@[i].id)
                && m[out@[i].id] == out@[i] by {
                assert(m.contains_key(*pairs[i].0) && m[*pairs[i].0] == *pairs[i].1);
            }
            assert forall|k: u128| #[trigger] m.contains_key(k) implies exists|i: int|
                0 <= i < out@.len() && out@[i].id == k by {
                assert(pairs.contains((&k, &m[k])));
                let j = choose|j: int| 0 <= j < pairs.len() && pairs[j] == (&k, &m[k]);
                assert(out@[j].id == k);
            }
            assert forall|i: int, j: int|
                0 <= i < out@.len() && 0 <= j < out@.len() && i != j implies out@[i].id
                != out@[j].id by {
                if out@[i].id == out@[j].id {
                    assert(m.contains_key(*pairs[i].0) && m[*pairs[i].0] == *pairs[i].1);
                    assert(m.contains_key(*pairs[j].0) && m[*pairs[j].0] == *pairs[j].1);
                    assert(pairs[i] == pairs[j]);
                }
            }
        }
        out
    }

    /// Removes the book stored under `id`; tells whether there was one.
    pub fn remove(&mut self, id: u128) -> (r: bool)
        requires
            old(self).wf(),
        ensures
            final(self).wf(),
            r == old(self)@.contains_key(id),
            final(self)@ == old(self)@.remove(id),
    {
        let r = self.books.remove(&id).is_some();
        assert forall|k: u128| #[trigger] self@.contains_key(k) implies self@[k].id == k by {
            assert(old(self)@.contains_key(k));
        }
        r
    }
}

} // verus!
