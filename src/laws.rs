use vstd::prelude::*;
use crate::book::{Book, CreateBook, Timestamp, UpdateBook};
use crate::error::AppError;
use crate::service::{created_book, get_outcome, store_after_update, update_outcome};
use crate::store::lists_store;

verus! {

/// Creating under an identifier that no stored book has adds exactly that book and
/// keeps every earlier entry; the new book was created and updated at the same time.
pub proof fn law_create_adds_one(m: Map<u128, Book>, payload: CreateBook, id: u128, now: Timestamp)
    requires
        m.dom().finite(),
        payload.is_complete(),
        !m.contains_key(id),
    ensures
        ({
            let after = m.insert(id, created_book(payload, id, now));
            &&& after.dom() == m.dom().insert(id)
            &&& after.dom().len() == m.dom().len() + 1
            &&& forall|k: u128| #[trigger] m.contains_key(k) ==> after[k] == m[k]
            &&& after[id].id == id
            &&& after[id].created_at == after[id].updated_at
        }),
{
    assert(m.insert(id, created_book(payload, id, now)).dom() =~= m.dom().insert(id));
    assert(m.dom().insert(id).len() == m.dom().len() + 1);
}

/// After `id` is removed, no listing holds it and a lookup of it answers `NotFound`.
pub proof fn law_removed_id_absent(m: Map<u128, Book>, id: u128, listed: Seq<Book>)
    requires
        lists_store(listed, m.remove(id)),
    ensures
        forall|i: int| 0 <= i < listed.len() ==> #[trigger] listed[i].id != id,
        get_outcome(m.remove(id), id) == Err::<Book, AppError>(AppError::NotFound),
{
}

/// Two lookups of one identifier in one unchanged store give the same answer.
pub proof fn law_get_repeatable(m: Map<u128, Book>, id: u128, first: Result<Book, AppError>, second: Result<Book, AppError>)
    requires
        first == get_outcome(m, id),
        second == get_outcome(m, id),
    ensures
        first == second,
{
}

/// A complete update of a stored book keeps its identifier and creation time,
/// takes title, author and pages from the payload, and, with a clock that has not
/// gone back, leaves the update time no earlier than before.
pub proof fn law_update_keeps_identity(m: Map<u128, Book>, id: u128, payload: UpdateBook, now: Timestamp)
    requires
        forall|k: u128| #[trigger] m.contains_key(k) ==> m[k].id == k,
        payload.is_complete(),
        m.contains_key(id),
        now.not_earlier_than(m[id].updated_at),
    ensures
        update_outcome(m, id, payload, now) matches Ok(b) && {
            &&& b.id == id
            &&& b.created_at == m[id].created_at
            &&& b.title == payload.title.unwrap()
            &&& b.author == payload.author.unwrap()
            &&& b.pages == payload.pages.unwrap()
            &&& b.updated_at.not_earlier_than(m[id].updated_at)
            &&& store_after_update(m, id, payload, now)[id] == b
        },
{
}

/// An incomplete update payload is refused as `InvalidParams` whether or not the
/// identifier is stored, and the store stays as it was.
pub proof fn law_update_validates_first(m: Map<u128, Book>, id: u128, payload: UpdateBook, now: Timestamp)
    requires
        !payload.is_complete(),
    ensures
        update_outcome(m, id, payload, now) == Err::<Book, AppError>(AppError::InvalidParams),
        store_after_update(m, id, payload, now) == m,
{
}

} // verus!
