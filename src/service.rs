use vstd::prelude::*;
use crate::book::{Book, CreateBook, Timestamp, UpdateBook};
use vstd::string::StringExecFns;
use crate::error::AppError;
use crate::stamps::{is_v4_id, new_book_id, now};
use crate::store::{lists_store, BookStore};

verus! {

/// The book a complete create payload yields under identifier `id` at time `now`.
pub open spec fn created_book(payload: CreateBook, id: u128, now: Timestamp) -> Book {
    Book {
        id,
        title: payload.title.unwrap(),
        author: payload.author.unwrap(),
        pages: payload.pages.unwrap(),
        created_at: now,
        updated_at: now,
    }
}

/// `prev` with its fields replaced by a complete update payload at time `now`;
/// identifier and creation time stay.
pub open spec fn revised_book(prev: Book, payload: UpdateBook, now: Timestamp) -> Book {
    Book {
        id: prev.id,
        title: payload.title.unwrap(),
        author: payload.author.unwrap(),
        pages: payload.pages.unwrap(),
        created_at: prev.created_at,
        updated_at: now,
    }
}

/// What a lookup of `id` in `m` answers.
pub open spec fn get_outcome(m: Map<u128, Book>, id: u128) -> Result<Book, AppError> {
    if m.contains_key(id) {
        Ok(m[id])
    } else {
        Err(AppError::NotFound)
    }
}

/// What an update of `id` in `m` with `payload` at time `now` answers: parameters
/// are checked before existence.
pub open spec fn update_outcome(
    m: Map<u128, Book>,
    id: u128,
    payload: UpdateBook,
    now: Timestamp,
) -> Result<Book, AppError> {
    if !payload.is_complete() {
        Err(AppError::InvalidParams)
    } else if !m.contains_key(id) {
        Err(AppError::NotFound)
    } else {
        Ok(revised_book(m[id], payload, now))
    }
}

/// The store an update leaves behind.
pub open spec fn store_after_update(
    m: Map<u128, Book>,
    id: u128,
    payload: UpdateBook,
    now: Timestamp,
) -> Map<u128, Book> {
    match update_outcome(m, id, payload, now) {
        Ok(b) => m.insert(id, b),
        Err(_) => m,
    }
}

/// The decimal digits of `n`, most significant first.
pub open spec fn decimal(n: nat) -> Seq<char>
    decreases n,
{
    if n < 10 {
        seq![((48 + n) as u8) as char]
    } else {
        decimal(n / 10) + seq![((48 + n % 10) as u8) as char]
    }
}

/// The diagnostic line that reports how many books a listing returned.
pub open spec fn result_log_line(n: nat) -> Seq<char> {
    if n < 1 {
        "no book returned!"@
    } else if n == 1 {
        "1 book returned!"@
    } else {
        decimal(n) + " books returned!"@
    }
}

/// Relies on std's `format!`: a `usize` renders as its decimal digits.
#[verifier::external_body]
fn books_returned_line(n: usize) -> (r: String)
    ensures
        r@ == decimal(n as nat) + " books returned!"@,
{
    format!("{} books returned!", n)
}

/// The diagnostic line for a listing of `books_size` books: none, one or many.
pub fn tracing_result(books_size: usize) -> (r: String)
    ensures
        r@ == result_log_line(books_size as nat),
{
    if books_size < 1 {
        String::from_str("no book returned!")
    } else if books_size == 1 {
        String::from_str("1 book returned!")
    } else {
        books_returned_line(books_size)
    }
}

/// A create payload lacks a field.
pub fn has_invalid_params_on_create(payload: &CreateBook) -> (r: bool)
    ensures
        r == !payload.is_complete(),
{
    payload.title.is_none() || payload.author.is_none() || payload.pages.is_none()
}

/// An update payload lacks a field.
pub fn has_invalid_params_on_update(payload: &UpdateBook) -> (r: bool)
    ensures
        r == !payload.is_complete(),
{
    payload.title.is_none() || payload.author.is_none() || payload.pages.is_none()
}

/// The create, read, update and delete operations over a store.
pub struct BookService {}

impl BookService {
    /// Creates a book from `payload` under the identifier `id` at time `now`.
    pub fn create_with(store: &mut BookStore, payload: CreateBook, id: u128, now: Timestamp) -> (r:
        Result<Book, AppError>)
        requires
            old(store).wf(),
        ensures
            final(store).wf(),
            payload.is_complete() ==> r == Ok::<Book, AppError>(created_book(payload, id, now))
                && final(store)@ == old(store)@.insert(id, created_book(payload, id, now)),
            !payload.is_complete() ==> r == Err::<Book, AppError>(AppError::InvalidParams)
                && final(store)@ == old(store)@,
    {
        if has_invalid_params_on_create(&payload) {
            return Err(AppError::InvalidParams);
        }
        let book = Book {
            id,
            title: payload.title.unwrap(),
            author: payload.author.unwrap(),
            pages: payload.pages.unwrap(),
            created_at: now,
            updated_at: now,
        };
        store.insert(book.clone());
        Ok(book)
    }

    /// Creates a book from `payload` with a fresh random identifier, created and
    /// updated now.
    pub fn create(store: &mut BookStore, payload: CreateBook) -> (r: Result<Book, AppError>)
        requires
            old(store).wf(),
        ensures
            final(store).wf(),
            r is Ok <==> payload.is_complete(),
            r is Err ==> r == Err::<Book, AppError>(AppError::InvalidParams) && final(store)@
                == old(store)@,
            r matches Ok(b) ==> {
                &&& b == created_book(payload, b.id, b.created_at)
                &&& b.created_at == b.updated_at
                &&& is_v4_id(b.id)
                &&& final(store)@ == old(store)@.insert(b.id, b)
            },
    {
        if has_invalid_params_on_create(&payload) {
            return Err(AppError::InvalidParams);
        }
        let id = new_book_id();
        let at = now();
        Self::create_with(store, payload, id, at)
    }

    /// A snapshot of every stored book, in no particular order.
    pub fn get_all(store: &BookStore) -> (r: Vec<Book>)
        requires
            store.wf(),
        ensures
            lists_store(r@, store@),
    {
        store.list()
    }

    /// The book stored under `id`, or `NotFound`.
    pub fn get(store: &BookStore, id: u128) -> (r: Result<Book, AppError>)
        ensures
            r == get_outcome(store@, id),
    {
        match store.get(id) {
            Some(b) => Ok(b),
            None => Err(AppError::NotFound),
        }
    }

    /// Removes the book stored under `id`, or answers `NotFound` and changes nothing.
    pub fn delete(store: &mut BookStore, id: u128) -> (r: Result<(), AppError>)
        requires
            old(store).wf(),
        ensures
            final(store).wf(),
            final(store)@ == old(store)@.remove(id),
            r is Ok <==> old(store)@.contains_key(id),
            r is Err ==> r == Err::<(), AppError>(AppError::NotFound),
    {
        if store.remove(id) {
            Ok(())
        } else {
            Err(AppError::NotFound)
        }
    }

    /// Replaces title, author and pages of the book under `id` and stamps it with
    /// `now`; an incomplete payload is refused before the identifier is looked up.
    pub fn update_with(store: &mut BookStore, id: u128, payload: UpdateBook, now: Timestamp) -> (r:
        Result<Book, AppError>)
        requires
            old(store).wf(),
        ensures
            final(store).wf(),
            r == update_outcome(old(store)@, id, payload, now),
            final(store)@ == store_after_update(old(store)@, id, payload, now),
    {
        if has_invalid_params_on_update(&payload) {
            return Err(AppError::InvalidParams);
        }
        let prev = match store.get(id) {
            Some(b) => b,
            None => {
                return Err(AppError::NotFound);
            },
        };
        let book = Book {
            id,
            title: payload.title.unwrap(),
            author: payload.author.unwrap(),
            pages: payload.pages.unwrap(),
            created_at: prev.created_at,
            updated_at: now,
        };
        store.insert(book.clone());
        Ok(book)
    }

    /// Replaces title, author and pages of the book under `id` and stamps it with
    /// the current time; an incomplete payload is refused before the identifier is
    /// looked up.
    pub fn update(store: &mut BookStore, id: u128, payload: UpdateBook) -> (r: Result<
        Book,
        AppError,
    >)
        requires
            old(store).wf(),
        ensures
            final(store).wf(),
            !payload.is_complete() ==> r == Err::<Book, AppError>(AppError::InvalidParams)
                && final(store)@ == old(store)@,
            payload.is_complete() && !old(store)@.contains_key(id) ==> r == Err::<
                Book,
                AppError,
            >(AppError::NotFound) && final(store)@ == old(store)@,
            payload.is_complete() && old(store)@.contains_key(id) ==> r is Ok,
            r matches Ok(b) ==> {
                &&& b == revised_book(old(store)@[id], payload, b.updated_at)
                &&& final(store)@ == old(store)@.insert(id, b)
            },
    {
        if has_invalid_params_on_update(&payload) {
            return Err(AppError::InvalidParams);
        }
        if !store.contains(id) {
            return Err(AppError::NotFound);
        }
        let at = now();
        Self::update_with(store, id, payload, at)
    }
}

} // verus!
