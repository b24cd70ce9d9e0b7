use vstd::prelude::*;
use vstd::string::StringExecFns;
use crate::book::{Book, CreateBook};
use crate::error::AppError;
use crate::service::{created_book, BookService};
use crate::stamps::is_v4_id;
use crate::store::BookStore;

verus! {

/// Answers of the service's fixed endpoints, and a create that goes through the service.
pub struct BookController {}

impl BookController {
    /// The greeting of the root endpoint.
    pub fn hello() -> (r: String)
        ensures
            r@ == "API Rust with Axum is working!!!"@,
    {
        String::from_str("API Rust with Axum is working!!!")
    }

    /// The status the health endpoint reports.
    pub fn health() -> (r: String)
        ensures
            r@ == "UP"@,
    {
        String::from_str("UP")
    }

    /// Creates a book as `BookService::create` does.
    pub fn create(store: &mut BookStore, payload: CreateBook) -> (r: Result<Book, AppError>)
        requires
            old(store).wf(),
        ensures
            final(store).wf(),
            r is Ok <==> payload.is_complete(),
            r is Err ==> r == Err::<Book, AppError>(AppError::InvalidParams) && final(store)@
                == old(store)@,
            r matches Ok(b) ==> {
                &&& b == created_book(payload, b.id, b.created_at)
                &&& b.created_at == b.updated_at
                &&& is_v4_id(b.id)
                &&& final(store)@ == old(store)@.insert(b.id, b)
            },
    {
        BookService::create(store, payload)
    }
}

} // verus!
