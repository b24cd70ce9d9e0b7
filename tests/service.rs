use book_api::book::{Book, CreateBook, Timestamp, UpdateBook};
use book_api::controller::BookController;
use book_api::error::{AppError, Error};
use book_api::service::{
    has_invalid_params_on_create, has_invalid_params_on_update, tracing_result, BookService,
};
use book_api::store::BookStore;

const UNUSED_ID: u128 = 0xb3676354_e02e_4f2d_b1dc_ff3162a74e5b;

fn full_create(title: &str, author: &str, pages: i64) -> CreateBook {
    CreateBook {
        title: Some(title.to_string()),
        author: Some(author.to_string()),
        pages: Some(pages),
    }
}

fn full_update(title: &str, author: &str, pages: i64) -> UpdateBook {
    UpdateBook {
        title: Some(title.to_string()),
        author: Some(author.to_string()),
        pages: Some(pages),
    }
}

fn at(secs: i64) -> Timestamp {
    Timestamp { secs, nanos: 0, offset_secs: 0 }
}

fn is_v4(id: u128) -> bool {
    id & 0xF000C000000000000000u128 == 0x40008000000000000000u128
}

#[test]
fn list_on_empty_store_is_empty() {
    let store = BookStore::new();
    let books = BookService::get_all(&store);
    assert!(books.is_empty());
}

#[test]
fn create_new_book_with_success() {
    let mut store = BookStore::new();
    let book = BookService::create(&mut store, full_create("Lord of the Rings", "Tolkien", 2000))
        .unwrap();
    assert_eq!(book.title, "Lord of the Rings");
    assert_eq!(book.author, "Tolkien");
    assert_eq!(book.pages, 2000);
    assert_eq!(book.created_at, book.updated_at);
    assert!(is_v4(book.id));
    let books = BookService::get_all(&store);
    assert_eq!(books.len(), 1);
    assert_eq!(books[0].id, book.id);
}

#[test]
fn create_new_book_with_missing_pages_is_invalid() {
    let mut store = BookStore::new();
    let payload = CreateBook {
        title: Some("Lord of the Rings".to_string()),
        author: Some("Tolkien".to_string()),
        pages: None,
    };
    let r = BookService::create(&mut store, payload);
    assert_eq!(r.unwrap_err(), AppError::InvalidParams);
    assert!(BookService::get_all(&store).is_empty());
}

#[test]
fn create_with_uses_given_id_and_time() {
    let mut store = BookStore::new();
    let book = BookService::create_with(&mut store, full_create("Dune", "Herbert", 412), 7, at(100))
        .unwrap();
    assert_eq!(book.id, 7);
    assert_eq!(book.created_at, at(100));
    assert_eq!(book.updated_at, at(100));
    let again = BookService::get(&store, 7).unwrap();
    assert_eq!(again.title, "Dune");
}

#[test]
fn create_keeps_permissive_fields() {
    let mut store = BookStore::new();
    let book = BookService::create(&mut store, full_create("", "", -5)).unwrap();
    assert_eq!(book.title, "");
    assert_eq!(book.pages, -5);
}

#[test]
fn controller_create_goes_through_service() {
    let mut store = BookStore::new();
    let book = BookController::create(&mut store, full_create("Emma", "Austen", 300)).unwrap();
    assert_eq!(BookService::get(&store, book.id).unwrap().author, "Austen");
    let bad = CreateBook { title: None, author: None, pages: None };
    assert_eq!(BookController::create(&mut store, bad).unwrap_err(), AppError::InvalidParams);
}

#[test]
fn controller_fixed_answers() {
    assert_eq!(BookController::hello(), "API Rust with Axum is working!!!");
    assert_eq!(BookController::health(), "UP");
}

#[test]
fn get_book_by_id_with_success() {
    let mut store = BookStore::new();
    let created =
        BookService::create(&mut store, full_create("Lord of the Rings", "Tolkien", 2000)).unwrap();
    let id = BookService::get_all(&store)[0].id;
    let book = BookService::get(&store, id).unwrap();
    assert_eq!(book.title, "Lord of the Rings");
    assert_eq!(book.created_at, created.created_at);
}

#[test]
fn get_unused_id_is_not_found() {
    let store = BookStore::new();
    assert_eq!(BookService::get(&store, UNUSED_ID).unwrap_err(), AppError::NotFound);
}

#[test]
fn repeated_get_gives_same_book() {
    let mut store = BookStore::new();
    let created = BookService::create(&mut store, full_create("Ulysses", "Joyce", 730)).unwrap();
    let a = BookService::get(&store, created.id).unwrap();
    let b = BookService::get(&store, created.id).unwrap();
    assert_eq!(a.id, b.id);
    assert_eq!(a.title, b.title);
    assert_eq!(a.author, b.author);
    assert_eq!(a.pages, b.pages);
    assert_eq!(a.created_at, b.created_at);
    assert_eq!(a.updated_at, b.updated_at);
}

#[test]
fn update_book_with_success() {
    let mut store = BookStore::new();
    let created =
        BookService::create(&mut store, full_create("Lord of the Rings", "Tolkien", 2000)).unwrap();
    let updated =
        BookService::update(&mut store, created.id, full_update("X", "Tolkien", 2000)).unwrap();
    assert_eq!(updated.title, "X");
    assert_eq!(updated.id, created.id);
    assert_eq!(updated.created_at, created.created_at);
    assert_eq!(BookService::get(&store, created.id).unwrap().title, "X");
    let missing = BookService::update(&mut store, UNUSED_ID, full_update("X", "Tolkien", 2000));
    assert_eq!(missing.unwrap_err(), AppError::NotFound);
}

#[test]
fn update_with_replaces_fields_and_time() {
    let mut store = BookStore::new();
    BookService::create_with(&mut store, full_create("Old", "Anon", 1), 9, at(10)).unwrap();
    let b = BookService::update_with(&mut store, 9, full_update("New", "Someone", 2), at(20))
        .unwrap();
    assert_eq!(b.id, 9);
    assert_eq!(b.title, "New");
    assert_eq!(b.author, "Someone");
    assert_eq!(b.pages, 2);
    assert_eq!(b.created_at, at(10));
    assert_eq!(b.updated_at, at(20));
    assert_eq!(BookService::get(&store, 9).unwrap().updated_at, at(20));
}

#[test]
fn update_with_invalid_params_on_unknown_id() {
    let mut store = BookStore::new();
    let payload = UpdateBook {
        title: Some("Lord of the Rings".to_string()),
        author: Some("Tolkien".to_string()),
        pages: None,
    };
    let r = BookService::update(&mut store, UNUSED_ID, payload);
    assert_eq!(r.unwrap_err(), AppError::InvalidParams);
}

#[test]
fn update_with_invalid_params_on_existing_id() {
    let mut store = BookStore::new();
    let created =
        BookService::create(&mut store, full_create("Lord of the Rings", "Tolkien", 2000)).unwrap();
    let payload = UpdateBook {
        title: Some("Lord of the Rings 2".to_string()),
        author: Some("Tolkien".to_string()),
        pages: None,
    };
    let r = BookService::update(&mut store, created.id, payload);
    assert_eq!(r.unwrap_err(), AppError::InvalidParams);
    assert_eq!(BookService::get(&store, created.id).unwrap().title, "Lord of the Rings");
}

#[test]
fn update_on_unknown_id_is_not_found() {
    let mut store = BookStore::new();
    BookService::create(&mut store, full_create("Lord of the Rings", "Tolkien", 2000)).unwrap();
    let r = BookService::update(&mut store, UNUSED_ID, full_update("Lord of the Rings 2", "Tolkien", 2000));
    assert_eq!(r.unwrap_err(), AppError::NotFound);
}

#[test]
fn delete_then_get_is_not_found() {
    let mut store = BookStore::new();
    let created = BookService::create(&mut store, full_create("Lord of the Rings", "Tolkien", 2000)).unwrap();
    assert_eq!(BookService::delete(&mut store, created.id), Ok(()));
    assert_eq!(BookService::get(&store, created.id).unwrap_err(), AppError::NotFound);
    assert!(BookService::get_all(&store).iter().all(|b: &Book| b.id != created.id));
    assert_eq!(BookService::delete(&mut store, created.id), Err(AppError::NotFound));
}

#[test]
fn list_holds_each_book_once() {
    let mut store = BookStore::new();
    for i in 1..=3u128 {
        BookService::create_with(&mut store, full_create("T", "A", i as i64), i, at(1)).unwrap();
    }
    let mut ids: Vec<u128> = BookService::get_all(&store).iter().map(|b| b.id).collect();
    ids.sort();
    assert_eq!(ids, vec![1, 2, 3]);
}

#[test]
fn create_with_existing_id_replaces_entry() {
    let mut store = BookStore::new();
    BookService::create_with(&mut store, full_create("A", "A", 1), 5, at(1)).unwrap();
    BookService::create_with(&mut store, full_create("B", "B", 2), 5, at(2)).unwrap();
    let books = BookService::get_all(&store);
    assert_eq!(books.len(), 1);
    assert_eq!(books[0].title, "B");
}

#[test]
fn store_operations() {
    let mut store = BookStore::new();
    let book = Book {
        id: 3,
        title: "T".to_string(),
        author: "A".to_string(),
        pages: 1,
        created_at: at(1),
        updated_at: at(1),
    };
    store.insert(book.clone());
    assert!(store.contains(3));
    assert_eq!(store.get(3).unwrap().title, "T");
    assert_eq!(store.list().len(), 1);
    assert!(store.remove(3));
    assert!(!store.remove(3));
    assert!(store.get(3).is_none());
}

#[test]
fn validation_helpers() {
    assert!(!has_invalid_params_on_create(&full_create("a", "b", 1)));
    assert!(has_invalid_params_on_create(&CreateBook { title: None, author: Some("b".to_string()), pages: Some(1) }));
    assert!(!has_invalid_params_on_update(&full_update("a", "b", 1)));
    assert!(has_invalid_params_on_update(&UpdateBook { title: Some("a".to_string()), author: None, pages: Some(1) }));
}

#[test]
fn tracing_result_lines() {
    assert_eq!(tracing_result(0), "no book returned!");
    assert_eq!(tracing_result(1), "1 book returned!");
    assert_eq!(tracing_result(12), "12 books returned!");
}

#[test]
fn error_bodies() {
    assert_eq!(AppError::InvalidParams.status_code(), 400);
    assert_eq!(AppError::NotFound.status_code(), 404);
    assert_eq!(AppError::InvalidParams.message(), "Invalid params on request");
    assert_eq!(AppError::NotFound.message(), "book not found");
    let e = AppError::InvalidParams.to_error();
    assert_eq!(e.message, "Invalid params on request");
    assert_eq!(e.status, "400 Bad Request");
    assert_eq!(AppError::NotFound.to_error().status, "404 Not Found");
    let n = Error::new("m".to_string(), "s".to_string());
    assert_eq!(n.message, "m");
    assert_eq!(n.status, "s");
}

#[test]
fn current_time_is_well_formed() {
    let mut store = BookStore::new();
    let book = BookService::create(&mut store, full_create("T", "A", 1)).unwrap();
    assert!(book.created_at.nanos < 2_000_000_000);
    assert!(book.created_at.offset_secs > -86_400 && book.created_at.offset_secs < 86_400);
    assert!(book.created_at.secs > 1_600_000_000);
    let other = BookService::create(&mut store, full_create("T", "A", 1)).unwrap();
    assert_ne!(book.id, other.id);
}
