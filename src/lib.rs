//! A store of books behind create, read, update and delete operations.

pub mod book;
pub mod controller;
pub mod error;
pub mod laws;
pub mod service;
pub mod stamps;
pub mod store;
