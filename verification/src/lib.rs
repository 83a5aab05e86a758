//! The verified core of a file-storage service: clients upload files, the
//! service keeps the bytes in a blob store and a record of each file in a
//! metadata index, reuses the record of bytes it has seen before, and serves,
//! lists and deletes what it keeps.
//!
//! Everything that decides or computes lives here and is verified: the
//! configuration, the errors and their HTTP statuses, the locators of the two
//! storage backends, and the request handlers. A handler is a step function
//! from its state and the outcome of the last action to its next state and
//! the next action ([`handlers::protocol`]); the program around this library
//! performs the actions: it reads the request, talks to the database and to
//! the blob store, and comes back with what happened. [`service`] drives the
//! handlers against ideal stores and proves what then holds of whole requests.

pub mod config;
pub mod error;
pub mod handlers;
pub mod models;
pub mod service;
pub mod storage;
pub mod text;
pub mod utils;
