//! A key-value store reached through HTTP-style requests: the storage
//! interface, an in-memory backend, the request dispatcher, and the laws
//! that relate its requests.

pub mod hashstorage;
pub mod laws;
pub mod server;
pub mod storage;

pub use hashstorage::HashStorage;
pub use server::{Method, MyServer, Response};
pub use storage::Storage;
