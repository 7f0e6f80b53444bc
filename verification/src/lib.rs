//! A minimal scheduling service: users register and authenticate, then
//! create, list, and delete personal calendar entries ("schedules"), and may
//! view another user's schedules by identifier.
//!
//! The library holds the whole core — the credential store, the token
//! service, the schedule store, and the handler-level operations that tie
//! them together — with a contract on every operation. Reading and writing
//! the persisted collections, and the transport that carries requests, live
//! outside the library; they hand it plain values and take plain values back.

pub mod errors;
pub mod records;
pub mod schedules;
pub mod service;
pub mod token;
pub mod users;
