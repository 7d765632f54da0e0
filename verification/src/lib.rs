//! A line-oriented chat service library: a credential store backed by an
//! in-memory SQLite database, an append-only mailbox, and the per-connection
//! session protocol that drives login, registration and messaging.

pub mod db;
pub mod digest;
pub mod login;
pub mod messaging;
pub mod parse;
pub mod session;
