//! Encrypted record engine of a local, single-user password manager.
//!
//! A master password is stretched into one key per record, each domain and
//! password pair is sealed into a frame, and the frames of one user form a
//! sequential log. The engine works on the bytes of that log; whoever hosts
//! it reads and writes the backing file.

pub mod cipher;
pub mod crypto;
pub mod frame;
pub mod laws;
pub mod models;
pub mod password;
pub mod payload;
pub mod record;
pub mod text;
pub mod ui;
pub mod user;
