//! Typed values, record shapes and schema checks for a MariaDB / MySQL client, with
//! the byte-string codec used at the client library's boundary.
//!
//! The library decides; the caller talks to the server. Each operation of
//! [`Connection`] comes as the statement to send and a function that takes what the
//! server answered.

pub mod text;
pub mod cstr;
pub mod cbox;
pub mod types;
pub mod serialize;
pub mod connection;

pub use connection::Connection;
pub use serialize::SerializeSQL;
