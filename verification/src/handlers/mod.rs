//! The operations behind the resource endpoints.

pub mod users;
