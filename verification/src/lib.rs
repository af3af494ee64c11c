//! Request/response contract layer of a small JSON HTTP service: the error
//! taxonomy and its status mapping, the validation rules for new users, the
//! response envelopes and the configuration loaded at start-up.

pub mod config;
pub mod errors;
pub mod handlers;
pub mod models;
pub mod port;
pub mod text;
pub mod user_id;
