//! Smash-or-pass voting service: the verified core.
pub mod api;
pub mod config;
pub mod db;
pub mod error;
pub mod ids;
pub mod json;
pub mod pokemon;
pub mod routes;
pub mod sop;
pub mod text;
pub mod time;
pub mod token;
pub mod user;
