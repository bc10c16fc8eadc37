//! Core of a music-catalog web crawler: a deduplicating request router, a
//! worker pool driving per-entity scrape protocols, and a rate-limited,
//! persistently cached HTTP gateway underneath them.

pub mod cache;
pub mod channel;
pub mod client;
pub mod data;
pub mod dates;
pub mod error;
pub mod extract;
pub mod gateway;
pub mod html;
pub mod json;
pub mod node_state;
pub mod request;
pub mod router;
pub mod scrape;
pub mod text;
pub mod urls;
pub mod worker;
