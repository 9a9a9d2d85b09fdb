//! Client-side core of a JSON-over-HTTP remote API binding.
//!
//! The load-bearing pieces are the generic call dispatcher (`requests`), the
//! two-stage response decoder (`decode`, over the document model in `json`),
//! the timestamp codec (`timestamp`), the struct-or-empty-collection codec
//! (`codec`), and the per-family error taxonomies (`requests::Error` and
//! `rtm::StartError`). The endpoint modules hold the per-method request and
//! reply records, each with its exact decoding specification.

pub mod json;
pub mod text;
pub mod decode;
pub mod timestamp;
pub mod codec;
pub mod requests;
pub mod types;
pub mod auth;
pub mod api;
pub mod users;
pub mod channels;
pub mod pins;
pub mod team;
pub mod usergroups_users;
pub mod rtm;
