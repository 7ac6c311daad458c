//! Actor identities of a single federation node: how they are stored, mapped to
//! and from their public documents, checked against the origin that sent them,
//! resolved, and followed.

pub mod clock;
pub mod database;
pub mod error;
pub mod follow;
pub mod http;
pub mod memory;
pub mod models;
pub mod person;
pub mod resolver;
pub mod text;
pub mod urls;
pub mod verification;
