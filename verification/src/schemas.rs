//! The types of the gateway's schema.

pub mod user;
