//! What the inventory service answers over HTTP.

pub mod dto;
pub mod handlers;
