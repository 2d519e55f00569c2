//! A verified webhook relay core: HMAC signature authentication of inbound
//! requests, push-event decoding, the dispatch decision that gates an
//! outbound CI trigger, and the uniform response formatting.

pub mod bytesutil;
pub mod config;
pub mod dispatch;
pub mod event;
pub mod gate;
pub mod hex;
pub mod relay;
pub mod response;
pub mod signature;
