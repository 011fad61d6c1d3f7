//! A client library for a cloud push-notification HTTP API.
//!
//! The library builds an optional-field request body through builders,
//! renders it to JSON with an explicit per-field presence check (a field
//! that was never set is omitted entirely, never emitted as `null`), and
//! classifies the HTTP response of the single send endpoint.

pub mod client;
pub mod json;
pub mod laws;
pub mod message;
pub mod notification;

pub use client::{FcmError, FcmResponse, MessageResult};
pub use json::JsonRep;
pub use message::{FCMRequest, FCMRequestBuilder, Message, MessageBody, MessageBuilder, Priority};
pub use notification::{Notification, NotificationBuilder};
