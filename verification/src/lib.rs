//! Client library for a transactional-email service's HTTP API.
//!
//! The library covers the request/response mapping layer: building outbound
//! messages, rendering them to JSON wire form, decoding the service's
//! tri-variant response envelope, and the error taxonomy that unifies the
//! possible failures.  The network transport itself is left to the caller.

pub mod error;
pub mod json;
pub mod message;
pub mod interest;
pub mod envelope;
pub mod client;

pub use client::{Client, PreparedRequest};
pub use envelope::{
    check_responce, check_status, handle_message_deliveries, handle_message_details, handle_send,
    MessageDataTo, MessageSucessData, Responce, ResponceError, SendResult,
};
pub use error::PostalError;
pub use interest::DetailsInterest;
pub use json::JsonValue;
pub use message::{Message, MessageHash, RawMessage};
