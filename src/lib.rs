//! JSON-RPC 2.0 message handling.
//!
//! Requests, responses and error objects are read from and written to a
//! parsed JSON value (`JsonValue`), checked against the protocol's rules, and
//! routed by method name to registered handlers, each of which turns a
//! request into a pending computation.
pub mod error;
pub mod handler;
pub mod json;
pub mod request;
pub mod response;

pub use crate::error::{ErrorVariant, JrpcError, JrpcErrorEnum};
pub use crate::handler::{JrpcHandler, JrpcMethodTrait};
pub use crate::json::{JsonMember, JsonNumber, JsonValue};
pub use crate::request::JrpcRequest;
pub use crate::response::{JrpcResponse, JrpcResponseParam};
pub use serde_json::Error as JsonError;
