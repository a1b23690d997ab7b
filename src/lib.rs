//! A client for a remote pantry service: a key-value store of JSON "baskets"
//! reached over HTTP.
//!
//! The library decides everything that does not need the network: the URL of
//! each endpoint, the request that each operation sends, and what each reply
//! means (success, rejection by the service, or a body of the wrong shape).
//! Sending the request and reading the reply is left to the caller.

pub mod address;
pub mod client;
pub mod error;
pub mod json;
pub mod pantry;
pub mod reply;

pub use client::{new_client, Method, PantryClient, Request, BASE_URL, CONTENT_TYPE};
pub use error::PantryError;
pub use json::Json;
pub use pantry::{Basket, GetPantryResponse, UpdatePantryRequest};
pub use reply::{read_json, read_pantry, read_text};
