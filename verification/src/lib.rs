//! Client library for the WhatsMiner v3 TCP command protocol.
//!
//! The library covers the pieces of the protocol that are worth getting
//! exactly right: the length-prefixed wire framing, the derivation of the
//! short-lived authentication token, the AES-256-ECB encryption of command
//! parameters, the assembly and JSON serialization of request envelopes, and
//! the single-request-at-a-time work queue that the connection actor serves.
//! The socket itself, and everything asynchronous around it, lives in the
//! binary shell that drives this library.

pub mod account;
pub mod actor;
pub mod auth_data;
pub mod codec;
pub mod command;
pub mod crypto;
pub mod error;
pub mod json;
pub mod password;
pub mod request;
pub mod response;

