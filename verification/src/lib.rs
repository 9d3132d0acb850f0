//! Verified building blocks of a SoDEX venue adapter: credentials, venue enumerations,
//! request construction and validation, the exact JSON the signature commits to, EIP-712
//! digests, nonces, keepalive and subscription state, bar and order mapping.
pub mod common;
pub mod config;
pub mod data;
pub mod execution;
pub mod factories;
pub mod http;
pub mod json;
pub mod providers;
pub mod signing;
pub mod text;
pub mod websocket;
