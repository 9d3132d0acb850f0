//! Nonces, payload hashing and EIP-712 signing.
//!
//! The signed digest is over `keccak256(compact_json({type, params}))`, and the gateway
//! verifies by re-marshalling the body through structs whose fields are in a fixed order,
//! so every payload is encoded field by field in that order.
pub mod eip712;
pub mod nonce;
pub mod signers;
pub mod universal;
