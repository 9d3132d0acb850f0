//! Order mapping and the submission and cancellation logic of the execution client.
pub mod client;
pub mod parse;
