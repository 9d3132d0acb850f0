//! Market data: bar intervals, candle and kline conversion, streamed feeds, historical
//! requests.
pub mod feeds;
pub mod history;
pub mod parse;
