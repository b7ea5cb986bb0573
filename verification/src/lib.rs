//! Off-chain Unidirectional Trustless Payment Channels (OUTPACE) for the
//! AdEx protocol, as a verified state machine over an explicit model of the
//! chain storage that the channels live in.

pub mod adex_v3;
pub mod balances;
pub mod bytes;
pub mod channel;
pub mod codec;
pub mod crypto;
pub mod demo;
pub mod error;
pub mod laws;
pub mod merkle;
pub mod outpace;
pub mod runtime;
pub mod table;
