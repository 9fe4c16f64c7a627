//! Verified decision logic of the Trustless Work escrow and engagement contracts.

pub mod address;
pub mod error;
pub mod escrow;
pub mod reflector;
pub mod engagement;
