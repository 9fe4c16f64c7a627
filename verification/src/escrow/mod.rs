pub mod math;
pub mod fee;
pub mod types;
pub mod validators;
pub mod payout;
pub mod dispute;
pub mod manager;
pub mod milestone;
pub mod contract;
pub mod laws;
