pub mod escrow;
pub mod dispute;
pub mod milestone;
