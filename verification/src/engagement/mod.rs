pub mod types;
pub mod dispute;
pub mod price_oracle;
pub mod mock_oracle;
pub mod contract;
pub mod laws;
