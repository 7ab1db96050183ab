pub mod address;
pub mod keyed;
pub mod registry;
pub mod escrow;
pub mod receipt;
pub mod laws;
