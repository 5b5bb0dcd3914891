//! An on-chain style record of 32-byte Merkle leaves that answers
//! membership queries by searching for an inclusion proof.
pub mod contract;
pub mod leaves;
pub mod merkle;

pub use contract::SimpleSmartContract;
pub use leaves::{convert_to_array, LeafFormatError};
