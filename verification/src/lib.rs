//! A hash-locked escrow: assets are locked under the digest of a secret and
//! released to whoever reveals the secret.

pub mod contract;
pub mod error;
pub mod hashlock;
pub mod laws;
pub mod records;
pub mod state;
pub mod transfer;

pub use contract::Contract;
pub use error::EscrowError;
pub use records::{FtTrustTransaction, NearTrustTransaction, NftTrustTransaction};
pub use transfer::{AssetKind, FtContract, NftContract, Transfer, GAS, TRANSFER_DEPOSIT};
