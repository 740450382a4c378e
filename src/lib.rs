//! Settlement core of a collateralized-debt vault: the vault record and its
//! stored form, request decoding, the collateral/debt arithmetic, and the
//! operations that decide, for each request, the token calls to make and the
//! record to store afterwards.

pub mod authority;
pub mod engine;
pub mod error;
pub mod instruction;
pub mod laws;
pub mod ledger;
pub mod oracle;
pub mod stake;
pub mod vault;

pub use error::{ProcessError, StakingError, VaultError};
pub use instruction::{StakingInstruction, VaultInstruction};
pub use oracle::get_btc_usd_price;
pub use vault::Vault;
