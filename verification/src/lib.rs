//! A minimal custodial vault: funds are held at a program-derived address and
//! released only to the single authority recorded at initialization.

pub mod address;
pub mod deriver;
pub mod error;
pub mod host;
pub mod laws;
pub mod ledger;
pub mod operations;

pub use address::Address;
pub use deriver::derive_address;
pub use error::GalnoError;
pub use host::{AccountRef, HostInstruction};
pub use ledger::{Account, AccountData, Config, Ledger, Vault};
pub use operations::{
    deposit, initialize, plan_deposit, plan_withdraw, withdraw, Deposit, DepositRecord,
    DerivationProof, HostCall, Initialize, Withdraw,
};
