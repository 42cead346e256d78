//! Invoice NFTs: minting, life cycle and reentrancy protection.
//!
//! Each invoice is an NFT with a unique id that stands for a real-world invoice: an amount, a due
//! date, a hashed debtor, a risk score and a repayment status. Its terms are fixed when it is
//! minted; only its status moves, along `Created` -> `Listed` -> `Funded` -> `Repaid` |
//! `Defaulted`.
//!
//! The functions work on an [`Env`]: the part of the ledger that one contract instance sees, as
//! plain values. [`operations`] proves what each call does to the stored values, [`laws`] what holds
//! of the library as a whole.

pub mod env;
pub mod errors;
pub mod history;
pub mod invoice_nft;
pub mod laws;
pub mod operations;
pub mod reentrancy;
pub mod types;
pub mod validation;

pub use env::{DataKey, Env, GuardKey};
pub use errors::KoraError;
pub use invoice_nft::InvoiceNftContract;
pub use reentrancy::{acquire_guard, end_transaction, is_locked, release_guard, ReentrancyGuard};
pub use types::{Address, Event, Invoice, InvoiceStatus, RiskTier};
