//! Domain-data normalization for a chain-explorer chat bot: asset scales,
//! exact fixed-point conversion, account-role classification, epoch rotation
//! arithmetic and compact display strings.

pub mod account;
pub mod amount;
pub mod asset;
pub mod display;
pub mod epoch;
pub mod error;
pub mod orders;
