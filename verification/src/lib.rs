//! A payment-settlement facilitator: one escrowed payment is split into the
//! seller's proceeds, a mandatory tithe and an optional protocol fee, and a
//! write-once receipt keeps every payment identifier from settling twice.
//!
//! The library decides; it moves no value itself. Its state is handed to
//! every operation by the caller:
//!
//! - the configuration of the deployment ([`FacilitatorConfig`]), created
//!   once by [`initialize`] and changed by its authority through
//!   [`update_config`];
//! - the receipt ledger ([`ReceiptLedger`]), which holds one receipt for
//!   each settled payment and never changes or removes one.
//!
//! A payment is settled in two steps. [`settle_payment`] checks the request
//! against configuration and ledger and computes the [`Split`]; the
//! [`Settlement`] it returns lists the transfers for the external ledger,
//! which makes all of them or none. With the ledger's answer,
//! [`record_settlement`] writes the receipt and counts the payment, or
//! leaves everything as it was. [`record_settlement_now`] does the same at
//! the time of the ledger's own clock.
//!
//! Every function is verified against its contract. The one thing taken on
//! trust is the reading of the ledger's clock in [`clock`], of which nothing
//! is claimed. What holds across operations is stated and proved in
//! [`laws`].

pub mod clock;
pub mod config;
pub mod error;
pub mod laws;
pub mod pubkey;
pub mod receipt;
pub mod settlement;
pub mod split;

pub use crate::config::{
    initialize, update_config, FacilitatorConfig, Initialize, UpdateConfig, MAX_FEE_BPS,
    MAX_TITHE_BPS,
};
pub use crate::error::ErrorCode;
pub use crate::pubkey::Pubkey;
pub use crate::receipt::{PaymentReceipt, ReceiptLedger};
pub use crate::settlement::{
    record_settlement, record_settlement_now, settle_payment, SettlePayment, Settlement,
    TransferInstruction, TransferOutcome, MAX_PAYMENT_ID_LEN,
};
pub use crate::split::{split_payment, Split, BPS_DENOMINATOR};
