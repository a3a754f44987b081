//! Escrowed transfer settlement: a custodial pool ledger, the lifecycle of
//! each escrowed transfer, and the accept / reject / expire operations with
//! their fee and accounting rules.
//!
//! Moving tokens, authenticating signers and emitting events belong to the
//! surrounding runtime. The settlement operations take the outcome of the
//! ledger move as an argument and decide everything else.
use vstd::prelude::*;

pub mod address;
pub mod error;
pub mod fee;
pub mod pool;
pub mod settlement;
pub mod transfer;

pub use address::Address;
pub use error::{HandshakeError, LedgerError};
pub use fee::{compute_expiry_fee, compute_fee, FeePolicy};
pub use pool::Pool;
pub use settlement::{
    accept_transfer, create_transfer, expire_transfer, plan_accept, plan_expire, plan_reject,
    reject_transfer, AcceptTransfer, ExpireTransfer, Payout, RejectTransfer, TransferAccepted,
    TransferExpired, TransferRejected,
};
pub use transfer::{SecureTransfer, TransferStatus};
