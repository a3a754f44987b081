use vstd::prelude::*;

verus! {

/// Failure reported by the asset ledger when it could not move funds.
#[derive(Clone, Copy, Debug, PartialEq, Eq, Structural)]
pub struct LedgerError {
    pub code: u32,
}

/// Every way a pool or settlement operation can fail.
#[derive(Clone, Copy, Debug, PartialEq, Eq, Structural)]
pub enum HandshakeError {
    /// The caller is not the pool's operator.
    Unauthorized,
    /// The transfer is no longer pending.
    InactiveTransfer,
    /// The reason message is longer than the allowed number of bytes.
    InvalidMemoLength,
    /// A counter would overflow, or the pool's balance invariant would break.
    ArithmeticOverflow,
    /// An account handed to the operation does not belong to the pool or transfer.
    AccountMismatch,
    /// Expiry was requested before the transfer's deadline, or it has none.
    TransferNotExpired,
    /// The asset ledger refused to move the funds.
    Ledger(LedgerError),
}

} // verus!
