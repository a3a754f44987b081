use vstd::prelude::*;

use crate::address::Address;
use crate::error::HandshakeError;

verus! {

/// Where a transfer stands in its lifecycle. Only `Pending` can change,
/// and only to one of the three terminal states.
#[derive(Clone, Copy, Debug, PartialEq, Eq, Structural)]
pub enum TransferStatus {
    Pending,
    Accepted,
    Rejected,
    Expired,
}

/// What a transfer record holds, as plain values.
pub struct TransferState {
    pub pool: Address,
    pub sender: Address,
    pub recipient: Address,
    pub amount: u64,
    pub status: TransferStatus,
    pub created_at: i64,
    pub expires_at: Option<i64>,
}

/// The record after its status was set to `status`, all else kept.
pub open spec fn with_status(t: TransferState, status: TransferStatus) -> TransferState {
    TransferState { status, ..t }
}

/// One escrowed transfer: who pays whom, how much, and how it ended.
pub struct SecureTransfer {
    pool: Address,
    sender: Address,
    recipient: Address,
    amount: u64,
    status: TransferStatus,
    created_at: i64,
    expires_at: Option<i64>,
}

impl View for SecureTransfer {
    type V = TransferState;

    closed spec fn view(&self) -> TransferState {
        TransferState {
            pool: self.pool,
            sender: self.sender,
            recipient: self.recipient,
            amount: self.amount,
            status: self.status,
            created_at: self.created_at,
            expires_at: self.expires_at,
        }
    }
}

impl SecureTransfer {
    /// A pending record; creating one is the pool's business, so this stays in the crate.
    pub(crate) fn new(
        pool: Address,
        sender: Address,
        recipient: Address,
        amount: u64,
        created_at: i64,
        expires_at: Option<i64>,
    ) -> (r: SecureTransfer)
        ensures
            r@ == (TransferState {
                pool,
                sender,
                recipient,
                amount,
                status: TransferStatus::Pending,
                created_at,
                expires_at,
            }),
    {
        SecureTransfer {
            pool,
            sender,
            recipient,
            amount,
            status: TransferStatus::Pending,
            created_at,
            expires_at,
        }
    }

    /// Rebuilds a transfer record from stored values.
    pub fn restore(
        pool: Address,
        sender: Address,
        recipient: Address,
        amount: u64,
        status: TransferStatus,
        created_at: i64,
        expires_at: Option<i64>,
    ) -> (r: SecureTransfer)
        ensures
            r@ == (TransferState { pool, sender, recipient, amount, status, created_at, expires_at }),
    {
        SecureTransfer { pool, sender, recipient, amount, status, created_at, expires_at }
    }

    pub fn pool(&self) -> (r: Address)
        ensures
            r == self@.pool,
    {
        self.pool
    }

    pub fn sender(&self) -> (r: Address)
        ensures
            r == self@.sender,
    {
        self.sender
    }

    pub fn recipient(&self) -> (r: Address)
        ensures
            r == self@.recipient,
    {
        self.recipient
    }

    pub fn amount(&self) -> (r: u64)
        ensures
            r == self@.amount,
    {
        self.amount
    }

    pub fn status(&self) -> (r: TransferStatus)
        ensures
            r == self@.status,
    {
        self.status
    }

    pub fn created_at(&self) -> (r: i64)
        ensures
            r == self@.created_at,
    {
        self.created_at
    }

    pub fn expires_at(&self) -> (r: Option<i64>)
        ensures
            r == self@.expires_at,
    {
        self.expires_at
    }

    /// Succeeds only while the transfer is pending.
    pub fn validate_active(&self) -> (r: Result<(), HandshakeError>)
        ensures
            self@.status == TransferStatus::Pending ==> r is Ok,
            self@.status != TransferStatus::Pending ==> r == Err::<(), _>(
                HandshakeError::InactiveTransfer,
            ),
    {
        match self.status {
            TransferStatus::Pending => Ok(()),
            _ => Err(HandshakeError::InactiveTransfer),
        }
    }

    /// Moves a pending transfer to `status`; a settled one is left as it is.
    fn settle_as(&mut self, status: TransferStatus) -> (r: Result<(), HandshakeError>)
        ensures
            old(self)@.status == TransferStatus::Pending ==> r is Ok && final(self)@ == with_status(
                old(self)@,
                status,
            ),
            old(self)@.status != TransferStatus::Pending ==> r == Err::<(), _>(
                HandshakeError::InactiveTransfer,
            ) && final(self)@ == old(self)@,
    {
        let active = self.validate_active();
        if active.is_err() {
            return active;
        }
        self.status = status;
        Ok(())
    }

    pub fn mark_as_accepted(&mut self) -> (r: Result<(), HandshakeError>)
        ensures
            old(self)@.status == TransferStatus::Pending ==> r is Ok && final(self)@ == with_status(
                old(self)@,
                TransferStatus::Accepted,
            ),
            old(self)@.status != TransferStatus::Pending ==> r == Err::<(), _>(
                HandshakeError::InactiveTransfer,
            ) && final(self)@ == old(self)@,
    {
        self.settle_as(TransferStatus::Accepted)
    }

    pub fn mark_as_rejected(&mut self) -> (r: Result<(), HandshakeError>)
        ensures
            old(self)@.status == TransferStatus::Pending ==> r is Ok && final(self)@ == with_status(
                old(self)@,
                TransferStatus::Rejected,
            ),
            old(self)@.status != TransferStatus::Pending ==> r == Err::<(), _>(
                HandshakeError::InactiveTransfer,
            ) && final(self)@ == old(self)@,
    {
        self.settle_as(TransferStatus::Rejected)
    }

    pub fn mark_as_expired(&mut self) -> (r: Result<(), HandshakeError>)
        ensures
            old(self)@.status == TransferStatus::Pending ==> r is Ok && final(self)@ == with_status(
                old(self)@,
                TransferStatus::Expired,
            ),
            old(self)@.status != TransferStatus::Pending ==> r == Err::<(), _>(
                HandshakeError::InactiveTransfer,
            ) && final(self)@ == old(self)@,
    {
        self.settle_as(TransferStatus::Expired)
    }
}

} // verus!
