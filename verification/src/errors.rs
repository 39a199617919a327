//! Typed failures returned by the vault ledger operations.

use vstd::prelude::*;

verus! {

/// Every way a ledger operation can fail. Each operation returns one of
/// these synchronously and leaves the ledger unchanged when it does.
#[derive(Clone, Copy, Debug, PartialEq, Eq, Structural)]
pub enum ErrorCode {
    /// A vault for this owner already exists; creation is insert-once.
    AlreadyExists,
    /// Only the vault owner may withdraw.
    Unauthorized,
    /// The requested withdrawal exceeds the vault's spendable balance.
    InsufficientFunds,
    /// An accounting counter would exceed its representable range.
    Overflow,
    /// The external value-transfer capability reported a failure.
    TransferFailed,
}

} // verus!
