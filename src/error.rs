use vstd::prelude::*;

verus! {

/// Why an operation was refused. A refused operation leaves every account
/// exactly as it was.
#[derive(Debug, Clone, Copy, PartialEq, Eq, Structural)]
pub enum EscrowError {
    /// The acting party did not sign, or holds no role that may act.
    MissingAuthorization,
    /// Bad type tag, short record, or an address that differs from the one stored.
    InvalidRecord,
    /// The operation is not legal from the record's current status.
    InvalidState,
    /// Overflow on the credit side or insufficient custodial balance on the debit side.
    ArithmeticFault,
    /// Payload too short, decision byte missing, too few accounts, or a zero amount.
    MalformedInput,
    /// The ledger could not supply the time or a derived address.
    LedgerUnavailable,
}

} // verus!
