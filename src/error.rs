use vstd::prelude::*;

verus! {

/// Why an operation was refused. A refused operation changes no record and
/// moves no funds.
#[derive(Debug, Clone, Copy, PartialEq, Eq, Structural)]
pub enum EcomError {
    /// The payment is not in a state that allows the operation.
    InvalidPaymentState,
    /// The escrow's terms or state do not allow the operation.
    InvalidEscrowState,
    /// No deposit has authorized a release of the vault's funds.
    FundsNotReleased,
    /// A delivery-status token outside the known vocabulary.
    UnrecognizedStatusToken,
    /// A payment id text that differs from the stored payment's id.
    IdentifierMismatch,
    /// The value transfer was declined (insufficient balance or overflow).
    TransferFailed,
    /// A record is already live under this owner.
    RecordAlreadyExists,
    /// No live record under this owner.
    RecordNotFound,
}

} // verus!
