use vstd::prelude::*;

verus! {

/// Every way a command handler can fail.  A failing handler leaves the
/// ledger untouched and emits no instruction: the call is an atomic no-op.
#[derive(Clone, Copy, Debug, PartialEq, Eq, Structural)]
pub enum ContractError {
    /// The caller is not allowed to perform the operation.
    Unauthorized {},
    /// The caller is not the stored owner.
    OnlyOwner {},
    /// Redemption was attempted while the withdraw gate is closed.
    WithdrawPause {},
    /// A second attempt to bind the token-gateway address.
    ConfigSetAlready {},
    /// The deposit would push the cumulative total above the cap.
    DepositMoreThanMax {},
    /// The token-gateway address was read before it was bound.  Stands in
    /// for the storage-read failure a persistent backing store reports
    /// when the address record is absent.
    TokenNotSet {},
}

} // verus!
