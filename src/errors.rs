use vstd::prelude::*;

verus! {

/// Why an operation on a project was refused.
#[derive(Clone, Copy, Debug, PartialEq, Eq, Structural)]
pub enum CustomError {
    /// The operation is not legal in the project's current status, the
    /// project's custody cannot cover a refund, or donors remain unrefunded.
    InvalidProjectStatus,
    /// A withdrawal was asked for while the project is not a success.
    ProjectWithdrawNotAvailable,
    /// The caller is not the owner, or is not a recorded donor.
    UserNotAuthorized,
    /// A project record already stands at the owner's derived address.
    AddressAlreadyExists,
    /// The paying account holds fewer units than the transfer moves.
    InsufficientFunds,
}

} // verus!
