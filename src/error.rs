use vstd::prelude::*;

verus! {

/// Every way a lock or release call can fail. A failing call leaves all
/// accounts exactly as they were.
#[derive(Debug, Clone, Copy, PartialEq, Eq, Structural)]
pub enum LockError {
    /// The instruction payload has an unknown tag or a malformed body.
    InvalidInstruction,
    /// Fewer accounts were supplied than the operation names.
    NotEnoughAccountKeys,
    /// The custody account is not owned by this program.
    IncorrectOwner,
    /// The account that must authorize the call did not sign it.
    MissingAuthorization,
    /// The paying account holds fewer lamports than are to be moved.
    InsufficientFunds,
    /// The custody account's data is not a well-formed custody record.
    InvalidAccountData,
    /// A lock was attempted on a record that is already locked.
    AlreadyInitialized,
    /// A release was attempted on a record that holds no lock.
    UninitializedAccount,
    /// A release was attempted before the hold period elapsed.
    EarlyUnlock,
    /// The account offered for a release's payout is not the recorded owner's.
    InvalidArgument,
    /// One account was named in two roles of the same call.
    DuplicateAccount,
    /// Crediting the receiving account would overflow its balance.
    ArithmeticOverflow,
}

} // verus!
