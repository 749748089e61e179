use vstd::prelude::*;

verus! {

/// The error that this program itself raises.
#[derive(Clone, Copy, Debug, PartialEq, Eq, Structural)]
pub enum ErrorCode {
    AlreadyTransferred,
}

impl ErrorCode {
    /// The human-readable message of the error.
    pub fn message(&self) -> (r: &'static str)
        ensures
            r@ == "This certification NFT has already been transferred and cannot be transferred again"@,
    {
        match self {
            ErrorCode::AlreadyTransferred => "This certification NFT has already been transferred and cannot be transferred again",
        }
    }
}

/// Every way an operation can fail: the program's own error, and those that
/// the account checks and the token ledger raise.
#[derive(Clone, Copy, Debug, PartialEq, Eq, Structural)]
pub enum ProgramError {
    /// Raised by the program.
    Custom(ErrorCode),
    /// An account that the operation creates exists already.
    AccountAlreadyInUse,
    /// A holding account that the operation reads does not exist.
    AccountNotInitialized,
    /// A holding account does not belong to the expected owner and mint.
    ConstraintViolated,
    /// A holding is opened for a token-unit that does not exist.
    InvalidMint,
    /// The source holding has too small a balance.
    InsufficientFunds,
    /// The two holdings are of different token-units.
    MintMismatch,
    /// The signer is not the source holding's owner.
    OwnerMismatch,
    /// A balance would leave the range of `u64`.
    Overflow,
}

} // verus!
