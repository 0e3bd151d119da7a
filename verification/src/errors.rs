//! The named failures of the staking operations.

use vstd::prelude::*;

verus! {

/// Why a staking operation was refused.
#[derive(Clone, Copy, Debug, PartialEq, Eq, Structural)]
pub enum AppError {
    /// A stake was requested while a deposit is already held.
    IsStaked,
    /// An unstake was requested while nothing is held.
    NotStaked,
    /// A stake was requested for zero tokens, or for more than the holder has.
    NoToken,
    /// A record already exists for this holder and mint.
    AlreadyInitialized,
    /// No record exists for this holder and mint.
    NotFound,
}

impl AppError {
    /// The text shown for each failure.
    pub open spec fn text(self) -> Seq<char> {
        match self {
            AppError::IsStaked => "Token are already staked"@,
            AppError::NotStaked => "Tokens are not staked"@,
            AppError::NoToken => "No tokens to stake"@,
            AppError::AlreadyInitialized => "Stake record already exists"@,
            AppError::NotFound => "Stake record not found"@,
        }
    }

    /// The message of this failure, as an owned string.
    pub fn message(&self) -> (message: String)
        ensures
            message@ == self.text(),
    {
        match self {
            AppError::IsStaked => "Token are already staked".to_owned(),
            AppError::NotStaked => "Tokens are not staked".to_owned(),
            AppError::NoToken => "No tokens to stake".to_owned(),
            AppError::AlreadyInitialized => "Stake record already exists".to_owned(),
            AppError::NotFound => "Stake record not found".to_owned(),
        }
    }
}

} // verus!
