use vstd::prelude::*;

verus! {

/// Why an operation was refused.
#[derive(Clone, Copy, Debug, PartialEq, Eq, Structural)]
pub enum StakingError {
    /// The instruction payload is too short or holds a value that is not allowed.
    InvalidInstructionData,
    /// A supplied record does not match what the operation expects.
    InvalidAccountData,
    /// An amount or rate is outside its permitted range.
    InvalidArgument,
    /// The caller did not sign.
    MissingRequiredSignature,
    /// A balance is smaller than the requested amount.
    InsufficientFunds,
    /// The record to create already exists.
    AccountAlreadyInitialized,
    /// A record that must exist is empty.
    UninitializedAccount,
    /// The signer is not the authority recorded in the oracle record.
    InvalidAccountOwner,
    /// A counter would leave its range.
    ArithmeticOverflow,
    /// The registry of pools is full.
    PoolRegistryFull,
    /// Every position slot of the ledger is active.
    PositionCapacityExceeded,
    /// The ledger holds no active position for the pool.
    PositionNotFound,
    /// None of the conditions that unlock an emergency exit holds.
    NoEmergencyCondition,
    /// The position holds no derivative tokens.
    NothingToWithdraw,
    /// The claimable amount is zero.
    NothingToClaim,
    /// The reward vault holds less than the claimable amount.
    InsufficientVaultBalance,
    /// The user ledger is paused.
    UserPaused,
    /// The platform-wide emergency pause is set.
    GlobalEmergencyPaused,
    /// The pool's own emergency pause is set.
    PoolEmergencyPaused,
    /// The pool is not in the active state.
    PoolNotActive,
    /// Auto-compounding is switched off for the position.
    AutoCompoundDisabled,
    /// The accrued rewards are below the position's compounding threshold.
    BelowMinimumCompound,
    /// Less time than the compounding interval has passed.
    IntervalNotElapsed,
    /// The reward asset differs from the staked asset.
    UnsupportedCrossAssetCompound,
}

impl StakingError {
    /// The numeric code under which a domain error is reported, if it has one.
    pub open spec fn spec_custom_code(self) -> Option<u32> {
        match self {
            StakingError::PositionNotFound => Some(1002u32),
            StakingError::NoEmergencyCondition => Some(2001u32),
            StakingError::NothingToWithdraw => Some(2002u32),
            StakingError::NothingToClaim => Some(3001u32),
            StakingError::InsufficientVaultBalance => Some(3002u32),
            StakingError::UserPaused => Some(4001u32),
            StakingError::GlobalEmergencyPaused => Some(4002u32),
            StakingError::PoolEmergencyPaused => Some(4003u32),
            StakingError::AutoCompoundDisabled => Some(5001u32),
            StakingError::BelowMinimumCompound => Some(5002u32),
            StakingError::IntervalNotElapsed => Some(5004u32),
            StakingError::UnsupportedCrossAssetCompound => Some(5005u32),
            _ => None,
        }
    }

    /// The numeric code under which a domain error is reported, if it has one.
    pub fn custom_code(&self) -> (code: Option<u32>)
        ensures
            code == self.spec_custom_code(),
    {
        match self {
            StakingError::PositionNotFound => Some(1002u32),
            StakingError::NoEmergencyCondition => Some(2001u32),
            StakingError::NothingToWithdraw => Some(2002u32),
            StakingError::NothingToClaim => Some(3001u32),
            StakingError::InsufficientVaultBalance => Some(3002u32),
            StakingError::UserPaused => Some(4001u32),
            StakingError::GlobalEmergencyPaused => Some(4002u32),
            StakingError::PoolEmergencyPaused => Some(4003u32),
            StakingError::AutoCompoundDisabled => Some(5001u32),
            StakingError::BelowMinimumCompound => Some(5002u32),
            StakingError::IntervalNotElapsed => Some(5004u32),
            StakingError::UnsupportedCrossAssetCompound => Some(5005u32),
            _ => None,
        }
    }
}

} // verus!
