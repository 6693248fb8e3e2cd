//! Error codes of the minting pool.
//!
//! Most eligibility gates deliberately collapse into the single
//! `TarsNotLiveForWL` code so that a rejected caller cannot tell which
//! gate tripped; configuration and integrity problems keep specific codes.

use vstd::prelude::*;

verus! {

/// Every failure the pool logic can report.
#[derive(Clone, Copy, Debug, PartialEq, Eq, Structural)]
pub enum TarsError {
    /// Account does not have the correct owner.
    IncorrectOwner,
    /// Account is not initialized.
    Uninitialized,
    /// Mint mismatch.
    MintMismatch,
    /// Index greater than length.
    IndexGreaterThanLength,
    /// Numerical overflow.
    NumericalOverflowError,
    /// More creators supplied than the pool can hold beside its own.
    TooManyCreators,
    /// The pool identifier must be exactly 6 bytes long.
    UuidMustBeExactly6Length,
    /// Not enough tokens to pay for this minting.
    NotEnoughTokens,
    /// Not enough native funds to pay for this minting.
    NotEnoughSOL,
    /// Token transfer failed.
    TokenTransferFailed,
    /// The pool has no items left.
    TarsEmpty,
    /// The pool is not live.
    TarsNotLive,
    /// Pools with hidden settings have no config lines to change.
    HiddenSettingsConfigsDoNotHaveConfigLines,
    /// The number of lines can only change on a hidden-settings pool.
    CannotChangeNumberOfLines,
    /// Derived key invalid.
    DerivedKeyInvalid,
    /// Public key mismatch.
    PublicKeyMismatch,
    /// No whitelist token present.
    NoWhitelistToken,
    /// Token burn failed.
    TokenBurnFailed,
    /// Missing gateway app when required.
    GatewayAppMissing,
    /// Missing gateway token when required.
    GatewayTokenMissing,
    /// Invalid gateway token expire time.
    GatewayTokenExpireTimeInvalid,
    /// Missing gateway network expire feature when required.
    NetworkExpireFeatureMissing,
    /// Unable to find an unused config line near the random index.
    CannotFindUsableConfigLine,
    /// Stored bytes are not valid text.
    InvalidString,
    /// Suspicious transaction detected.
    SuspiciousTransaction,
    /// Cannot switch to hidden settings once items are available.
    CannotSwitchToHiddenSettings,
    /// Wrong slot-hashes account supplied.
    IncorrectSlotHashesPubkey,
    /// Incorrect collection NFT authority.
    IncorrectCollectionAuthority,
    /// Collection account address is invalid.
    MismatchedCollectionPDA,
    /// Provided mint account does not match the collection mint.
    MismatchedCollectionMint,
    /// Slot-hashes account is empty.
    SlotHashesEmpty,
    /// The metadata account must be empty to mint a new NFT.
    MetadataAccountMustBeEmpty,
    /// A pool with a collection requires the set-collection call during mint.
    MissingSetCollectionDuringMint,
    /// Collection settings cannot change once minting has begun.
    NoChangingCollectionDuringMint,
    /// A pool with a collection must retain authority.
    TarsCollectionRequiresRetainAuthority,
    /// Error within the gateway program.
    GatewayProgramError,
    /// Source balance below the required deposit.
    NotEnoughBalance,
    /// Cannot decrease below the number of spots already granted.
    InvalidNumberofWL,
    /// The whitelist tier name is invalid.
    InvalidWLType,
    /// Tier One is not scheduled.
    WL1NotScheduled,
    /// Tier Two is not scheduled.
    WL2NotScheduled,
    /// Tier Three is not scheduled.
    WL3NotScheduled,
    /// Tier Four is not scheduled.
    WL4NotScheduled,
    /// The whitelist mint has not started yet.
    WLMintNotStarted,
    /// No whitelist spots left for this wallet.
    NoWhitelistSpots,
    /// The pool is not live for whitelist minting.
    TarsNotLiveForWL,
}

} // verus!
