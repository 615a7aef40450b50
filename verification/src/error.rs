//! The error kinds the contract surfaces: lookup, decoding, quoting,
//! narrowing and parsing failures.

use vstd::prelude::*;

use crate::pubkey::Pubkey;
use crate::swap::Swap;

verus! {

/// Everything that can go wrong inside the venue contract.
#[derive(Clone, Debug, PartialEq)]
pub enum AmmError {
    /// A required account key was absent from the account provider; carries
    /// the missing key.
    AccountNotFound { key: Pubkey },
    /// Account bytes did not decode into the expected on-chain layout.
    MalformedState,
    /// ExactOut was requested on a venue that only supports ExactIn.
    UnsupportedSwapMode,
    /// A quote cannot be produced from the current reserves.
    InsufficientLiquidity,
    /// During narrowing, the swap variant was outside the candidate subset;
    /// carries the offending variant.
    InvalidCandidate { swap: Swap },
    /// An input string did not match any recognized value; carries the
    /// input.
    ParseFailure { input: String },
    /// A transport-encoded account failed to decode at the boundary.
    TransportDecode,
}

impl AmmError {
    /// A short human-readable description of the error kind.
    pub fn describe(&self) -> (r: &'static str) {
        match self {
            AmmError::AccountNotFound { .. } => "could not find address",
            AmmError::MalformedState => "account bytes do not match the expected layout",
            AmmError::UnsupportedSwapMode => "swap mode is not supported by this venue",
            AmmError::InsufficientLiquidity => "quote cannot be produced from current reserves",
            AmmError::InvalidCandidate { .. } => "swap variant is not a candidate",
            AmmError::ParseFailure { .. } => "input does not match a recognized value",
            AmmError::TransportDecode => "transport-encoded account failed to decode",
        }
    }
}

} // verus!
