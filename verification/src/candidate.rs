//! The candidate subset of the swap protocol: the variants eligible for the
//! secondary selection stage.
//!
//! Narrowing is a total function over the source variants with an explicit
//! failure for the complement: every variant is matched, so the conversion
//! is re-derived whenever the variant set grows, never left to an implicit
//! default.

use vstd::prelude::*;

use crate::error::AmmError;
use crate::swap::Side;
use crate::swap::Swap;

verus! {

/// The swap shapes the secondary selection stage can work with: single-leg
/// spot venues whose instruction needs at most a fixed direction or side,
/// never a nested remaining-accounts descriptor.
#[derive(Clone, Copy, Debug, PartialEq)]
pub enum CandidateSwap {
    Saber,
    TokenSwap,
    Raydium,
    Whirlpool { a_to_b: bool },
    Invariant { x_to_y: bool },
    Meteora,
    MeteoraDlmm,
    RaydiumClmm,
    RaydiumCP,
    Phoenix { side: Side },
    SolFi { is_quote_to_base: bool },
    ZeroFi,
    Obric { x_to_y: bool },
    StabbleStableSwap,
    StabbleWeightedSwap,
}

/// The candidate a swap narrows to, or nothing off the subset.
pub open spec fn candidate_of(swap: Swap) -> Option<CandidateSwap> {
    match swap {
        Swap::Saber => Some(CandidateSwap::Saber),
        Swap::TokenSwap => Some(CandidateSwap::TokenSwap),
        Swap::Raydium => Some(CandidateSwap::Raydium),
        Swap::Whirlpool { a_to_b } => Some(CandidateSwap::Whirlpool { a_to_b }),
        Swap::Invariant { x_to_y } => Some(CandidateSwap::Invariant { x_to_y }),
        Swap::Meteora => Some(CandidateSwap::Meteora),
        Swap::MeteoraDlmm => Some(CandidateSwap::MeteoraDlmm),
        Swap::RaydiumClmm => Some(CandidateSwap::RaydiumClmm),
        Swap::RaydiumCP => Some(CandidateSwap::RaydiumCP),
        Swap::Phoenix { side } => Some(CandidateSwap::Phoenix { side }),
        Swap::SolFi { is_quote_to_base } => Some(CandidateSwap::SolFi { is_quote_to_base }),
        Swap::ZeroFi => Some(CandidateSwap::ZeroFi),
        Swap::Obric { x_to_y } => Some(CandidateSwap::Obric { x_to_y }),
        Swap::StabbleStableSwap => Some(CandidateSwap::StabbleStableSwap),
        Swap::StabbleWeightedSwap => Some(CandidateSwap::StabbleWeightedSwap),
        _ => None,
    }
}

/// The swap a candidate stands for.
pub open spec fn widened(candidate: CandidateSwap) -> Swap {
    match candidate {
        CandidateSwap::Saber => Swap::Saber,
        CandidateSwap::TokenSwap => Swap::TokenSwap,
        CandidateSwap::Raydium => Swap::Raydium,
        CandidateSwap::Whirlpool { a_to_b } => Swap::Whirlpool { a_to_b },
        CandidateSwap::Invariant { x_to_y } => Swap::Invariant { x_to_y },
        CandidateSwap::Meteora => Swap::Meteora,
        CandidateSwap::MeteoraDlmm => Swap::MeteoraDlmm,
        CandidateSwap::RaydiumClmm => Swap::RaydiumClmm,
        CandidateSwap::RaydiumCP => Swap::RaydiumCP,
        CandidateSwap::Phoenix { side } => Swap::Phoenix { side },
        CandidateSwap::SolFi { is_quote_to_base } => Swap::SolFi { is_quote_to_base },
        CandidateSwap::ZeroFi => Swap::ZeroFi,
        CandidateSwap::Obric { x_to_y } => Swap::Obric { x_to_y },
        CandidateSwap::StabbleStableSwap => Swap::StabbleStableSwap,
        CandidateSwap::StabbleWeightedSwap => Swap::StabbleWeightedSwap,
    }
}

/// Narrowing preserves every field bit for bit where it succeeds, and a
/// swap outside the subset is the widening of no candidate at all.
pub proof fn lemma_candidate_narrowing_faithful(swap: Swap)
    ensures
        candidate_of(swap) matches Some(candidate) ==> widened(candidate) == swap,
        candidate_of(swap) is None ==> forall|candidate: CandidateSwap|
            widened(candidate) != swap,
{
}

/// Widening a candidate and narrowing it back returns the same candidate.
pub proof fn lemma_candidate_round_trip(candidate: CandidateSwap)
    ensures
        candidate_of(widened(candidate)) == Some(candidate),
{
}

impl CandidateSwap {
    /// Narrows a swap into the candidate subset. Succeeds with every field
    /// preserved exactly on the subset, and fails carrying the offending
    /// variant everywhere else.
    pub fn try_from(swap: Swap) -> (r: Result<CandidateSwap, AmmError>)
        ensures
            match candidate_of(swap) {
                Some(candidate) => r == Ok::<CandidateSwap, AmmError>(candidate),
                None => r == Err::<CandidateSwap, AmmError>(AmmError::InvalidCandidate { swap }),
            },
    {
        match swap {
            Swap::Saber => Ok(CandidateSwap::Saber),
            Swap::TokenSwap => Ok(CandidateSwap::TokenSwap),
            Swap::Raydium => Ok(CandidateSwap::Raydium),
            Swap::Whirlpool { a_to_b } => Ok(CandidateSwap::Whirlpool { a_to_b }),
            Swap::Invariant { x_to_y } => Ok(CandidateSwap::Invariant { x_to_y }),
            Swap::Meteora => Ok(CandidateSwap::Meteora),
            Swap::MeteoraDlmm => Ok(CandidateSwap::MeteoraDlmm),
            Swap::RaydiumClmm => Ok(CandidateSwap::RaydiumClmm),
            Swap::RaydiumCP => Ok(CandidateSwap::RaydiumCP),
            Swap::Phoenix { side } => Ok(CandidateSwap::Phoenix { side }),
            Swap::SolFi { is_quote_to_base } => Ok(CandidateSwap::SolFi { is_quote_to_base }),
            Swap::ZeroFi => Ok(CandidateSwap::ZeroFi),
            Swap::Obric { x_to_y } => Ok(CandidateSwap::Obric { x_to_y }),
            Swap::StabbleStableSwap => Ok(CandidateSwap::StabbleStableSwap),
            Swap::StabbleWeightedSwap => Ok(CandidateSwap::StabbleWeightedSwap),
            other => Err(AmmError::InvalidCandidate { swap: other }),
        }
    }

    /// The swap this candidate stands for, exactly as it was narrowed.
    pub fn widen(self) -> (r: Swap)
        ensures
            r == widened(self),
            candidate_of(r) == Some(self),
    {
        proof {
            lemma_candidate_round_trip(self);
        }
        match self {
            CandidateSwap::Saber => Swap::Saber,
            CandidateSwap::TokenSwap => Swap::TokenSwap,
            CandidateSwap::Raydium => Swap::Raydium,
            CandidateSwap::Whirlpool { a_to_b } => Swap::Whirlpool { a_to_b },
            CandidateSwap::Invariant { x_to_y } => Swap::Invariant { x_to_y },
            CandidateSwap::Meteora => Swap::Meteora,
            CandidateSwap::MeteoraDlmm => Swap::MeteoraDlmm,
            CandidateSwap::RaydiumClmm => Swap::RaydiumClmm,
            CandidateSwap::RaydiumCP => Swap::RaydiumCP,
            CandidateSwap::Phoenix { side } => Swap::Phoenix { side },
            CandidateSwap::SolFi { is_quote_to_base } => Swap::SolFi { is_quote_to_base },
            CandidateSwap::ZeroFi => Swap::ZeroFi,
            CandidateSwap::Obric { x_to_y } => Swap::Obric { x_to_y },
            CandidateSwap::StabbleStableSwap => Swap::StabbleStableSwap,
            CandidateSwap::StabbleWeightedSwap => Swap::StabbleWeightedSwap,
        }
    }
}

} // verus!
