//! The venue contract: quoting parameters and results, swap-building
//! parameters, and the polymorphic capability set every venue implementation
//! exposes.

use std::collections::HashSet;
use vstd::prelude::*;

use crate::account::KeyedAccount;
use crate::clock::ClockRef;
use crate::decimal::Decimal;
use crate::error::AmmError;
use crate::provider::AccountMap;
use crate::provider::QuoteMintToReferrer;
use crate::pubkey::Pubkey;
use crate::swap::AccountMeta;
use crate::swap::Swap;

verus! {

/// How the `amount` of a quote request is read: the exact input size for
/// `ExactIn`, the exact output size for `ExactOut`.
#[derive(Clone, Copy, Debug, Default, PartialEq, Eq, Structural)]
pub enum SwapMode {
    #[default]
    ExactIn,
    ExactOut,
}

impl SwapMode {
    /// Parses the exact string forms `"ExactIn"` and `"ExactOut"`; any other
    /// string fails with a parse error carrying the input.
    pub fn from_str(s: &str) -> (r: Result<SwapMode, AmmError>)
        ensures
            s@ == "ExactIn"@ ==> r == Ok::<SwapMode, AmmError>(SwapMode::ExactIn),
            s@ == "ExactOut"@ ==> r == Ok::<SwapMode, AmmError>(SwapMode::ExactOut),
            s@ != "ExactIn"@ && s@ != "ExactOut"@ ==> (r matches Err(e) && (
            e matches AmmError::ParseFailure { input } && input@ == s@)),
    {
        proof {
            reveal_strlit("ExactIn");
            reveal_strlit("ExactOut");
            assert("ExactIn"@.len() == 7 && "ExactOut"@.len() == 8);
        }
        let owned = s.to_owned();
        if owned == "ExactIn".to_owned() {
            Ok(SwapMode::ExactIn)
        } else if owned == "ExactOut".to_owned() {
            Ok(SwapMode::ExactOut)
        } else {
            Err(AmmError::ParseFailure { input: owned })
        }
    }
}

/// One quote request.
#[derive(Clone, Copy, Debug)]
pub struct QuoteParams {
    pub amount: u64,
    pub input_mint: Pubkey,
    pub output_mint: Pubkey,
    pub swap_mode: SwapMode,
}

/// One quote result. The fee is carried by `fee_amount` in the `fee_mint`
/// token; `fee_pct` is informational only.
#[derive(Clone, Copy, Debug, PartialEq)]
pub struct Quote {
    pub min_in_amount: Option<u64>,
    pub min_out_amount: Option<u64>,
    pub in_amount: u64,
    pub out_amount: u64,
    pub fee_amount: u64,
    pub fee_mint: Pubkey,
    pub fee_pct: Decimal,
}

impl Quote {
    /// The invariant a quote owes its request: the fee mint is one of the
    /// two traded mints and the informational fee fraction lies in `[0, 1)`.
    pub open spec fn well_formed_for(self, params: QuoteParams) -> bool {
        &&& self.fee_mint@ == params.input_mint@ || self.fee_mint@ == params.output_mint@
        &&& self.fee_pct.well_formed()
        &&& self.fee_pct.is_proper_fraction()
    }
}

impl Default for Quote {
    /// A zero quote: all amounts zero, no minimums, the zero fee mint and a
    /// zero fee fraction.
    fn default() -> (r: Quote)
        ensures
            r.min_in_amount is None,
            r.min_out_amount is None,
            r.in_amount == 0,
            r.out_amount == 0,
            r.fee_amount == 0,
            r.fee_mint@ == Seq::new(32, |i: int| 0u8),
            r.fee_pct.mantissa == 0 && r.fee_pct.scale == 0,
    {
        Quote {
            min_in_amount: None,
            min_out_amount: None,
            in_amount: 0,
            out_amount: 0,
            fee_amount: 0,
            fee_mint: Pubkey::default(),
            fee_pct: Decimal::zero(),
        }
    }
}

/// Everything the instruction-building stage needs: the concrete token
/// accounts, authorities, amounts, the aggregator's own program id used as a
/// placeholder, and the policy flag for unresolved dynamic accounts.
pub struct SwapParams<'a, 'b> {
    pub swap_mode: SwapMode,
    pub in_amount: u64,
    pub out_amount: u64,
    pub source_mint: Pubkey,
    pub destination_mint: Pubkey,
    pub source_token_account: Pubkey,
    pub destination_token_account: Pubkey,
    /// The user, or the program authority over the source token account.
    pub token_transfer_authority: Pubkey,
    pub open_order_address: Option<Pubkey>,
    pub quote_mint_to_referrer: Option<&'a QuoteMintToReferrer>,
    pub jupiter_program_id: &'b Pubkey,
    /// Instead of failing, replace unresolved dynamic accounts with the
    /// default key; useful when crawling markets whose account lists are
    /// data-dependent.
    pub missing_dynamic_accounts_as_default: bool,
}

impl<'a, 'b> SwapParams<'a, 'b> {
    /// A placeholder indicating an optional account, or a terminator when
    /// consuming remaining accounts: a readonly entry for the aggregator's
    /// own program id.
    pub fn placeholder_account_meta(&self) -> (r: AccountMeta)
        ensures
            r == (AccountMeta {
                pubkey: *self.jupiter_program_id,
                is_signer: false,
                is_writable: false,
            }),
    {
        AccountMeta::new_readonly(*self.jupiter_program_id, false)
    }
}

/// Which swap to perform, along with the ordered account-metadata list the
/// owning on-chain program expects.
pub struct SwapAndAccountMetas {
    pub swap: Swap,
    pub account_metas: Vec<AccountMeta>,
}

/// A setup step a venue may require from the user before trading.
#[derive(Clone)]
pub enum AmmUserSetup {
    SerumDexOpenOrdersSetup { market: Pubkey, program_id: Pubkey },
}

/// Process-wide context shared by all venue instances.
pub struct AmmContext {
    pub clock_ref: ClockRef,
}

/// The capability set a liquidity venue exposes to the aggregator.
///
/// Refresh (`update`) takes exclusive access; quoting and metadata
/// construction take shared access. A caller must not interleave a refresh
/// with concurrent quotes on the same instance.
pub trait Amm {
    /// Constructs the venue from its on-chain account; fails if the bytes
    /// are not a valid instance of this venue's state.
    fn from_keyed_account(keyed_account: &KeyedAccount, amm_context: &AmmContext) -> Result<
        Self,
        AmmError,
    > where Self: Sized;

    /// A human readable label of the underlying venue.
    fn label(&self) -> String;

    /// The owning program id.
    fn program_id(&self) -> Pubkey;

    /// The pool or market state address.
    fn key(&self) -> Pubkey;

    /// The mints that can be traded.
    fn get_reserve_mints(&self) -> Vec<Pubkey>;

    /// The accounts whose data the venue needs to refresh its state.
    fn get_accounts_to_update(&self) -> Vec<Pubkey>;

    /// Recomputes and caches internal pricing state from the declared
    /// accounts; fails if one is missing or malformed.
    fn update(&mut self, account_map: &AccountMap) -> Result<(), AmmError>;

    /// Whether this venue answers `ExactOut` requests; venues that do
    /// override this together with `supports_exact_out`.
    open spec fn supports_exact_out_spec(&self) -> bool {
        false
    }

    /// Reports whether this venue answers `ExactOut` requests: a `true`
    /// report is a binding declaration of support. Unless overridden, the
    /// venue declares no support.
    fn supports_exact_out(&self) -> (r: bool)
        ensures
            r ==> self.supports_exact_out_spec(),
        default_ensures
            !r,
    {
        false
    }

    /// Prices a request against the current cached state, without mutating
    /// it. A venue that does not support `ExactOut` must not be asked for
    /// it, and a successful quote owes its request the quote invariant.
    fn quote(&self, quote_params: &QuoteParams) -> (r: Result<Quote, AmmError>)
        requires
            quote_params.swap_mode == SwapMode::ExactOut ==> self.supports_exact_out_spec(),
        ensures
            r matches Ok(quote) ==> quote.well_formed_for(*quote_params),
    ;

    /// Prices a request against the current cached state together with the
    /// user's current balance in the input token, under the same mode
    /// discipline and quote invariant as `quote`.
    fn quote_with_current_token_balance(
        &self,
        quote_params: &QuoteParams,
        current_token_balance: u64,
    ) -> (r: Result<Quote, AmmError>)
        requires
            quote_params.swap_mode == SwapMode::ExactOut ==> self.supports_exact_out_spec(),
        ensures
            r matches Ok(quote) ==> quote.well_formed_for(*quote_params),
    ;

    /// Which swap to perform, with the ordered account-metadata list the
    /// owning program expects, including any placeholder substitutions the
    /// caller opted into.
    fn get_swap_and_account_metas(&self, swap_params: &SwapParams) -> Result<
        SwapAndAccountMetas,
        AmmError,
    >;

    /// Indicates that `get_accounts_to_update` might return a non-constant
    /// list; unless overridden, the declared account list is constant.
    fn has_dynamic_accounts(&self) -> (r: bool)
        default_ensures
            !r,
    {
        false
    }

    /// Indicates whether `update` must run before `get_reserve_mints`;
    /// unless overridden, the reserve mints are valid without a refresh.
    fn requires_update_for_reserve_mints(&self) -> (r: bool)
        default_ensures
            !r,
    {
        false
    }

    /// A setup step the user may have to perform first; unless overridden,
    /// none is required.
    fn get_user_setup(&self) -> (r: Option<AmmUserSetup>)
        default_ensures
            r is None,
    {
        None
    }

    /// An independent duplicate: same observable behavior, logically
    /// independent cached state, so callers can keep per-thread working
    /// copies.
    fn clone_amm(&self) -> (r: Self) where Self: Sized
        ensures
            r == *self,
    ;

    /// The venue only trades from its first mint to its second; unless
    /// overridden, both directions are tradable.
    fn unidirectional(&self) -> (r: bool)
        default_ensures
            !r,
    {
        false
    }

    /// For test harnesses: the dependency programs this venue calls;
    /// unless overridden, it declares none.
    fn program_dependencies(&self) -> (r: Vec<(Pubkey, String)>)
        default_ensures
            r@ == Seq::<(Pubkey, String)>::empty(),
    {
        Vec::new()
    }

    /// An account-budget hint used to bound instruction size; unless
    /// overridden, a near-whole legacy transaction, to penalize venues that
    /// give no hint.
    fn get_accounts_len(&self) -> (r: usize)
        default_ensures
            r == 32,
    {
        32
    }

    /// The identifiers of the underlying liquidity, for grouping venues that
    /// draw on the same source; unless overridden, none are declared.
    fn underlying_liquidities(&self) -> (r: Option<HashSet<Pubkey>>)
        default_ensures
            r is None,
    {
        None
    }

    /// Whether the market can be used for trading at all; unless
    /// overridden, the venue is active.
    fn is_active(&self) -> (r: bool)
        default_ensures
            r,
    {
        true
    }
}

/// Asks the venue for a quote only when the requested mode is supported:
/// an `ExactOut` request against a venue that reports no support is
/// rejected with the unsupported-mode error, without consulting the venue.
/// Every other answer is exactly what the venue answered, and an `ExactIn`
/// request is always handed to the venue.
pub fn quote_checked<A: Amm>(amm: &A, quote_params: &QuoteParams) -> (r: Result<Quote, AmmError>)
    ensures
        quote_params.swap_mode == SwapMode::ExactOut && !amm.supports_exact_out_spec() ==> r
            == Err::<Quote, AmmError>(AmmError::UnsupportedSwapMode),
        quote_params.swap_mode != SwapMode::ExactOut ==> call_ensures(
            A::quote,
            (amm, quote_params),
            r,
        ),
        r == Err::<Quote, AmmError>(AmmError::UnsupportedSwapMode) || call_ensures(
            A::quote,
            (amm, quote_params),
            r,
        ),
        r matches Ok(quote) ==> quote.well_formed_for(*quote_params),
{
    if quote_params.swap_mode == SwapMode::ExactOut && !amm.supports_exact_out() {
        Err(AmmError::UnsupportedSwapMode)
    } else {
        amm.quote(quote_params)
    }
}

} // verus!
