//! Contract surface shared by a routing aggregator and its liquidity venues.
//!
//! The crate defines the data shapes that a venue implementation and its
//! caller agree on: keyed accounts and their transport encoding, the closed
//! set of swap instruction shapes, the candidate subset used by a secondary
//! selection stage, a shared clock snapshot, a read-only account provider,
//! and the polymorphic venue capability set itself.

pub mod account;
pub mod amm;
pub mod candidate;
pub mod clock;
pub mod decimal;
pub mod error;
pub mod provider;
pub mod pubkey;
pub mod swap;

pub use account::Account;
pub use account::KeyedAccount;
pub use account::KeyedUiAccount;
pub use account::Market;
pub use account::UiAccount;
pub use amm::quote_checked;
pub use amm::Amm;
pub use amm::AmmContext;
pub use amm::AmmUserSetup;
pub use amm::Quote;
pub use amm::QuoteParams;
pub use amm::SwapAndAccountMetas;
pub use amm::SwapMode;
pub use amm::SwapParams;
pub use candidate::candidate_of;
pub use candidate::widened;
pub use candidate::CandidateSwap;
pub use clock::Clock;
pub use clock::ClockRef;
pub use decimal::Decimal;
pub use error::AmmError;
pub use provider::try_get_account_data;
pub use provider::try_get_account_data_and_owner;
pub use provider::AccountMap;
pub use provider::PubkeyMap;
pub use provider::QuoteMintToReferrer;
pub use pubkey::parse_value;
pub use pubkey::Pubkey;
pub use swap::AccountMeta;
pub use swap::AccountsType;
pub use swap::HyloToken;
pub use swap::RemainingAccountsInfo;
pub use swap::RemainingAccountsSlice;
pub use swap::Side;
pub use swap::Swap;
