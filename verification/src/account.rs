//! Accounts, keyed accounts and their transport encoding.
//!
//! A `KeyedAccount` is the sole input to venue construction. `Market` is its
//! reduced configuration projection, and `KeyedUiAccount` its
//! transport-encoded form with the account bytes rendered in base64 and the
//! keys in base58.

use vstd::prelude::*;

use crate::error::AmmError;
use crate::pubkey::base58_decode;
use crate::pubkey::base58_decode_of;
use crate::pubkey::base58_encode;
use crate::pubkey::base58_of;
use crate::pubkey::Pubkey;

verus! {

/// The loosely-typed per-venue configuration payload is an opaque structured
/// JSON value; each venue parses it into its own configuration internally.
#[verifier::external_type_specification]
#[verifier::external_body]
pub struct ExValue(serde_json::Value);

/// Relies on `serde_json::Value::clone`: cloning yields an equal JSON value.
pub assume_specification[ <serde_json::Value as Clone>::clone ](
    v: &serde_json::Value,
) -> (r: serde_json::Value)
    ensures
        r == *v,
;

/// An account as fetched: an immutable snapshot, never mutated in place.
#[derive(Clone, Debug, PartialEq, Eq)]
pub struct Account {
    pub lamports: u64,
    pub data: Vec<u8>,
    pub owner: Pubkey,
    pub executable: bool,
    pub rent_epoch: u64,
}

/// The mathematical view of an account: plain values and byte sequences.
#[verifier::ext_equal]
pub struct AccountView {
    pub lamports: u64,
    pub data: Seq<u8>,
    pub owner: Seq<u8>,
    pub executable: bool,
    pub rent_epoch: u64,
}

impl View for Account {
    type V = AccountView;

    open spec fn view(&self) -> AccountView {
        AccountView {
            lamports: self.lamports,
            data: self.data@,
            owner: self.owner@,
            executable: self.executable,
            rent_epoch: self.rent_epoch,
        }
    }
}

/// An account paired with its address and optional venue-specific
/// configuration. The sole input to venue construction.
#[derive(Clone, Debug, PartialEq)]
pub struct KeyedAccount {
    pub key: Pubkey,
    pub account: Account,
    pub params: Option<serde_json::Value>,
}

/// The view of a keyed account.
#[verifier::ext_equal]
pub struct KeyedAccountView {
    pub key: Seq<u8>,
    pub account: AccountView,
    pub params: Option<serde_json::Value>,
}

impl View for KeyedAccount {
    type V = KeyedAccountView;

    open spec fn view(&self) -> KeyedAccountView {
        KeyedAccountView { key: self.key@, account: self.account@, params: self.params }
    }
}

/// A reduced, serialization-friendly projection of a keyed account used for
/// configuration and discovery: no raw bytes, only the address, the owning
/// program and the params.
#[derive(Clone, Debug, PartialEq)]
pub struct Market {
    pub pubkey: Pubkey,
    pub owner: Pubkey,
    /// Additional data a venue requires, venue dependent and decoded in the
    /// venue implementation.
    pub params: Option<serde_json::Value>,
}

impl From<KeyedAccount> for Market {
    /// Keeps the address, the owner and the params; drops only the raw
    /// account bytes.
    fn from(keyed_account: KeyedAccount) -> (r: Market)
        ensures
            r.pubkey == keyed_account.key,
            r.owner == keyed_account.account.owner,
            r.params == keyed_account.params,
    {
        let KeyedAccount { key, account, params } = keyed_account;
        Market { pubkey: key, owner: account.owner, params }
    }
}

impl vstd::std_specs::convert::FromSpecImpl<KeyedAccount> for Market {
    open spec fn obeys_from_spec() -> bool {
        true
    }

    open spec fn from_spec(keyed_account: KeyedAccount) -> Market {
        Market {
            pubkey: keyed_account.key,
            owner: keyed_account.account.owner,
            params: keyed_account.params,
        }
    }
}

/// The transport form of an account: the data in base64, the owner in its
/// base58 string form, the numeric and flag fields as they are.
#[derive(Clone, Debug, PartialEq)]
pub struct UiAccount {
    pub lamports: u64,
    pub data: String,
    pub owner: String,
    pub executable: bool,
    pub rent_epoch: u64,
    pub space: Option<u64>,
}

/// The view of a transport-encoded account.
#[verifier::ext_equal]
pub struct UiAccountView {
    pub lamports: u64,
    pub data: Seq<char>,
    pub owner: Seq<char>,
    pub executable: bool,
    pub rent_epoch: u64,
    pub space: Option<u64>,
}

impl View for UiAccount {
    type V = UiAccountView;

    open spec fn view(&self) -> UiAccountView {
        UiAccountView {
            lamports: self.lamports,
            data: self.data@,
            owner: self.owner@,
            executable: self.executable,
            rent_epoch: self.rent_epoch,
            space: self.space,
        }
    }
}

/// The transport form of a keyed account, for JSON interchange with external
/// tooling.
#[derive(Clone, Debug, PartialEq)]
pub struct KeyedUiAccount {
    pub pubkey: String,
    pub ui_account: UiAccount,
    /// Additional data a venue requires, venue dependent and decoded in the
    /// venue implementation.
    pub params: Option<serde_json::Value>,
}

/// The view of a transport-encoded keyed account.
#[verifier::ext_equal]
pub struct KeyedUiAccountView {
    pub pubkey: Seq<char>,
    pub ui_account: UiAccountView,
    pub params: Option<serde_json::Value>,
}

impl View for KeyedUiAccount {
    type V = KeyedUiAccountView;

    open spec fn view(&self) -> KeyedUiAccountView {
        KeyedUiAccountView {
            pubkey: self.pubkey@,
            ui_account: self.ui_account@,
            params: self.params,
        }
    }
}

/// The base64 string form of a byte sequence.
pub uninterp spec fn base64_of(bytes: Seq<u8>) -> Seq<char>;

/// The byte sequence a base64 string denotes, or nothing when the string is
/// not valid base64.
pub uninterp spec fn base64_decode_of(s: Seq<char>) -> Option<Seq<u8>>;

/// How an account is rendered for transport: data in base64, owner in
/// base58, the space set to the data length.
pub open spec fn encoded_account(a: AccountView) -> UiAccountView {
    UiAccountView {
        lamports: a.lamports,
        data: base64_of(a.data),
        owner: base58_of(a.owner),
        executable: a.executable,
        rent_epoch: a.rent_epoch,
        space: Some(a.data.len() as u64),
    }
}

/// How a transport-encoded account is read back: both the data and the owner
/// must decode; the space hint is not consulted.
pub open spec fn decoded_account(u: UiAccountView) -> Option<AccountView> {
    match (base64_decode_of(u.data), base58_decode_of(u.owner)) {
        (Some(data), Some(owner)) => Some(
            AccountView {
                lamports: u.lamports,
                data,
                owner,
                executable: u.executable,
                rent_epoch: u.rent_epoch,
            },
        ),
        _ => None,
    }
}

/// How a keyed account is rendered for transport.
pub open spec fn encoded_keyed_account(ka: KeyedAccountView) -> KeyedUiAccountView {
    KeyedUiAccountView {
        pubkey: base58_of(ka.key),
        ui_account: encoded_account(ka.account),
        params: ka.params,
    }
}

/// How a transport-encoded keyed account is read back: the address and the
/// account must both decode.
pub open spec fn decoded_keyed_account(k: KeyedUiAccountView) -> Option<KeyedAccountView> {
    match (base58_decode_of(k.pubkey), decoded_account(k.ui_account)) {
        (Some(key), Some(account)) => Some(
            KeyedAccountView { key, account, params: k.params },
        ),
        _ => None,
    }
}

/// Relies on `solana_account_decoder::encode_ui_account` with base64
/// encoding and no data slicing: the data is the base64 form of the account
/// bytes, the owner the canonical base58 string of the owner key, the space
/// the data length, and the remaining fields are copied; both encodings
/// decode back to what was encoded.
#[verifier::external_body]
fn encode_ui_account(key: &Pubkey, account: &Account) -> (r: UiAccount)
    ensures
        r.lamports == account.lamports,
        r.data@ == base64_of(account.data@),
        base64_decode_of(r.data@) == Some(account.data@),
        r.owner@ == base58_of(account.owner@),
        base58_decode_of(r.owner@) == Some(account.owner@),
        r.executable == account.executable,
        r.rent_epoch == account.rent_epoch,
        r.space == Some(account.data@.len() as u64),
{
    let owner = solana_sdk::pubkey::Pubkey::new_from_array(account.owner.bytes);
    let sdk_account = solana_sdk::account::Account { lamports: account.lamports, data: account.data.clone(), owner, executable: account.executable, rent_epoch: account.rent_epoch };
    let pk = solana_sdk::pubkey::Pubkey::new_from_array(key.bytes);
    let ui = solana_account_decoder::encode_ui_account(&pk, &sdk_account, solana_account_decoder::UiAccountEncoding::Base64, None, None);
    // with base64 encoding the data is always rendered as a binary blob
    let data = match ui.data { solana_account_decoder::UiAccountData::Binary(blob, _) => blob, _ => String::new() };
    UiAccount { lamports: ui.lamports, data, owner: ui.owner, executable: ui.executable, rent_epoch: ui.rent_epoch, space: ui.space }
}

/// Relies on `solana_account_decoder::UiAccount::decode`: it base64-decodes
/// the data and base58-parses the owner, and yields the account exactly when
/// both succeed.
#[verifier::external_body]
fn decode_ui_account(ui: &UiAccount) -> (r: Option<Account>)
    ensures
        match (base64_decode_of(ui.data@), base58_decode_of(ui.owner@)) {
            (Some(data), Some(owner)) => {
                &&& r matches Some(a)
                &&& a.lamports == ui.lamports
                &&& a.data@ == data
                &&& a.owner@ == owner
                &&& a.executable == ui.executable
                &&& a.rent_epoch == ui.rent_epoch
            },
            _ => r is None,
        },
{
    let data = solana_account_decoder::UiAccountData::Binary(ui.data.clone(), solana_account_decoder::UiAccountEncoding::Base64);
    let sdk_ui = solana_account_decoder::UiAccount { lamports: ui.lamports, data, owner: ui.owner.clone(), executable: ui.executable, rent_epoch: ui.rent_epoch, space: ui.space };
    let decoded: Option<solana_sdk::account::Account> = sdk_ui.decode();
    decoded.map(|a| Account { lamports: a.lamports, data: a.data, owner: Pubkey { bytes: a.owner.to_bytes() }, executable: a.executable, rent_epoch: a.rent_epoch })
}

impl KeyedUiAccount {
    /// Encodes a keyed account for transport. The encoding is lossless: the
    /// result reads back as exactly the input.
    pub fn from(keyed_account: KeyedAccount) -> (r: KeyedUiAccount)
        ensures
            r@ == encoded_keyed_account(keyed_account@),
            decoded_keyed_account(r@) == Some(keyed_account@),
    {
        let KeyedAccount { key, account, params } = keyed_account;
        let pubkey = base58_encode(&key);
        let ui_account = encode_ui_account(&key, &account);
        let r = KeyedUiAccount { pubkey, ui_account, params };
        proof {
            assert(r@ =~= encoded_keyed_account(keyed_account@));
            assert(decoded_account(r.ui_account@) matches Some(a) && a =~= account@);
            assert(decoded_keyed_account(r@) matches Some(k) && k =~= keyed_account@);
        }
        r
    }
}

impl KeyedAccount {
    /// Reads a keyed account back from its transport form. Fails on a
    /// malformed data blob or a malformed address, and otherwise returns
    /// exactly the account the transport form denotes.
    pub fn try_from(keyed_ui_account: KeyedUiAccount) -> (r: Result<KeyedAccount, AmmError>)
        ensures
            match decoded_keyed_account(keyed_ui_account@) {
                Some(kav) => r matches Ok(ka) && ka@ == kav,
                None => r is Err,
            },
            decoded_account(keyed_ui_account.ui_account@) is None ==> r == Err::<
                KeyedAccount,
                AmmError,
            >(AmmError::TransportDecode),
            decoded_account(keyed_ui_account.ui_account@) is Some && base58_decode_of(
                keyed_ui_account.pubkey@,
            ) is None ==> (r matches Err(e) && (e matches AmmError::ParseFailure { input }
                && input@ == keyed_ui_account.pubkey@)),
    {
        let KeyedUiAccount { pubkey, ui_account, params } = keyed_ui_account;
        let account = match decode_ui_account(&ui_account) {
            Some(account) => account,
            None => {
                return Err(AmmError::TransportDecode);
            },
        };
        let key = match base58_decode(pubkey.as_str()) {
            Some(key) => key,
            None => {
                return Err(AmmError::ParseFailure { input: pubkey });
            },
        };
        let r = KeyedAccount { key, account, params };
        proof {
            assert(decoded_keyed_account(keyed_ui_account@) matches Some(kav) && kav =~= r@);
        }
        Ok(r)
    }
}

} // verus!
