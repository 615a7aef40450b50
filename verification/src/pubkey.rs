//! The fixed-size public key used as the universal handle for accounts,
//! programs and mints. Equality is byte equality; the canonical string form
//! is the base58 encoding of the 32 key bytes.

use vstd::prelude::*;

use crate::error::AmmError;

verus! {

/// A 32-byte account address. Its mathematical view is the sequence of its
/// bytes.
#[derive(Clone, Copy, Debug, Eq, Hash)]
pub struct Pubkey {
    pub bytes: [u8; 32],
}

impl View for Pubkey {
    type V = Seq<u8>;

    open spec fn view(&self) -> Seq<u8> {
        self.bytes@
    }
}

impl PartialEq for Pubkey {
    fn eq(&self, other: &Pubkey) -> (r: bool) {
        let mut i: usize = 0;
        while i < 32
            invariant
                i <= 32,
                forall|j: int| 0 <= j < i ==> self.bytes@[j] == other.bytes@[j],
            decreases 32 - i,
        {
            if self.bytes[i] != other.bytes[i] {
                return false;
            }
            i = i + 1;
        }
        proof {
            assert(self.bytes@ =~= other.bytes@);
        }
        true
    }
}

impl vstd::std_specs::cmp::PartialEqSpecImpl for Pubkey {
    open spec fn obeys_eq_spec() -> bool {
        true
    }

    open spec fn eq_spec(&self, other: &Pubkey) -> bool {
        self.bytes@ == other.bytes@
    }
}

/// The canonical base58 string of 32 key bytes, as rendered by the key's
/// string form.
pub uninterp spec fn base58_of(bytes: Seq<u8>) -> Seq<char>;

/// The 32 key bytes a base58 string denotes, or nothing when the string is
/// not the canonical form of any key.
pub uninterp spec fn base58_decode_of(s: Seq<char>) -> Option<Seq<u8>>;

/// Relies on the `Display` form of `solana_sdk::pubkey::Pubkey`: the
/// canonical base58 string of the 32 key bytes, which parsing inverts.
#[verifier::external_body]
pub(crate) fn base58_encode(key: &Pubkey) -> (r: String)
    ensures
        r@ == base58_of(key@),
        base58_decode_of(r@) == Some(key@),
{
    solana_sdk::pubkey::Pubkey::new_from_array(key.bytes).to_string()
}

/// Relies on `solana_sdk::pubkey::Pubkey::from_str`: it yields a key exactly
/// when the string is the base58 form of 32 bytes.
#[verifier::external_body]
pub(crate) fn base58_decode(s: &str) -> (r: Option<Pubkey>)
    ensures
        match r {
            Some(key) => base58_decode_of(s@) == Some(key@),
            None => base58_decode_of(s@) is None,
        },
{
    match <solana_sdk::pubkey::Pubkey as core::str::FromStr>::from_str(s) {
        Ok(parsed) => Some(Pubkey { bytes: parsed.to_bytes() }),
        Err(_) => None,
    }
}

impl Pubkey {
    /// Wraps 32 raw bytes as a key.
    pub fn new(bytes: [u8; 32]) -> (r: Pubkey)
        ensures
            r@ == bytes@,
    {
        Pubkey { bytes }
    }

    /// Returns the raw bytes of the key.
    pub fn to_bytes(&self) -> (r: [u8; 32])
        ensures
            r@ == self@,
    {
        self.bytes
    }

    /// Renders the key in its canonical base58 string form.
    pub fn to_base58(&self) -> (r: String)
        ensures
            r@ == base58_of(self@),
            base58_decode_of(r@) == Some(self@),
    {
        base58_encode(self)
    }
}

impl Default for Pubkey {
    /// The all-zero key.
    fn default() -> (r: Pubkey)
        ensures
            r@ == Seq::new(32, |i: int| 0u8),
    {
        let r = Pubkey { bytes: [0u8; 32] };
        proof {
            assert(r@ =~= Seq::new(32, |i: int| 0u8));
        }
        r
    }
}

/// Parses the canonical base58 string form of a key.
pub fn parse_value(value: &str) -> (r: Result<Pubkey, AmmError>)
    ensures
        match r {
            Ok(key) => base58_decode_of(value@) == Some(key@),
            Err(e) => {
                &&& base58_decode_of(value@) is None
                &&& e matches AmmError::ParseFailure { input } && input@ == value@
            },
        },
{
    match base58_decode(value) {
        Some(key) => Ok(key),
        None => Err(AmmError::ParseFailure { input: value.to_owned() }),
    }
}

} // verus!
