//! The account-provider abstraction: a read-only, keyed lookup of accounts
//! by public key, with a convenience form that turns an absent key into a
//! not-found error carrying the key.

use vstd::prelude::*;

use crate::account::Account;
use crate::error::AmmError;
use crate::pubkey::Pubkey;

verus! {

/// A read-only association from public keys to values, viewed as a `Map`
/// from key bytes to values.
pub struct PubkeyMap<V> {
    entries: Vec<(Pubkey, V)>,
}

/// The value the earliest entry with the given key holds, if any.
spec fn entries_lookup<V>(entries: Seq<(Pubkey, V)>, key: Seq<u8>) -> Option<V>
    decreases entries.len(),
{
    if entries.len() == 0 {
        None
    } else if entries[0].0@ == key {
        Some(entries[0].1)
    } else {
        entries_lookup(entries.drop_first(), key)
    }
}

impl<V> View for PubkeyMap<V> {
    type V = Map<Seq<u8>, V>;

    closed spec fn view(&self) -> Map<Seq<u8>, V> {
        Map::new(
            |key: Seq<u8>| entries_lookup(self.entries@, key) is Some,
            |key: Seq<u8>| entries_lookup(self.entries@, key).unwrap(),
        )
    }
}

impl<V> PubkeyMap<V> {
    /// An empty provider.
    pub fn new() -> (r: PubkeyMap<V>)
        ensures
            r@ == Map::<Seq<u8>, V>::empty(),
    {
        let r = PubkeyMap::<V> { entries: Vec::new() };
        proof {
            assert(r@ =~= Map::<Seq<u8>, V>::empty());
        }
        r
    }

    /// Binds `key` to `value`, replacing any earlier binding.
    pub fn insert(&mut self, key: Pubkey, value: V)
        ensures
            final(self)@ == old(self)@.insert(key@, value),
    {
        self.entries.insert(0, (key, value));
        proof {
            assert(self.entries@.drop_first() =~= old(self).entries@);
            assert forall|k: Seq<u8>| true implies entries_lookup(self.entries@, k) == (if k
                == key@ {
                Some(value)
            } else {
                entries_lookup(old(self).entries@, k)
            }) by {
                assert(self.entries@[0] == (key, value));
            }
            assert(self@ =~= old(self)@.insert(key@, value));
        }
    }

    /// Looks the key up, returning the bound value or nothing when the key
    /// is absent from the backing store.
    pub fn get(&self, key: &Pubkey) -> (r: Option<&V>)
        ensures
            match r {
                Some(v) => self@.contains_key(key@) && self@[key@] == *v,
                None => !self@.contains_key(key@),
            },
    {
        let n = self.entries.len();
        let mut i: usize = 0;
        proof {
            assert(self.entries@.skip(0) =~= self.entries@);
        }
        while i < n
            invariant
                i <= n == self.entries@.len(),
                entries_lookup(self.entries@.skip(i as int), key@) == entries_lookup(
                    self.entries@,
                    key@,
                ),
            decreases n - i,
        {
            proof {
                assert(self.entries@.skip(i as int)[0] == self.entries@[i as int]);
                assert(self.entries@.skip(i as int).drop_first() =~= self.entries@.skip(
                    i + 1,
                ));
            }
            if self.entries[i].0 == *key {
                return Some(&self.entries[i].1);
            }
            i = i + 1;
        }
        proof {
            assert(self.entries@.skip(n as int) =~= Seq::<(Pubkey, V)>::empty());
        }
        None
    }

}

/// The account provider handed to a venue refresh: account bytes and owner
/// by public key.
pub type AccountMap = PubkeyMap<Account>;

/// An optional mint-to-referrer-account lookup carried by swap parameters.
pub type QuoteMintToReferrer = PubkeyMap<Pubkey>;

/// Looks the address up and returns its account data, or a not-found error
/// carrying the missing address.
pub fn try_get_account_data<'a>(account_map: &'a AccountMap, address: &Pubkey) -> (r: Result<
    &'a [u8],
    AmmError,
>)
    ensures
        match r {
            Ok(data) => account_map@.contains_key(address@) && data@ == account_map@[
                address@
            ].data@,
            Err(e) => !account_map@.contains_key(address@) && e == (AmmError::AccountNotFound {
                key: *address,
            }),
        },
{
    match account_map.get(address) {
        Some(account) => Ok(account.data.as_slice()),
        None => Err(AmmError::AccountNotFound { key: *address }),
    }
}

/// Looks the address up and returns its account data and owner, or a
/// not-found error carrying the missing address.
pub fn try_get_account_data_and_owner<'a>(account_map: &'a AccountMap, address: &Pubkey) -> (r:
    Result<(&'a [u8], &'a Pubkey), AmmError>)
    ensures
        match r {
            Ok(pair) => {
                &&& account_map@.contains_key(address@)
                &&& pair.0@ == account_map@[address@].data@
                &&& *pair.1 == account_map@[address@].owner
            },
            Err(e) => !account_map@.contains_key(address@) && e == (AmmError::AccountNotFound {
                key: *address,
            }),
        },
{
    match account_map.get(address) {
        Some(account) => Ok((account.data.as_slice(), &account.owner)),
        None => Err(AmmError::AccountNotFound { key: *address }),
    }
}

} // verus!
