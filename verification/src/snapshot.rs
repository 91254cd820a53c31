//! The caller-supplied snapshot: a mapping from on-chain address to the raw
//! bytes and native-asset balance of the account stored there.
//!
//! The core never fetches anything itself; an external layer builds one of
//! these and every refresh reads from it. Lookup is by the first matching
//! entry, mirrored exactly by [`spec_lookup`].

use vstd::prelude::*;
use crate::address::Address;

verus! {

/// One account's raw state: its native-asset balance and its data bytes.
#[derive(Clone, Debug)]
pub struct Account {
    pub lamports: u64,
    pub data: Vec<u8>,
}

/// An address-to-account mapping supplied by the external fetch layer.
#[derive(Clone, Debug)]
pub struct AccountSnapshot {
    pub entries: Vec<(Address, Account)>,
}

/// The account stored under `a` in `s` (first match wins), as plain values:
/// its balance and its data bytes.
pub open spec fn spec_lookup(s: Seq<(Address, Account)>, a: Address) -> Option<(u64, Seq<u8>)>
    decreases s.len(),
{
    if s.len() == 0 {
        None
    } else if s[0].0 == a {
        Some((s[0].1.lamports, s[0].1.data@))
    } else {
        spec_lookup(s.drop_first(), a)
    }
}

impl AccountSnapshot {
    /// What the snapshot holds under address `a`.
    pub open spec fn spec_get(&self, a: Address) -> Option<(u64, Seq<u8>)> {
        spec_lookup(self.entries@, a)
    }

    /// Builds an empty snapshot.
    pub fn new() -> (r: AccountSnapshot)
        ensures
            r.entries@.len() == 0,
    {
        AccountSnapshot { entries: Vec::new() }
    }

    /// Appends an entry; later lookups of other addresses are unaffected.
    pub fn push(&mut self, a: Address, acc: Account)
        ensures
            final(self).entries@ == old(self).entries@.push((a, acc)),
    {
        self.entries.push((a, acc));
    }

    /// Looks `a` up, returning the first matching account.
    pub fn get(&self, a: Address) -> (r: Option<&Account>)
        ensures
            match r {
                Some(acc) => self.spec_get(a) == Some((acc.lamports, acc.data@)),
                None => self.spec_get(a) is None,
            },
    {
        let n = self.entries.len();
        let mut i: usize = 0;
        proof {
            assert(self.entries@.skip(0) =~= self.entries@);
        }
        while i < n
            invariant
                i <= n,
                n == self.entries@.len(),
                spec_lookup(self.entries@.skip(i as int), a) == spec_lookup(self.entries@, a),
            decreases n - i,
        {
            if self.entries[i].0 == a {
                proof {
                    assert(self.entries@.skip(i as int)[0] == self.entries@[i as int]);
                }
                return Some(&self.entries[i].1);
            }
            proof {
                assert(self.entries@.skip(i as int)[0] == self.entries@[i as int]);
                assert(self.entries@.skip(i as int).drop_first() =~= self.entries@.skip(i as int + 1));
            }
            i = i + 1;
        }
        None
    }
}

} // verus!
