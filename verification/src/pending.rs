//! The pending-verification table: for each joined-but-unverified user, the
//! challenge token that was issued to them.

use crate::token::{fresh_token, is_token};
use std::collections::HashMap;
use vstd::prelude::*;

verus! {

broadcast use vstd::std_specs::hash::group_hash_axioms;

/// Maps a user identifier to the token that user must echo back. An entry is
/// created (or overwritten) when the user joins and consumed when the user
/// verifies.
pub struct PendingTable {
    entries: HashMap<u64, Vec<u8>>,
}

impl View for PendingTable {
    type V = Map<u64, Seq<u8>>;

    closed spec fn view(&self) -> Map<u64, Seq<u8>> {
        Map::new(
            |u: u64| self.entries@.contains_key(u),
            |u: u64| self.entries@[u]@,
        )
    }
}

impl PendingTable {
    /// A table with no pending entries.
    pub fn new() -> (t: Self)
        ensures
            t@ == Map::<u64, Seq<u8>>::empty(),
    {
        let t = PendingTable { entries: HashMap::new() };
        proof {
            assert(t@ =~= Map::<u64, Seq<u8>>::empty());
        }
        t
    }

    /// Draws a fresh token for `user_id`, records it — overwriting any entry
    /// the user had — and returns it for the outbound challenge message.
    pub fn issue(&mut self, user_id: u64) -> (tok: Vec<u8>)
        ensures
            is_token(tok@),
            final(self)@ == old(self)@.insert(user_id, tok@),
    {
        let tok = fresh_token();
        let mut stored: Vec<u8> = Vec::new();
        let mut i: usize = 0;
        while i < tok.len()
            invariant
                i <= tok@.len(),
                stored@ == tok@.subrange(0, i as int),
            decreases tok@.len() - i,
        {
            stored.push(tok[i]);
            proof {
                assert(stored@ =~= tok@.subrange(0, i + 1));
            }
            i += 1;
        }
        proof {
            assert(stored@ =~= tok@);
        }
        self.entries.insert(user_id, stored);
        proof {
            assert(self@ =~= old(self)@.insert(user_id, tok@));
        }
        tok
    }

    /// The token issued to `user_id`, if the user is pending.
    pub fn lookup(&self, user_id: u64) -> (r: Option<&Vec<u8>>)
        ensures
            match r {
                Some(t) => self@.contains_key(user_id) && self@[user_id] == t@,
                None => !self@.contains_key(user_id),
            },
    {
        self.entries.get(&user_id)
    }

    /// Drops the entry for `user_id`, if any.
    pub fn consume(&mut self, user_id: u64)
        ensures
            final(self)@ == old(self)@.remove(user_id),
    {
        self.entries.remove(&user_id);
        proof {
            assert(self@ =~= old(self)@.remove(user_id));
        }
    }
}

} // verus!
