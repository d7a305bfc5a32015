//! Front door to the certificate/trust-chain collaborator: this core only
//! keeps the root key material and the cache policy; verification itself
//! is the collaborator's work.

use crate::ids::UserID;
use vstd::prelude::*;

verus! {

/// How long, in seconds, a verified user or device stays cached.
pub const DEFAULT_CACHE_VALIDITY: i64 = 3600;

/// Hands out verified remote user and device identities, caching what the
/// trust-chain oracle has already checked against the root key.
pub struct RemoteDevicesManager {
    root_verify_key: Vec<u8>,
    cache_validity: i64,
    invalidated: Vec<UserID>,
}

impl RemoteDevicesManager {
    pub closed spec fn root_key(&self) -> Seq<u8> {
        self.root_verify_key@
    }

    pub closed spec fn validity(&self) -> i64 {
        self.cache_validity
    }

    pub closed spec fn invalidated_users(&self) -> Seq<Seq<char>> {
        self.invalidated@.map_values(|u: UserID| u@)
    }

    /// Sets up the manager over the organization's root verification key.
    pub fn new(root_verify_key: Vec<u8>) -> (r: RemoteDevicesManager)
        ensures
            r.root_key() == root_verify_key@,
            r.validity() == DEFAULT_CACHE_VALIDITY,
            r.invalidated_users() =~= Seq::<Seq<char>>::empty(),
    {
        RemoteDevicesManager {
            root_verify_key,
            cache_validity: DEFAULT_CACHE_VALIDITY,
            invalidated: Vec::new(),
        }
    }

    /// How long a cached verification stays valid, in seconds.
    pub fn cache_validity(&self) -> (r: i64)
        ensures
            r == self.validity(),
    {
        self.cache_validity
    }

    /// Records that a user's cached verification must not be reused.
    pub fn invalidate_user_cache(&mut self, user_id: &UserID)
        ensures
            final(self).invalidated_users() == old(self).invalidated_users().push(user_id@),
            final(self).root_key() == old(self).root_key(),
            final(self).validity() == old(self).validity(),
    {
        self.invalidated.push(user_id.duplicate());
        proof {
            assert(self.invalidated@.map_values(|u: UserID| u@) =~= old(
                self,
            ).invalidated@.map_values(|u: UserID| u@).push(user_id@));
        }
    }
}

} // verus!
