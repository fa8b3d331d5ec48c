use vstd::prelude::*;

use crate::origin::spec_encode;
use crate::origin::Origin;
use crate::storage::storage::admins_of;
use crate::storage::storage::faucets_of;
use crate::storage::storage::wallets_of;
use crate::storage::storage::Storage;
use crate::storage::storage::StorageError;

verus! {

impl Storage {
    /// Set a user's admin status: insert the origin into the admin set, or
    /// remove it when `remove` holds.
    pub fn set_admin(&mut self, origin: Origin, remove: bool) -> (r: Result<(), StorageError>)
        ensures
            wallets_of(*final(self)) == wallets_of(*old(self)),
            faucets_of(*final(self)) == faucets_of(*old(self)),
            r matches Ok(_) ==> admins_of(*final(self)) == (if remove {
                admins_of(*old(self)).remove(spec_encode(origin@))
            } else {
                admins_of(*old(self)).insert(spec_encode(origin@))
            }),
            r matches Err(e) ==> e is Kv,
    {
        let key = origin.encode();
        let put = if !remove {
            self.admin_put(&key)
        } else {
            self.admin_remove(&key)
        };
        match put {
            Ok(_) => Ok(()),
            Err(m) => Err(StorageError::Kv(m)),
        }
    }

    /// Whether the origin is an administrator.
    ///
    /// Deliberately fail-closed: any read failure counts as "not an admin",
    /// so a `true` answer always means real membership, while membership
    /// does not guarantee a `true` answer when the backend fails.
    pub fn is_admin(&self, origin: Origin) -> (r: bool)
        ensures
            r ==> admins_of(*self).contains(spec_encode(origin@)),
    {
        let key = origin.encode();
        match self.admin_contains(&key) {
            Ok(b) => b,
            Err(_) => false,
        }
    }

    /// Whether any administrators are appointed.
    ///
    /// Fail-open on read failure (a failure counts as "already has
    /// admins"), so a `false` answer always means the admin set is empty.
    pub fn has_admins(&self) -> (r: bool)
        ensures
            !r ==> (forall|k: Seq<char>| !(#[trigger] admins_of(*self).contains(k))),
            (exists|k: Seq<char>| #[trigger] admins_of(*self).contains(k)) ==> r,
    {
        match self.admin_key_list() {
            Err(_) => true,
            Ok(keys) => {
                if keys.len() > 0 {
                    proof {
                        assert(admins_of(*self).contains(keys@[0]@));
                    }
                    true
                } else {
                    false
                }
            },
        }
    }
}

} // verus!
