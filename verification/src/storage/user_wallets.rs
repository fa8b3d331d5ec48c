use vstd::prelude::*;
use vstd::string::*;

use crate::origin::spec_decode;
use crate::origin::spec_encode;
use crate::origin::spec_valid_origin;
use crate::origin::Origin;
use crate::storage::storage::admins_of;
use crate::storage::storage::faucets_of;
use crate::storage::storage::wallets_of;
use crate::storage::storage::Storage;
use crate::storage::storage::StorageError;

verus! {

/// A faithful listing of a wallet map: every listed pair is in the map,
/// every key of the map is listed, and no key is listed twice.  The order
/// of the listing is the backend's native iteration order, which is
/// implementation defined.
pub open spec fn is_wallet_listing(
    es: Seq<(Seq<char>, Seq<char>)>,
    m: Map<Seq<char>, Seq<char>>,
) -> bool {
    &&& forall|i: int|
        0 <= i < es.len() ==> m.contains_key(#[trigger] es[i].0) && es[i].1 == m[es[i].0]
    &&& forall|k: Seq<char>|
        #[trigger] m.contains_key(k) ==> exists|i: int| 0 <= i < es.len() && #[trigger] es[i].0
            == k
    &&& forall|i: int, j: int| 0 <= i < j < es.len() ==> es[i].0 != es[j].0
}

/// The keys of a listing whose value is `addr`, in listing order.
pub open spec fn matching_keys(es: Seq<(Seq<char>, Seq<char>)>, addr: Seq<char>) -> Seq<Seq<char>>
    decreases es.len(),
{
    if es.len() == 0 {
        Seq::empty()
    } else {
        matching_keys(es.drop_last(), addr) + (if es.last().1 == addr {
            seq![es.last().0]
        } else {
            Seq::empty()
        })
    }
}

/// The canonical encodings of a sequence of origins.
pub open spec fn origins_encode(os: Seq<Origin>) -> Seq<Seq<char>> {
    os.map_values(|o: Origin| spec_encode(o@))
}

impl Storage {
    /// Set a user wallet value.
    ///
    /// Overwrites existing values (last write wins).
    pub fn set_user_wallet(&mut self, origin: Origin, pub_addr: String) -> (r: Result<
        (),
        StorageError,
    >)
        ensures
            admins_of(*final(self)) == admins_of(*old(self)),
            faucets_of(*final(self)) == faucets_of(*old(self)),
            r matches Ok(_) ==> wallets_of(*final(self)) == wallets_of(*old(self)).insert(
                spec_encode(origin@),
                pub_addr@,
            ),
            r matches Err(e) ==> e is Kv,
    {
        let key = origin.encode();
        match self.wallet_put(&key, &pub_addr) {
            Ok(_) => Ok(()),
            Err(m) => Err(StorageError::Kv(m)),
        }
    }

    /// Get the public address stored for a user origin.
    pub fn get_user_wallet(&self, origin: Origin) -> (r: Result<String, StorageError>)
        ensures
            r matches Ok(a) ==> wallets_of(*self).contains_key(spec_encode(origin@)) && a@
                == wallets_of(*self)[spec_encode(origin@)],
            r matches Err(e) ==> e is NotFound || e is Kv,
            r matches Err(e) ==> ((e is NotFound) ==> !wallets_of(*self).contains_key(
                spec_encode(origin@),
            )),
    {
        let key = origin.encode();
        match self.wallet_get(&key) {
            Err(m) => Err(StorageError::Kv(m)),
            Ok(None) => Err(StorageError::NotFound),
            Ok(Some(a)) => Ok(a),
        }
    }

    /// Get all origins using the same public address, by a full scan of
    /// the wallet bucket.  The result order follows the backend's native
    /// iteration order.  Fails with `InvalidOrigin` when a matching stored
    /// key does not decode back into an origin.
    pub fn get_pub_address_origins(&self, pub_addr: String) -> (r: Result<
        Vec<Origin>,
        StorageError,
    >)
        ensures
            r matches Ok(os) ==> exists|es: Seq<(Seq<char>, Seq<char>)>|
                {
                    &&& #[trigger] is_wallet_listing(es, wallets_of(*self))
                    &&& origins_encode(os@) == matching_keys(es, pub_addr@)
                    &&& forall|i: int| 0 <= i < os@.len() ==> spec_valid_origin(#[trigger] os@[i]@)
                },
            r matches Err(e) ==> e is InvalidOrigin || e is Kv,
            r matches Err(e) ==> ((e is InvalidOrigin) ==> exists|
                es: Seq<(Seq<char>, Seq<char>)>,
            |
                {
                    &&& #[trigger] is_wallet_listing(es, wallets_of(*self))
                    &&& exists|i: int|
                        0 <= i < es.len() && (#[trigger] es[i].1) == pub_addr@ && spec_decode(
                            es[i].0,
                        ) is None
                }),
    {
        let entries = match self.wallet_entries() {
            Err(m) => {
                return Err(StorageError::Kv(m));
            },
            Ok(v) => v,
        };
        let ghost es = entries@.map_values(|p: (String, String)| (p.0@, p.1@));
        proof {
            assert(is_wallet_listing(es, wallets_of(*self))) by {
                assert forall|k: Seq<char>| #[trigger]
                    wallets_of(*self).contains_key(k) implies exists|i: int|
                    0 <= i < es.len() && #[trigger] es[i].0 == k by {
                    let i = choose|i: int|
                        0 <= i < entries@.len() && #[trigger] entries@[i].0@ == k;
                    assert(es[i].0 == k);
                }
            }
        }
        let mut origins: Vec<Origin> = Vec::new();
        let mut i: usize = 0;
        while i < entries.len()
            invariant
                i <= entries@.len(),
                es == entries@.map_values(|p: (String, String)| (p.0@, p.1@)),
                is_wallet_listing(es, wallets_of(*self)),
                origins_encode(origins@) == matching_keys(es.take(i as int), pub_addr@),
                forall|j: int| 0 <= j < origins@.len() ==> spec_valid_origin(
                    #[trigger] origins@[j]@,
                ),
            decreases entries@.len() - i,
        {
            let pair = &entries[i];
            if pair.1 == pub_addr {
                match Origin::decode(pair.0.as_str()) {
                    Ok(o) => {
                        proof {
                            let pre = es.take(i as int);
                            let cur = es.take(i as int + 1);
                            assert(cur.drop_last() =~= pre);
                            assert(cur.last() == es[i as int]);
                            assert(origins_encode(origins@.push(o)) =~= origins_encode(
                                origins@,
                            ).push(spec_encode(o@)));
                            assert(matching_keys(cur, pub_addr@) =~= matching_keys(
                                pre,
                                pub_addr@,
                            ).push(es[i as int].0));
                        }
                        origins.push(o);
                    },
                    Err(_) => {
                        proof {
                            assert(es[i as int].1 == pub_addr@);
                        }
                        return Err(StorageError::InvalidOrigin);
                    },
                }
            } else {
                proof {
                    let pre = es.take(i as int);
                    let cur = es.take(i as int + 1);
                    assert(cur.drop_last() =~= pre);
                    assert(cur.last() == es[i as int]);
                    assert(matching_keys(cur, pub_addr@) =~= matching_keys(pre, pub_addr@));
                }
            }
            i += 1;
        }
        proof {
            assert(es.take(es.len() as int) =~= es);
        }
        Ok(origins)
    }
}

} // verus!
