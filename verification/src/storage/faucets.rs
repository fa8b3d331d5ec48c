use vstd::prelude::*;
use vstd::string::*;

use crate::origin::spec_encode;
use crate::origin::Origin;
use crate::origin::OriginView;
use crate::storage::record::lemma_frame_round_trip;
use crate::storage::record::lemma_pow10_pos;
use crate::storage::record::pow10;
use crate::storage::record::spec_frame;
use crate::storage::record::spec_unframe;
use crate::storage::record::FaucetData;
use crate::storage::storage::admins_of;
use crate::storage::storage::faucets_of;
use crate::storage::storage::wallets_of;
use crate::storage::storage::Storage;
use crate::storage::storage::StorageError;

verus! {

impl Storage {
    /// Register a channel as a faucet: store a record with empty rpc url
    /// and wallet seed.  Fails with `NotUnique` when the channel is
    /// already registered (or activated); an already registered channel is
    /// never overwritten.
    pub fn register_faucet_channel(&mut self, channel: &Origin) -> (r: Result<(), StorageError>)
        ensures
            wallets_of(*final(self)) == wallets_of(*old(self)),
            admins_of(*final(self)) == admins_of(*old(self)),
            r matches Ok(_) ==> !faucets_of(*old(self)).contains_key(spec_encode(channel@))
                && faucets_of(*final(self)) == faucets_of(*old(self)).insert(
                spec_encode(channel@),
                spec_frame(Seq::empty(), Seq::empty()),
            ),
            r matches Err(e) ==> e is NotUnique || e is Kv,
            r matches Err(e) ==> ((e is NotUnique) ==> faucets_of(*old(self)).contains_key(
                spec_encode(channel@),
            )),
            faucets_of(*old(self)).contains_key(spec_encode(channel@)) ==> !(r is Ok)
                && faucets_of(*final(self)) == faucets_of(*old(self)),
    {
        let key = channel.encode();
        match self.faucet_get(&key) {
            Err(m) => Err(StorageError::Kv(m)),
            Ok(Some(_)) => Err(StorageError::NotUnique),
            Ok(None) => {
                let data = FaucetData::frame("", "");
                proof {
                    reveal_strlit("");
                    assert(""@ =~= Seq::<char>::empty());
                }
                match self.faucet_put(&key, &data) {
                    Ok(_) => Ok(()),
                    Err(m) => Err(StorageError::Kv(m)),
                }
            },
        }
    }

    /// Activate a previously registered faucet channel: overwrite its
    /// record with the given rpc url and wallet seed.  Fails with
    /// `NotRegistered` when the channel was never registered; nothing is
    /// stored for an unregistered channel.
    pub fn activate_faucet_channel(
        &mut self,
        channel: &Origin,
        rpc_url: &String,
        wallet_seed: &String,
    ) -> (r: Result<(), StorageError>)
        ensures
            wallets_of(*final(self)) == wallets_of(*old(self)),
            admins_of(*final(self)) == admins_of(*old(self)),
            r matches Ok(_) ==> faucets_of(*old(self)).contains_key(spec_encode(channel@))
                && faucets_of(*final(self)) == faucets_of(*old(self)).insert(
                spec_encode(channel@),
                spec_frame(rpc_url@, wallet_seed@),
            ),
            r matches Err(e) ==> e is NotRegistered || e is Kv,
            r matches Err(e) ==> ((e is NotRegistered) ==> !faucets_of(*old(self)).contains_key(
                spec_encode(channel@),
            )),
            !faucets_of(*old(self)).contains_key(spec_encode(channel@)) ==> !(r is Ok)
                && faucets_of(*final(self)) == faucets_of(*old(self)),
    {
        let key = channel.encode();
        match self.faucet_get(&key) {
            Err(m) => Err(StorageError::Kv(m)),
            Ok(None) => Err(StorageError::NotRegistered),
            Ok(Some(_)) => {
                let data = FaucetData::frame(rpc_url.as_str(), wallet_seed.as_str());
                match self.faucet_put(&key, &data) {
                    Ok(_) => Ok(()),
                    Err(m) => Err(StorageError::Kv(m)),
                }
            },
        }
    }

    /// Read a faucet channel's record back.  Fails with `NotFound` when
    /// the channel is not registered, and with `InvalidRecord` when the
    /// stored value is not a well-formed record frame.
    pub fn get_faucet_channel(&self, channel: &Origin) -> (r: Result<FaucetData, StorageError>)
        ensures
            r matches Ok(d) ==> faucets_of(*self).contains_key(spec_encode(channel@))
                && spec_unframe(faucets_of(*self)[spec_encode(channel@)]) == Some(
                (d.rpc_url@, d.wallet_seed@),
            ),
            r matches Err(e) ==> e is NotFound || e is InvalidRecord || e is Kv,
            r matches Err(e) ==> ((e is NotFound) ==> !faucets_of(*self).contains_key(
                spec_encode(channel@),
            )),
            r matches Err(e) ==> ((e is InvalidRecord) ==> faucets_of(*self).contains_key(
                spec_encode(channel@),
            ) && spec_unframe(faucets_of(*self)[spec_encode(channel@)]) is None),
    {
        let key = channel.encode();
        match self.faucet_get(&key) {
            Err(m) => Err(StorageError::Kv(m)),
            Ok(None) => Err(StorageError::NotFound),
            Ok(Some(raw)) => match FaucetData::unframe(raw.as_str()) {
                None => Err(StorageError::InvalidRecord),
                Some(d) => Ok(d),
            },
        }
    }
}

/// Law: faucet lifecycle.  After a registration (which
/// `register_faucet_channel` guarantees happens exactly when the channel
/// is unregistered) the channel is registered with an empty record, so a
/// second registration must fail; after a subsequent activation the
/// stored record reads back as exactly the given rpc url and wallet seed.
/// The length bounds hold of every string an execution can produce.
pub proof fn lemma_faucet_lifecycle(
    s0: Storage,
    s1: Storage,
    s2: Storage,
    ch: OriginView,
    url: Seq<char>,
    seed: Seq<char>,
)
    requires
        !faucets_of(s0).contains_key(spec_encode(ch)),
        faucets_of(s1) == faucets_of(s0).insert(
            spec_encode(ch),
            spec_frame(Seq::empty(), Seq::empty()),
        ),
        faucets_of(s2) == faucets_of(s1).insert(spec_encode(ch), spec_frame(url, seed)),
        url.len() < pow10(20),
        seed.len() < pow10(20),
    ensures
        faucets_of(s1).contains_key(spec_encode(ch)),
        spec_unframe(faucets_of(s1)[spec_encode(ch)]) == Some(
            (Seq::<char>::empty(), Seq::<char>::empty()),
        ),
        spec_unframe(faucets_of(s2)[spec_encode(ch)]) == Some((url, seed)),
{
    lemma_pow10_pos(20);
    lemma_frame_round_trip(Seq::empty(), Seq::empty());
    lemma_frame_round_trip(url, seed);
}

} // verus!
