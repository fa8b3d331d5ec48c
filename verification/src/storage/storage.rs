use vstd::prelude::*;
use vstd::string::*;

verus! {

/// Enum holding all possible storage errors.
#[derive(Debug)]
pub enum StorageError {
    /// The requested item was not found.
    NotFound,
    /// The item is not unique (already exists).
    NotUnique,
    /// The channel has not been registered yet.
    NotRegistered,
    /// An invalid origin was encountered as a stored key.
    InvalidOrigin,
    /// A stored record could not be read back.
    InvalidRecord,
    /// An error reported by the underlying database, as its display text.
    Kv(String),
}

/// The display text of a storage error.
pub open spec fn spec_message(e: StorageError) -> Seq<char> {
    match e {
        StorageError::NotFound => "Record not found"@,
        StorageError::NotUnique => "Record ID is not unique"@,
        StorageError::NotRegistered => "Channel is not registered"@,
        StorageError::InvalidOrigin => "Invalid origin"@,
        StorageError::InvalidRecord => "Invalid stored record"@,
        StorageError::Kv(m) => m@,
    }
}

impl StorageError {
    /// The display text of the error.
    pub fn message(&self) -> (r: String)
        ensures
            r@ == spec_message(*self),
    {
        match self {
            StorageError::NotFound => String::from_str("Record not found"),
            StorageError::NotUnique => String::from_str("Record ID is not unique"),
            StorageError::NotRegistered => String::from_str("Channel is not registered"),
            StorageError::InvalidOrigin => String::from_str("Invalid origin"),
            StorageError::InvalidRecord => String::from_str("Invalid stored record"),
            StorageError::Kv(m) => m.clone(),
        }
    }
}

/// Durable storage for the bot: three key/value buckets in one on-disk
/// store, holding user wallets, administrators and faucet channels, all
/// keyed by an origin's canonical encoding.
///
/// The struct is opaque to the verifier; its contents are modelled by the
/// three uninterpreted maps below, and every access goes through a trusted
/// wrapper whose contract describes what the underlying `kv` call does to
/// those maps.
#[verifier::external_body]
pub struct Storage {
    user_wallets: kv::Bucket<'static, String, String>,
    admins: kv::Bucket<'static, String, String>,
    faucets: kv::Bucket<'static, String, String>,
}

/// The wallet bucket's contents: encoded origin -> public address.
pub uninterp spec fn wallets_of(s: Storage) -> Map<Seq<char>, Seq<char>>;

/// The admin bucket's contents: the set of encoded origins that are
/// administrators (values are empty presence markers).
pub uninterp spec fn admins_of(s: Storage) -> Set<Seq<char>>;

/// The faucet bucket's contents: encoded channel origin -> framed record.
pub uninterp spec fn faucets_of(s: Storage) -> Map<Seq<char>, Seq<char>>;

impl Storage {
    /// Open the store at the given path together with its three buckets.
    /// Relies on kv::Store::new and kv::Store::bucket; the content maps
    /// hold whatever the store already holds on disk, so nothing is
    /// promised about them here.
    #[verifier::external_body]
    fn open_store(db: &str) -> (r: Result<Storage, String>) {
        let store = kv::Store::new(kv::Config::new(db)).map_err(|e| e.to_string())?;
        let user_wallets = store.bucket::<String, String>(Some("user_wallets")).map_err(
            |e| e.to_string(),
        )?;
        let admins = store.bucket::<String, String>(Some("admins")).map_err(|e| e.to_string())?;
        let faucets = store.bucket::<String, String>(Some("faucets")).map_err(|e| e.to_string())?;
        Ok(Storage { user_wallets, admins, faucets })
    }

    /// Instantiate a new storage backed by the store at `db`.
    pub fn new(db: &str) -> (r: Result<Storage, StorageError>)
        ensures
            r matches Err(e) ==> e is Kv,
    {
        match Storage::open_store(db) {
            Ok(s) => Ok(s),
            Err(m) => Err(StorageError::Kv(m)),
        }
    }

    /// Relies on kv::Bucket::set on the wallet bucket: on success the value
    /// now stored under `key` is `value`; the other buckets are untouched
    /// either way (they are distinct trees of the store).
    #[verifier::external_body]
    pub(crate) fn wallet_put(&mut self, key: &String, value: &String) -> (r: Result<(), String>)
        ensures
            admins_of(*final(self)) == admins_of(*old(self)),
            faucets_of(*final(self)) == faucets_of(*old(self)),
            r matches Ok(_) ==> wallets_of(*final(self)) == wallets_of(*old(self)).insert(
                key@,
                value@,
            ),
    {
        self.user_wallets.set(key, value).map(|_| ()).map_err(|e| e.to_string())
    }

    /// Relies on kv::Bucket::get on the wallet bucket: returns the value
    /// stored under `key`, if any.
    #[verifier::external_body]
    pub(crate) fn wallet_get(&self, key: &String) -> (r: Result<Option<String>, String>)
        ensures
            r matches Ok(Some(v)) ==> wallets_of(*self).contains_key(key@) && v@ == wallets_of(
                *self,
            )[key@],
            r matches Ok(None) ==> !wallets_of(*self).contains_key(key@),
    {
        self.user_wallets.get(key).map_err(|e| e.to_string())
    }

    /// Relies on kv::Bucket::iter on the wallet bucket: one item per stored
    /// pair, each key once, in the backend's native (implementation
    /// defined) iteration order.
    #[verifier::external_body]
    pub(crate) fn wallet_entries(&self) -> (r: Result<Vec<(String, String)>, String>)
        ensures
            r matches Ok(v) ==> {
                &&& forall|i: int|
                    0 <= i < v@.len() ==> wallets_of(*self).contains_key(#[trigger] v@[i].0@)
                        && v@[i].1@ == wallets_of(*self)[v@[i].0@]
                &&& forall|k: Seq<char>|
                    #[trigger] wallets_of(*self).contains_key(k) ==> exists|i: int|
                        0 <= i < v@.len() && #[trigger] v@[i].0@ == k
                &&& forall|i: int, j: int| 0 <= i < j < v@.len() ==> v@[i].0@ != v@[j].0@
            },
    {
        let mut out = Vec::new();
        for item in self.user_wallets.iter() {
            let item = item.map_err(|e| e.to_string())?;
            let key: String = item.key().map_err(|e| e.to_string())?;
            let value: String = item.value().map_err(|e| e.to_string())?;
            out.push((key, value));
        }
        Ok(out)
    }

    /// Relies on kv::Bucket::set on the admin bucket: on success `key` is
    /// now a member (the stored value is an empty presence marker).
    #[verifier::external_body]
    pub(crate) fn admin_put(&mut self, key: &String) -> (r: Result<(), String>)
        ensures
            wallets_of(*final(self)) == wallets_of(*old(self)),
            faucets_of(*final(self)) == faucets_of(*old(self)),
            r matches Ok(_) ==> admins_of(*final(self)) == admins_of(*old(self)).insert(key@),
    {
        self.admins.set(key, &String::new()).map(|_| ()).map_err(|e| e.to_string())
    }

    /// Relies on kv::Bucket::remove on the admin bucket: on success `key`
    /// is no longer a member.
    #[verifier::external_body]
    pub(crate) fn admin_remove(&mut self, key: &String) -> (r: Result<(), String>)
        ensures
            wallets_of(*final(self)) == wallets_of(*old(self)),
            faucets_of(*final(self)) == faucets_of(*old(self)),
            r matches Ok(_) ==> admins_of(*final(self)) == admins_of(*old(self)).remove(key@),
    {
        self.admins.remove(key).map(|_| ()).map_err(|e| e.to_string())
    }

    /// Relies on kv::Bucket::contains on the admin bucket.
    #[verifier::external_body]
    pub(crate) fn admin_contains(&self, key: &String) -> (r: Result<bool, String>)
        ensures
            r matches Ok(b) ==> b == admins_of(*self).contains(key@),
    {
        self.admins.contains(key).map_err(|e| e.to_string())
    }

    /// Relies on kv::Bucket::iter on the admin bucket: one key per member.
    #[verifier::external_body]
    pub(crate) fn admin_key_list(&self) -> (r: Result<Vec<String>, String>)
        ensures
            r matches Ok(v) ==> {
                &&& forall|i: int|
                    0 <= i < v@.len() ==> admins_of(*self).contains(#[trigger] v@[i]@)
                &&& forall|k: Seq<char>|
                    #[trigger] admins_of(*self).contains(k) ==> exists|i: int|
                        0 <= i < v@.len() && #[trigger] v@[i]@ == k
            },
    {
        let mut out = Vec::new();
        for item in self.admins.iter() {
            let item = item.map_err(|e| e.to_string())?;
            let key: String = item.key().map_err(|e| e.to_string())?;
            out.push(key);
        }
        Ok(out)
    }

    /// Relies on kv::Bucket::get on the faucet bucket: returns the framed
    /// record stored under `key`, if any.
    #[verifier::external_body]
    pub(crate) fn faucet_get(&self, key: &String) -> (r: Result<Option<String>, String>)
        ensures
            r matches Ok(Some(v)) ==> faucets_of(*self).contains_key(key@) && v@ == faucets_of(
                *self,
            )[key@],
            r matches Ok(None) ==> !faucets_of(*self).contains_key(key@),
    {
        self.faucets.get(key).map_err(|e| e.to_string())
    }

    /// Relies on kv::Bucket::set on the faucet bucket: on success the
    /// framed record now stored under `key` is `value`.
    #[verifier::external_body]
    pub(crate) fn faucet_put(&mut self, key: &String, value: &String) -> (r: Result<(), String>)
        ensures
            wallets_of(*final(self)) == wallets_of(*old(self)),
            admins_of(*final(self)) == admins_of(*old(self)),
            r matches Ok(_) ==> faucets_of(*final(self)) == faucets_of(*old(self)).insert(
                key@,
                value@,
            ),
    {
        self.faucets.set(key, value).map(|_| ()).map_err(|e| e.to_string())
    }
}

} // verus!
