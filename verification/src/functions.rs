use vstd::prelude::*;
use vstd::string::*;

use crate::bot::Bot;
use crate::call::Response;
use crate::origin::spec_encode;
use crate::origin::spec_user_id;
use crate::origin::Origin;
use crate::storage::record::spec_frame;
use crate::storage::storage::admins_of;
use crate::storage::storage::faucets_of;
use crate::storage::storage::wallets_of;
use crate::storage::storage::Storage;
use crate::traits::DispatchError;
use crate::traits::DispatchResult;

verus! {

/// The version of the bot.
pub open spec fn version_text() -> Seq<char> {
    "0.1.0"@
}

/// The reply to an `Info` call.
pub open spec fn info_text() -> Seq<char> {
    "Eddie version 0.1.0\nCopyright (c) 2024, Arjan van Eersel\n\nMore information: https://github.com/arjanvaneersel/eddie-bot"@
}

/// The module name domain errors are attributed to.
pub open spec fn module_bot() -> Seq<char> {
    "BOT"@
}

/// The error text when `Init` is called on an initialized bot.
pub open spec fn already_init_text() -> Seq<char> {
    "Already initialized"@
}

/// The error text when a caller lacks admin rights.
pub open spec fn only_admin_text() -> Seq<char> {
    "Only an admin can perform this action"@
}

/// The private reply after registering a faucet channel: activation
/// instructions referencing the channel's id.
pub open spec fn register_reply_text(id: Seq<char>) -> Seq<char> {
    "The channel has been registered as a faucet.\n\nNow please activate the faucet by replying here with the following command:\n/activate_faucet "@
        + id + " <rpc url> <wallet seed>"@
}

/// The channel announcement after activating a faucet channel.
pub open spec fn activate_reply_text() -> Seq<char> {
    "Faucet has been activated for this channel!"@
}

/// The reply after granting admin rights.
pub open spec fn now_admin_text() -> Seq<char> {
    "The user is now an admin."@
}

/// The reply after revoking admin rights.
pub open spec fn no_longer_admin_text() -> Seq<char> {
    "The user is no longer an admin."@
}

/// `r` is a module error with the given module name and text.
pub open spec fn is_module_err<T>(r: DispatchResult<T>, modl: Seq<char>, text: Seq<char>) -> bool {
    r matches Err(DispatchError::Module(m, t)) && m@ == modl && t@ == text
}

/// No origin at all is an administrator.
pub open spec fn no_admins(s: Storage) -> bool {
    forall|k: Seq<char>| !(#[trigger] admins_of(s).contains(k))
}

/// The two storage values hold exactly the same three collections.
pub open spec fn storage_unchanged(pre: Storage, post: Storage) -> bool {
    &&& admins_of(post) == admins_of(pre)
    &&& wallets_of(post) == wallets_of(pre)
    &&& faucets_of(post) == faucets_of(pre)
}

impl Bot {
    /// The bot's bare version string (kept for older callers; prefer
    /// `info`).
    pub fn version() -> (r: DispatchResult<Option<Response>>)
        ensures
            r matches Ok(resp) && resp matches Some(Response::Reply(t)) && t@ == version_text(),
    {
        Ok(Some(Response::Reply(String::from_str("0.1.0"))))
    }

    /// The bot's version and copyright notice.
    pub fn info() -> (r: DispatchResult<Option<Response>>)
        ensures
            r matches Ok(resp) && resp matches Some(Response::Reply(t)) && t@ == info_text(),
    {
        Ok(Some(Response::Reply(String::from_str(
            "Eddie version 0.1.0\nCopyright (c) 2024, Arjan van Eersel\n\nMore information: https://github.com/arjanvaneersel/eddie-bot",
        ))))
    }

    /// Bootstrap the bot: the caller becomes the first administrator.
    /// Rejected once any administrator exists; rejection changes nothing.
    pub fn init(storage: &mut Storage, who: Origin) -> (r: DispatchResult<Option<Response>>)
        ensures
            !no_admins(*old(storage)) ==> is_module_err(r, module_bot(), already_init_text()),
            is_module_err(r, module_bot(), already_init_text()) ==> storage_unchanged(
                *old(storage),
                *final(storage),
            ),
            r matches Ok(resp) ==> resp is None && no_admins(*old(storage)) && admins_of(
                *final(storage),
            ) == admins_of(*old(storage)).insert(spec_encode(who@)) && wallets_of(*final(storage))
                == wallets_of(*old(storage)) && faucets_of(*final(storage)) == faucets_of(
                *old(storage),
            ),
            r matches Err(e) ==> (is_module_err(r, module_bot(), already_init_text()) || e
                is Other),
            r matches Err(e) ==> ((e is Other) ==> no_admins(*old(storage)) && wallets_of(
                *final(storage),
            ) == wallets_of(*old(storage)) && faucets_of(*final(storage)) == faucets_of(
                *old(storage),
            )),
    {
        // If there are already admins then the bot was already initialized.
        if storage.has_admins() {
            return Err(DispatchError::Module(
                String::from_str("BOT"),
                String::from_str("Already initialized"),
            ));
        }
        match storage.set_admin(who, false) {
            Ok(_) => Ok(None),
            Err(e) => Err(DispatchError::Other(e.message())),
        }
    }

    /// Grant or revoke admin status.  Only an administrator may do this;
    /// rejection changes nothing.
    pub fn set_admin(storage: &mut Storage, who: Origin, admin: &Origin, remove: bool) -> (r:
        DispatchResult<Option<Response>>)
        ensures
            !admins_of(*old(storage)).contains(spec_encode(who@)) ==> is_module_err(
                r,
                module_bot(),
                only_admin_text(),
            ),
            is_module_err(r, module_bot(), only_admin_text()) ==> storage_unchanged(
                *old(storage),
                *final(storage),
            ),
            r matches Ok(resp) ==> ({
                &&& admins_of(*old(storage)).contains(spec_encode(who@))
                &&& admins_of(*final(storage)) == (if remove {
                    admins_of(*old(storage)).remove(spec_encode(admin@))
                } else {
                    admins_of(*old(storage)).insert(spec_encode(admin@))
                })
                &&& wallets_of(*final(storage)) == wallets_of(*old(storage))
                &&& faucets_of(*final(storage)) == faucets_of(*old(storage))
                &&& resp matches Some(Response::Reply(t)) && t@ == (if remove {
                    no_longer_admin_text()
                } else {
                    now_admin_text()
                })
            }),
            r matches Err(e) ==> (is_module_err(r, module_bot(), only_admin_text()) || e
                is Other),
            r matches Err(e) ==> ((e is Other) ==> admins_of(*old(storage)).contains(
                spec_encode(who@),
            ) && wallets_of(*final(storage)) == wallets_of(*old(storage)) && faucets_of(
                *final(storage),
            ) == faucets_of(*old(storage))),
    {
        // Reject if the caller isn't an admin.
        if !storage.is_admin(who) {
            return Err(DispatchError::Module(
                String::from_str("BOT"),
                String::from_str("Only an admin can perform this action"),
            ));
        }
        match storage.set_admin(admin.clone(), remove) {
            Err(e) => Err(DispatchError::Other(e.message())),
            Ok(_) => {
                let reply = if !remove {
                    String::from_str("The user is now an admin.")
                } else {
                    String::from_str("The user is no longer an admin.")
                };
                Ok(Some(Response::Reply(reply)))
            },
        }
    }

    /// Register a channel as a faucet.  Only an administrator may do this;
    /// a channel can be registered once; rejection changes nothing.  On
    /// success the caller gets a private reply with activation
    /// instructions referencing the channel.
    pub fn register_faucet_channel(storage: &mut Storage, who: Origin, channel: &Origin) -> (r:
        DispatchResult<Option<Response>>)
        ensures
            !admins_of(*old(storage)).contains(spec_encode(who@)) ==> is_module_err(
                r,
                module_bot(),
                only_admin_text(),
            ),
            is_module_err(r, module_bot(), only_admin_text()) ==> storage_unchanged(
                *old(storage),
                *final(storage),
            ),
            r matches Ok(resp) ==> ({
                &&& admins_of(*old(storage)).contains(spec_encode(who@))
                &&& !faucets_of(*old(storage)).contains_key(spec_encode(channel@))
                &&& faucets_of(*final(storage)) == faucets_of(*old(storage)).insert(
                    spec_encode(channel@),
                    spec_frame(Seq::empty(), Seq::empty()),
                )
                &&& admins_of(*final(storage)) == admins_of(*old(storage))
                &&& wallets_of(*final(storage)) == wallets_of(*old(storage))
                &&& resp matches Some(Response::ReplyDirect(t)) && t@ == register_reply_text(
                    spec_user_id(channel@),
                )
            }),
            faucets_of(*old(storage)).contains_key(spec_encode(channel@)) ==> !(r is Ok)
                && faucets_of(*final(storage)) == faucets_of(*old(storage)),
            r matches Err(e) ==> (is_module_err(r, module_bot(), only_admin_text()) || e
                is Other),
            r matches Err(e) ==> ((e is Other) ==> admins_of(*old(storage)).contains(
                spec_encode(who@),
            ) && admins_of(*final(storage)) == admins_of(*old(storage)) && wallets_of(
                *final(storage),
            ) == wallets_of(*old(storage))),
    {
        // Reject if the caller isn't an admin.
        if !storage.is_admin(who) {
            return Err(DispatchError::Module(
                String::from_str("BOT"),
                String::from_str("Only an admin can perform this action"),
            ));
        }
        match storage.register_faucet_channel(channel) {
            Err(e) => Err(DispatchError::Other(e.message())),
            Ok(_) => {
                let mut reply = String::from_str(
                    "The channel has been registered as a faucet.\n\nNow please activate the faucet by replying here with the following command:\n/activate_faucet ",
                );
                let id = channel.inner();
                reply.append(id.as_str());
                reply.append(" <rpc url> <wallet seed>");
                proof {
                    assert(reply@ =~= register_reply_text(spec_user_id(channel@)));
                }
                Ok(Some(Response::ReplyDirect(reply)))
            },
        }
    }

    /// Activate a registered faucet channel with its funding parameters.
    /// Only an administrator may do this; the channel must have been
    /// registered; rejection changes nothing.  On success the channel
    /// itself is told the faucet is live.
    pub fn activate_faucet_channel(
        storage: &mut Storage,
        who: Origin,
        channel: &Origin,
        rpc_url: &String,
        wallet_seed: &String,
    ) -> (r: DispatchResult<Option<Response>>)
        ensures
            !admins_of(*old(storage)).contains(spec_encode(who@)) ==> is_module_err(
                r,
                module_bot(),
                only_admin_text(),
            ),
            is_module_err(r, module_bot(), only_admin_text()) ==> storage_unchanged(
                *old(storage),
                *final(storage),
            ),
            r matches Ok(resp) ==> ({
                &&& admins_of(*old(storage)).contains(spec_encode(who@))
                &&& faucets_of(*old(storage)).contains_key(spec_encode(channel@))
                &&& faucets_of(*final(storage)) == faucets_of(*old(storage)).insert(
                    spec_encode(channel@),
                    spec_frame(rpc_url@, wallet_seed@),
                )
                &&& admins_of(*final(storage)) == admins_of(*old(storage))
                &&& wallets_of(*final(storage)) == wallets_of(*old(storage))
                &&& resp matches Some(Response::SayChan(ch, t)) && ch@ == channel@ && t@
                    == activate_reply_text()
            }),
            !faucets_of(*old(storage)).contains_key(spec_encode(channel@)) ==> !(r is Ok)
                && faucets_of(*final(storage)) == faucets_of(*old(storage)),
            r matches Err(e) ==> (is_module_err(r, module_bot(), only_admin_text()) || e
                is Other),
            r matches Err(e) ==> ((e is Other) ==> admins_of(*old(storage)).contains(
                spec_encode(who@),
            ) && admins_of(*final(storage)) == admins_of(*old(storage)) && wallets_of(
                *final(storage),
            ) == wallets_of(*old(storage))),
    {
        // Reject if the caller isn't an admin.
        if !storage.is_admin(who) {
            return Err(DispatchError::Module(
                String::from_str("BOT"),
                String::from_str("Only an admin can perform this action"),
            ));
        }
        match storage.activate_faucet_channel(channel, rpc_url, wallet_seed) {
            Err(e) => Err(DispatchError::Other(e.message())),
            Ok(_) => Ok(Some(Response::SayChan(
                channel.clone(),
                String::from_str("Faucet has been activated for this channel!"),
            ))),
        }
    }
}

/// Law: single initialization.  A successful `Init` (which `Bot::init`
/// guarantees happens exactly when no administrator exists) leaves the
/// caller an administrator and the admin set non-empty, so no later
/// `Init` can find the empty admin set it requires; `Bot::init` then
/// guarantees the "Already initialized" module error with the storage
/// unchanged.
pub proof fn lemma_single_initialization(s0: Storage, s1: Storage, who: crate::origin::OriginView)
    requires
        no_admins(s0),
        admins_of(s1) == admins_of(s0).insert(spec_encode(who)),
    ensures
        admins_of(s1).contains(spec_encode(who)),
        !no_admins(s1),
{
    assert(admins_of(s1).contains(spec_encode(who)));
}

} // verus!
