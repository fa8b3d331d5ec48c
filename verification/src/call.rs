use vstd::prelude::*;

use crate::bot::Bot;
use crate::functions::activate_reply_text;
use crate::functions::already_init_text;
use crate::functions::info_text;
use crate::functions::is_module_err;
use crate::functions::module_bot;
use crate::functions::no_admins;
use crate::functions::no_longer_admin_text;
use crate::functions::now_admin_text;
use crate::functions::only_admin_text;
use crate::functions::register_reply_text;
use crate::functions::storage_unchanged;
use crate::origin::spec_encode;
use crate::origin::spec_user_id;
use crate::origin::Origin;
use crate::storage::record::spec_frame;
use crate::storage::storage::admins_of;
use crate::storage::storage::faucets_of;
use crate::storage::storage::wallets_of;
use crate::storage::storage::Storage;
use crate::traits::Dispatch;
use crate::traits::DispatchResult;

verus! {

/// Collection of all possible calls to the bot.
#[derive(Clone, Debug, PartialEq)]
pub enum Call {
    /// Query bot metadata.
    Info,
    /// Bootstrap: the caller becomes the first administrator.
    Init,
    /// Grant admin status to the origin, or revoke it when the flag holds.
    SetAdmin(Origin, bool),
    /// Mark a channel as a pending faucet.
    RegisterFaucetChannel(Origin),
    /// Finalize a previously registered faucet channel.
    ActivateFaucetChannel { channel: Origin, rpc_url: String, wallet_seed: String },
}

/// Collection of all possible responses from the bot: render intents,
/// interpreted by each transport.
#[derive(Clone, Debug, PartialEq)]
pub enum Response {
    /// Reply in the originating thread or message.
    Reply(String),
    /// Private message to the caller.
    ReplyDirect(String),
    /// Untargeted post in the current channel.
    Say(String),
    /// Post to the named channel.
    SayChan(Origin, String),
}

/// Whether a call demands admin rights of its caller.
pub open spec fn requires_admin(c: Call) -> bool {
    match c {
        Call::Info => false,
        Call::Init => false,
        Call::SetAdmin(..) => true,
        Call::RegisterFaucetChannel(..) => true,
        Call::ActivateFaucetChannel { .. } => true,
    }
}

impl Call {
    /// Route a call: authorize the caller and execute the matching
    /// handler against the storage.  The ensures spell out the whole
    /// routing table: the authorization gate, the effect of each call on
    /// the three collections, and the response each call earns.
    pub fn dispatch(&self, origin: Origin, storage: &mut Storage) -> (r: DispatchResult<
        Option<Response>,
    >)
        ensures
            // Authorization gate: an admin-gated call from a non-admin is
            // rejected with the module error, and nothing changes.
            requires_admin(*self) && !admins_of(*old(storage)).contains(spec_encode(origin@))
                ==> is_module_err(r, module_bot(), only_admin_text()),
            is_module_err(r, module_bot(), only_admin_text()) ==> storage_unchanged(
                *old(storage),
                *final(storage),
            ),
            // Info: no precondition, no effect, the info text as a reply.
            *self is Info ==> (r matches Ok(resp) && resp matches Some(Response::Reply(t)) && t@
                == info_text()) && storage_unchanged(*old(storage), *final(storage)),
            // Init: allowed exactly on an empty admin set; the caller
            // becomes the sole new administrator.
            *self is Init ==> {
                &&& !no_admins(*old(storage)) ==> is_module_err(
                    r,
                    module_bot(),
                    already_init_text(),
                )
                &&& is_module_err(r, module_bot(), already_init_text()) ==> storage_unchanged(
                    *old(storage),
                    *final(storage),
                )
                &&& r matches Ok(resp) ==> resp is None && no_admins(*old(storage)) && admins_of(
                    *final(storage),
                ) == admins_of(*old(storage)).insert(spec_encode(origin@)) && wallets_of(
                    *final(storage),
                ) == wallets_of(*old(storage)) && faucets_of(*final(storage)) == faucets_of(
                    *old(storage),
                )
                &&& r matches Err(e) ==> (is_module_err(r, module_bot(), already_init_text()) || e
                    is Other)
                &&& r matches Err(e) ==> ((e is Other) ==> no_admins(*old(storage)) && wallets_of(
                    *final(storage),
                ) == wallets_of(*old(storage)) && faucets_of(*final(storage)) == faucets_of(
                    *old(storage),
                ))
            },
            // Admin-gated calls fail only with the authorization error or
            // with a wrapped storage failure, and a storage failure can
            // only strike once the caller was authorized.
            requires_admin(*self) ==> (r matches Err(e) ==> (is_module_err(
                r,
                module_bot(),
                only_admin_text(),
            ) || e is Other)),
            requires_admin(*self) ==> (r matches Err(e) ==> ((e is Other) ==> admins_of(
                *old(storage),
            ).contains(spec_encode(origin@)) && wallets_of(*final(storage)) == wallets_of(
                *old(storage),
            ))),
            // SetAdmin: grant or revoke the target's membership.
            *self matches Call::SetAdmin(admin, remove) ==> (r matches Ok(resp) ==> ({
                &&& admins_of(*old(storage)).contains(spec_encode(origin@))
                &&& admins_of(*final(storage)) == (if remove {
                    admins_of(*old(storage)).remove(spec_encode(admin@))
                } else {
                    admins_of(*old(storage)).insert(spec_encode(admin@))
                })
                &&& wallets_of(*final(storage)) == wallets_of(*old(storage))
                &&& faucets_of(*final(storage)) == faucets_of(*old(storage))
                &&& resp matches Some(Response::Reply(t)) && t@ == (if remove {
                    no_longer_admin_text()
                } else {
                    now_admin_text()
                })
            })),
            // RegisterFaucetChannel: create the pending record once.
            *self matches Call::RegisterFaucetChannel(channel) ==> {
                &&& r matches Ok(resp) ==> ({
                    &&& admins_of(*old(storage)).contains(spec_encode(origin@))
                    &&& !faucets_of(*old(storage)).contains_key(spec_encode(channel@))
                    &&& faucets_of(*final(storage)) == faucets_of(*old(storage)).insert(
                        spec_encode(channel@),
                        spec_frame(Seq::empty(), Seq::empty()),
                    )
                    &&& admins_of(*final(storage)) == admins_of(*old(storage))
                    &&& wallets_of(*final(storage)) == wallets_of(*old(storage))
                    &&& resp matches Some(Response::ReplyDirect(t)) && t@ == register_reply_text(
                        spec_user_id(channel@),
                    )
                })
                &&& faucets_of(*old(storage)).contains_key(spec_encode(channel@)) ==> !(r is Ok)
                    && faucets_of(*final(storage)) == faucets_of(*old(storage))
            },
            // ActivateFaucetChannel: overwrite the registered record with
            // the funding parameters.
            *self matches Call::ActivateFaucetChannel { channel, rpc_url, wallet_seed } ==> {
                &&& r matches Ok(resp) ==> ({
                    &&& admins_of(*old(storage)).contains(spec_encode(origin@))
                    &&& faucets_of(*old(storage)).contains_key(spec_encode(channel@))
                    &&& faucets_of(*final(storage)) == faucets_of(*old(storage)).insert(
                        spec_encode(channel@),
                        spec_frame(rpc_url@, wallet_seed@),
                    )
                    &&& admins_of(*final(storage)) == admins_of(*old(storage))
                    &&& wallets_of(*final(storage)) == wallets_of(*old(storage))
                    &&& resp matches Some(Response::SayChan(ch, t)) && ch@ == channel@ && t@
                        == activate_reply_text()
                })
                &&& !faucets_of(*old(storage)).contains_key(spec_encode(channel@)) ==> !(r is Ok)
                    && faucets_of(*final(storage)) == faucets_of(*old(storage))
            },
    {
        match self {
            Call::Info => Bot::info(),
            Call::Init => Bot::init(storage, origin),
            Call::SetAdmin(admin, remove) => Bot::set_admin(storage, origin, admin, *remove),
            Call::RegisterFaucetChannel(channel) => Bot::register_faucet_channel(
                storage,
                origin,
                channel,
            ),
            Call::ActivateFaucetChannel { channel, rpc_url, wallet_seed } => {
                Bot::activate_faucet_channel(storage, origin, channel, rpc_url, wallet_seed)
            },
        }
    }
}

impl Dispatch for Call {
    type Origin = Origin;

    type Response = Option<Response>;

    fn dispatch(&self, origin: Origin, storage: &mut Storage) -> DispatchResult<Option<Response>> {
        self.dispatch(origin, storage)
    }
}

} // verus!
