use eddie_lib::bot::BotError;
use eddie_lib::helpers::split_with_quotes;
use eddie_lib::storage::Storage;
use eddie_lib::storage::StorageError;
use eddie_lib::traits::Dispatch;
use eddie_lib::traits::DispatchError;
use eddie_lib::Bot;
use eddie_lib::Call;
use eddie_lib::Config;
use eddie_lib::Origin;
use eddie_lib::Response;

fn fresh_path(name: &str) -> String {
    let nanos = std::time::SystemTime::now()
        .duration_since(std::time::UNIX_EPOCH)
        .unwrap()
        .as_nanos();
    format!("/tmp/eddie_{}_{}", name, nanos)
}

#[test]
fn it_works() {
    let mut storage = Storage::new("/tmp/general_bot_test").unwrap();
    let result = Call::Info.dispatch(Origin::Telegram("1234".into()), &mut storage);
    assert!(result.is_ok());
    assert_eq!(
        result.unwrap(),
        Some(Response::Reply("Eddie version 0.1.0\nCopyright (c) 2024, Arjan van Eersel\n\nMore information: https://github.com/arjanvaneersel/eddie-bot".into())),
    )
}

#[test]
fn version_and_info_work() {
    assert_eq!(
        Bot::version().unwrap(),
        Some(Response::Reply("0.1.0".into()))
    );
    match Bot::info().unwrap() {
        Some(Response::Reply(t)) => {
            assert!(t.starts_with("Eddie version 0.1.0"));
            assert!(t.contains("Arjan van Eersel"));
        }
        other => panic!("unexpected info response: {:?}", other),
    }
}

#[test]
fn init_and_single_initialization_works() {
    let mut storage = Storage::new(&fresh_path("init")).unwrap();
    let alice = Origin::Discord("1".into());
    let bob = Origin::Telegram("2".into());
    let r = Call::Init.dispatch(alice.clone(), &mut storage);
    assert!(matches!(r, Ok(None)));
    assert!(storage.is_admin(alice.clone()));
    let r2 = Call::Init.dispatch(bob.clone(), &mut storage);
    assert!(
        matches!(r2, Err(DispatchError::Module(ref m, ref t)) if m == "BOT" && t == "Already initialized")
    );
    assert!(storage.is_admin(alice));
    assert!(!storage.is_admin(bob));
}

#[test]
fn authorization_gate_works() {
    let mut storage = Storage::new(&fresh_path("gate")).unwrap();
    let admin = Origin::Discord("1".into());
    let outsider = Origin::Discord("2".into());
    let target = Origin::Discord("3".into());
    assert!(matches!(
        Call::Init.dispatch(admin.clone(), &mut storage),
        Ok(None)
    ));
    let gated = vec![
        Call::SetAdmin(target.clone(), false),
        Call::RegisterFaucetChannel(target.clone()),
        Call::ActivateFaucetChannel {
            channel: target.clone(),
            rpc_url: "u".into(),
            wallet_seed: "s".into(),
        },
    ];
    for call in gated {
        let r = call.dispatch(outsider.clone(), &mut storage);
        assert!(
            matches!(r, Err(DispatchError::Module(ref m, ref t)) if m == "BOT" && t == "Only an admin can perform this action")
        );
    }
    // no state was touched by the rejected calls
    assert!(!storage.is_admin(target.clone()));
    assert!(matches!(
        storage.get_faucet_channel(&target),
        Err(StorageError::NotFound)
    ));
}

#[test]
fn set_admin_grant_and_revoke_works() {
    let mut storage = Storage::new(&fresh_path("setadmin")).unwrap();
    let alice = Origin::Discord("1".into());
    let bob = Origin::Telegram("2".into());
    assert!(matches!(
        Call::Init.dispatch(alice.clone(), &mut storage),
        Ok(None)
    ));
    let r = Call::SetAdmin(bob.clone(), false).dispatch(alice.clone(), &mut storage);
    assert_eq!(
        r.unwrap(),
        Some(Response::Reply("The user is now an admin.".into()))
    );
    assert!(storage.is_admin(bob.clone()));
    let r = Call::SetAdmin(bob.clone(), true).dispatch(alice.clone(), &mut storage);
    assert_eq!(
        r.unwrap(),
        Some(Response::Reply("The user is no longer an admin.".into()))
    );
    assert!(!storage.is_admin(bob));
}

#[test]
fn faucet_lifecycle_works() {
    let mut storage = Storage::new(&fresh_path("faucet")).unwrap();
    let admin = Origin::Discord("1".into());
    let ch = Origin::Discord("99".into());
    assert!(matches!(
        Call::Init.dispatch(admin.clone(), &mut storage),
        Ok(None)
    ));

    // activating a never-registered channel fails
    let r0 = Call::ActivateFaucetChannel {
        channel: ch.clone(),
        rpc_url: "ws://node:9944".into(),
        wallet_seed: "//Seed".into(),
    }
    .dispatch(admin.clone(), &mut storage);
    assert!(
        matches!(r0, Err(DispatchError::Other(ref t)) if t == "Channel is not registered")
    );

    // registering succeeds, with instructions referencing the channel id
    let r1 = Call::RegisterFaucetChannel(ch.clone()).dispatch(admin.clone(), &mut storage);
    match r1.unwrap() {
        Some(Response::ReplyDirect(text)) => {
            assert!(text.contains("/activate_faucet 99 <rpc url> <wallet seed>"))
        }
        other => panic!("unexpected response: {:?}", other),
    }

    // the record exists with empty url and seed
    let rec = storage.get_faucet_channel(&ch).unwrap();
    assert_eq!(rec.rpc_url, "");
    assert_eq!(rec.wallet_seed, "");

    // a second registration of the same channel is rejected
    let r2 = Call::RegisterFaucetChannel(ch.clone()).dispatch(admin.clone(), &mut storage);
    assert!(
        matches!(r2, Err(DispatchError::Other(ref t)) if t == "Record ID is not unique")
    );

    // activation fills the record and announces in the channel
    let r3 = Call::ActivateFaucetChannel {
        channel: ch.clone(),
        rpc_url: "ws://node:9944".into(),
        wallet_seed: "//Seed".into(),
    }
    .dispatch(admin.clone(), &mut storage);
    match r3.unwrap() {
        Some(Response::SayChan(c, text)) => {
            assert_eq!(c, ch);
            assert_eq!(text, "Faucet has been activated for this channel!");
        }
        other => panic!("unexpected response: {:?}", other),
    }
    let rec = storage.get_faucet_channel(&ch).unwrap();
    assert_eq!(rec.rpc_url, "ws://node:9944");
    assert_eq!(rec.wallet_seed, "//Seed");
}

#[test]
fn end_to_end_scenario_works() {
    let mut storage = Storage::new(&fresh_path("e2e")).unwrap();
    let admin = Origin::Discord("1".into());
    let channel = Origin::Discord("99".into());
    let outsider = Origin::Discord("2".into());
    let other_channel = Origin::Discord("100".into());

    assert!(matches!(
        Call::Init.dispatch(admin.clone(), &mut storage),
        Ok(None)
    ));
    assert!(storage.is_admin(admin.clone()));

    match Call::RegisterFaucetChannel(channel.clone())
        .dispatch(admin.clone(), &mut storage)
        .unwrap()
    {
        Some(Response::ReplyDirect(text)) => assert!(text.contains("99")),
        other => panic!("unexpected response: {:?}", other),
    }

    let r = Call::RegisterFaucetChannel(other_channel.clone()).dispatch(outsider, &mut storage);
    assert!(
        matches!(r, Err(DispatchError::Module(ref m, ref t)) if m == "BOT" && t == "Only an admin can perform this action")
    );
    assert!(matches!(
        storage.get_faucet_channel(&other_channel),
        Err(StorageError::NotFound)
    ));
}

#[test]
fn error_messages_work() {
    assert_eq!(StorageError::NotFound.message(), "Record not found");
    assert_eq!(StorageError::NotUnique.message(), "Record ID is not unique");
    assert_eq!(
        StorageError::NotRegistered.message(),
        "Channel is not registered"
    );
    assert_eq!(StorageError::InvalidOrigin.message(), "Invalid origin");
    assert_eq!(
        StorageError::InvalidRecord.message(),
        "Invalid stored record"
    );
    assert_eq!(
        DispatchError::Module("BOT".into(), "Oops".into()).message(),
        "Oops error in module BOT"
    );
    assert_eq!(DispatchError::Other("broken".into()).message(), "broken");
    assert_eq!(BotError::UnknownError.message(), "Unknown error");
    match BotError::UnknownError.to_dispatch_error() {
        DispatchError::Module(m, t) => {
            assert_eq!(m, "BOT");
            assert_eq!(t, "Unknown error");
        }
        other => panic!("unexpected error: {:?}", other),
    }
}

#[test]
fn bot_new_holds_config() {
    let config = Config {
        name: "Eddie".into(),
        wallet_seed: "\\Alice".into(),
        substrate_rpc: "ws://localhost:9944".into(),
        db_path: "/tmp/general_bot_test".into(),
    };
    let bot = Bot::new(config);
    assert_eq!(bot.config.name, "Eddie");
    assert_eq!(bot.config.db_path, "/tmp/general_bot_test");
}

#[test]
fn dispatch_trait_works() {
    let mut storage = Storage::new(&fresh_path("trait")).unwrap();
    let r = Dispatch::dispatch(&Call::Info, Origin::Telegram("1".into()), &mut storage);
    assert!(r.is_ok());
}

#[test]
fn split_with_quotes_works() {
    let (cmd, args) = split_with_quotes("send 10 \"alice bob\" now".into());
    assert_eq!(cmd, "send");
    assert_eq!(
        args,
        vec![
            "10".to_string(),
            "alicebob".to_string(),
            "now".to_string()
        ]
    );

    let (cmd, args) = split_with_quotes("info".into());
    assert_eq!(cmd, "info");
    assert!(args.is_empty());

    let (cmd, args) = split_with_quotes("a\"bc\"d e".into());
    assert_eq!(cmd, "abc");
    assert_eq!(args, vec!["d".to_string(), "e".to_string()]);
}

#[test]
fn split_with_quotes_empty_input_works() {
    let (cmd, args) = split_with_quotes("".into());
    assert_eq!(cmd, "");
    assert!(args.is_empty());

    let (cmd, args) = split_with_quotes("   ".into());
    assert_eq!(cmd, "");
    assert!(args.is_empty());
}
