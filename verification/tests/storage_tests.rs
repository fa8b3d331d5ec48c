use eddie_lib::storage::FaucetData;
use eddie_lib::storage::Storage;
use eddie_lib::storage::StorageError;
use eddie_lib::Origin;

fn fresh_path(name: &str) -> String {
    let nanos = std::time::SystemTime::now()
        .duration_since(std::time::UNIX_EPOCH)
        .unwrap()
        .as_nanos();
    format!("/tmp/eddie_{}_{}", name, nanos)
}

#[test]
fn storage_user_wallets_flow_works() {
    let discord_user = Origin::Discord("1234".into());
    let telegram_user = Origin::Telegram("4321".into());
    let pub_addr = String::from("W1234321");

    let mut storage = Storage::new("/tmp/user_wallets_flow_works.edb").unwrap();

    assert!(storage
        .set_user_wallet(discord_user.clone(), pub_addr.clone())
        .is_ok());

    assert_eq!(
        storage.get_user_wallet(discord_user.clone()).unwrap(),
        pub_addr.clone()
    );

    assert!(storage
        .set_user_wallet(telegram_user.clone(), pub_addr.clone())
        .is_ok());

    assert_eq!(
        storage.get_user_wallet(telegram_user.clone()).unwrap(),
        pub_addr.clone()
    );

    assert_eq!(
        storage.get_pub_address_origins(pub_addr.clone()).unwrap(),
        vec![discord_user.clone(), telegram_user.clone()]
    );

    assert_eq!(
        storage.get_user_wallet(discord_user.clone()).unwrap(),
        pub_addr.clone()
    );

    assert!(matches!(
        storage.get_user_wallet(Origin::Discord("blah".into())),
        Err(StorageError::NotFound)
    ));

    assert!(storage
        .set_user_wallet(discord_user.clone(), String::from("W43563463"))
        .is_ok());
}

#[test]
fn storage_admin_flow_works() {
    let discord_user = Origin::Discord("1234".into());
    let telegram_user = Origin::Telegram("4321".into());

    let mut storage = Storage::new("/tmp/admin_flow_works.edb").unwrap();
    assert!(storage.set_admin(discord_user.clone(), false).is_ok());
    assert!(storage.is_admin(discord_user));

    assert!(!storage.is_admin(telegram_user));
    assert!(storage.has_admins());
}

#[test]
fn wallet_reverse_lookup_works() {
    let mut storage = Storage::new(&fresh_path("wallets")).unwrap();
    let a = Origin::Discord("1234".into());
    let b = Origin::Telegram("4321".into());
    storage.set_user_wallet(a.clone(), "W1".into()).unwrap();
    storage.set_user_wallet(b.clone(), "W1".into()).unwrap();
    storage
        .set_user_wallet(Origin::Discord("5".into()), "W2".into())
        .unwrap();
    let origins = storage.get_pub_address_origins("W1".into()).unwrap();
    assert_eq!(origins.len(), 2);
    assert!(origins.contains(&a));
    assert!(origins.contains(&b));
}

#[test]
fn invalid_origin_key_is_reported() {
    let mut storage = Storage::new(&fresh_path("badkey")).unwrap();
    // A user id outside the canonical alphabet stores fine but its key
    // does not decode back into an origin.
    let weird = Origin::Discord("12)34".into());
    storage.set_user_wallet(weird, "W9".into()).unwrap();
    assert!(matches!(
        storage.get_pub_address_origins("W9".into()),
        Err(StorageError::InvalidOrigin)
    ));
}

#[test]
fn storage_faucet_errors_work() {
    let mut storage = Storage::new(&fresh_path("faucet_err")).unwrap();
    let ch = Origin::Telegram("77".into());
    assert!(matches!(
        storage.activate_faucet_channel(&ch, &"u".into(), &"s".into()),
        Err(StorageError::NotRegistered)
    ));
    assert!(matches!(
        storage.get_faucet_channel(&ch),
        Err(StorageError::NotFound)
    ));
    assert!(storage.register_faucet_channel(&ch).is_ok());
    assert!(matches!(
        storage.register_faucet_channel(&ch),
        Err(StorageError::NotUnique)
    ));
}

#[test]
fn record_frame_round_trip_works() {
    let framed = FaucetData::frame("ws://x:9944", "seed with spaces");
    let rec = FaucetData::unframe(framed.as_str()).unwrap();
    assert_eq!(rec.rpc_url, "ws://x:9944");
    assert_eq!(rec.wallet_seed, "seed with spaces");

    let empty = FaucetData::frame("", "");
    let rec = FaucetData::unframe(empty.as_str()).unwrap();
    assert_eq!(rec.rpc_url, "");
    assert_eq!(rec.wallet_seed, "");

    assert!(FaucetData::unframe("garbage").is_none());
    assert!(FaucetData::unframe("").is_none());
}
