use eddie_lib::Origin;

#[test]
fn origin_to_string_and_debug_works() {
    let discord_origin = Origin::Discord("1234".into());
    let telegram_origin = Origin::Telegram("4321".into());
    assert_eq!(discord_origin.encode(), "Discord(1234)");
    assert_eq!(telegram_origin.encode(), "Telegram(4321)");

    assert_eq!(format!("{}", discord_origin.encode()), "Discord(1234)");
    assert_eq!(format!("{}", telegram_origin.encode()), "Telegram(4321)");

    assert_eq!(format!("{:?}", discord_origin), "Discord(\"1234\")");
    assert_eq!(format!("{:?}", telegram_origin), "Telegram(\"4321\")");
}

#[test]
fn try_string_to_origin_works() {
    assert_eq!(
        Origin::decode("Discord(1234)").unwrap(),
        Origin::Discord("1234".into())
    );
    assert_eq!(
        Origin::decode("Telegram(4321)").unwrap(),
        Origin::Telegram("4321".into())
    );

    assert!(Origin::decode("Blah(4321)").is_err());
}

#[test]
fn origin_accessors_work() {
    let o = Origin::Discord("42".into());
    assert_eq!(o.network(), "DISCORD");
    assert_eq!(o.user_id(), "42");
    assert_eq!(o.inner(), "42");
    let t = Origin::Telegram("7".into());
    assert_eq!(t.network(), "TELEGRAM");
    assert_eq!(t.user_id(), "7");
    assert_eq!(Origin::decode(&o.encode()).unwrap(), o);
    assert_eq!(Origin::decode(&t.encode()).unwrap(), t);
}

#[test]
fn decode_rejects_malformed_texts() {
    assert!(Origin::decode("").is_err());
    assert!(Origin::decode("Discord()").is_err());
    assert!(Origin::decode("discord(1)").is_err());
    assert!(Origin::decode("xDiscord(1)").is_err());
    assert!(Origin::decode("Discord(1)x").is_err());
    assert!(Origin::decode("Discord(12)34)").is_err());
    assert!(Origin::decode("Telegram(a b)").is_err());
}
