use sagiri::error::{DatabaseError, Error, KitsuError, TelegramError};

#[test]
fn every_variant_carries_its_description() {
    let cases = vec![
        (Error::Network { description: String::from("connection refused") }, "connection refused"),
        (Error::Protocol { description: String::from("unexpected body") }, "unexpected body"),
        (Error::Kitsu(KitsuError { description: String::from("k") }), "k"),
        (Error::Database(DatabaseError { description: String::from("d") }), "d"),
        (Error::Telegram(TelegramError { description: String::from("t") }), "t"),
    ];
    for (err, expected) in cases {
        assert_eq!(err.description(), expected);
    }
}
