use sagiri::error::Error;
use sagiri::telegram::{
    bool_from_response, build_edit_message, build_query_answer, build_send_message,
    check_response, message_from_response, updates_from_response, InlineKeyboardButton, Message,
    ParseMode, ReplyMarkup, Response, Update,
};

#[test]
fn with_callback_data_fills_the_button() {
    let b = InlineKeyboardButton::with_callback_data(
        String::from("Next"),
        String::from("/1/offset/5/"),
    );
    assert_eq!(b.text, "Next");
    assert_eq!(b.url, None);
    assert_eq!(b.callback_data, Some(String::from("/1/offset/5/")));
}

#[test]
fn send_payload_names_chat_text_and_buttons() {
    let button = InlineKeyboardButton::with_callback_data(String::from("b"), String::from("/d/"));
    let m = build_send_message(
        5,
        String::from("hello"),
        Some(ParseMode::HTML),
        Some(vec![vec![button.clone()]]),
    );
    assert_eq!(m.chat_id, Some(5));
    assert_eq!(m.text, Some(String::from("hello")));
    assert!(matches!(m.parse_mode, Some(ParseMode::HTML)));
    assert_eq!(m.message_id, None);
    assert_eq!(m.reply_markup, Some(ReplyMarkup::InlineKeyboard(vec![vec![button]])));
}

#[test]
fn edit_payload_addresses_the_existing_message() {
    let m = build_edit_message(3, 5, String::from("hello"), None, None);
    assert_eq!(m.message_id, Some(3));
    assert_eq!(m.chat_id, Some(5));
    assert_eq!(m.text, Some(String::from("hello")));
    assert_eq!(m.reply_markup, None);
    assert_eq!(m.parse_mode, None);
}

#[test]
fn answer_payload_names_the_callback() {
    let q = build_query_answer(String::from("q-1"), None, Some(false));
    assert_eq!(q.callback_query_id, "q-1");
    assert_eq!(q.text, None);
    assert_eq!(q.show_alert, Some(false));
}

#[test]
fn reported_error_becomes_a_typed_error() {
    let r = check_response(Response::Error { description: String::from("bad request") });
    match r {
        Err(Error::Telegram(t)) => assert_eq!(t.description, "bad request"),
        other => panic!("expected a messaging-API error, got {:?}", other),
    }
    assert!(matches!(
        check_response(Response::Bool { result: true }),
        Ok(Response::Bool { result: true })
    ));
}

#[test]
fn message_envelope_yields_the_message() {
    let mut m = Message::default();
    m.message_id = Some(3);
    let r = message_from_response(Response::Message { result: m.clone() });
    assert_eq!(r.unwrap().message_id, Some(3));
    match message_from_response(Response::Bool { result: true }) {
        Err(Error::Telegram(t)) => assert_eq!(t.description, "Invalid JSON"),
        other => panic!("expected a protocol mismatch, got {:?}", other),
    }
}

#[test]
fn bool_envelope_yields_the_acknowledgement() {
    assert_eq!(bool_from_response(Response::Bool { result: true }), Ok(true));
    assert!(bool_from_response(Response::Error { description: String::new() }).is_err());
}

#[test]
fn update_envelope_yields_the_batch() {
    let batch = vec![Update::Unsupported { update_id: 4 }];
    let r = updates_from_response(Response::Update { result: batch.clone() });
    assert_eq!(r.unwrap(), batch);
    assert!(updates_from_response(Response::Bool { result: true }).is_err());
}

#[test]
fn update_id_is_read_from_any_kind() {
    let m = Update::Message { update_id: 1, message: Message::default() };
    assert_eq!(m.update_id(), 1);
    assert_eq!(Update::Unsupported { update_id: 9 }.update_id(), 9);
}
