use sagiri::database::{DatabaseResponse, User};
use sagiri::error::Error;
use sagiri::handler::{update_report, Handler, MessageAction, QueryAction};
use sagiri::telegram::{CallbackQuery, Chat, ChatType, Message};
use sagiri::telegram::User as TgUser;

fn chat(id: i64) -> Chat {
    Chat {
        id,
        chat_type: ChatType::Private,
        title: None,
        username: None,
        first_name: None,
        last_name: None,
        all_members_are_administrators: None,
    }
}

fn tg_user(id: i64) -> TgUser {
    TgUser {
        id,
        first_name: String::from("Izumi"),
        last_name: None,
        username: None,
        language_code: None,
    }
}

fn incoming(chat_id: i64, user_id: i64, text: &str) -> Message {
    let mut m = Message::default();
    m.chat = Some(chat(chat_id));
    m.from = Some(tg_user(user_id));
    m.text = Some(String::from(text));
    m
}

fn registered_handler() -> Handler {
    let mut h = Handler::new(String::from("service-token"));
    let res = DatabaseResponse::Data {
        data: vec![User {
            kitsu_id: 77,
            telegram_id: 10,
            kitsu_token: String::from("user-token"),
        }],
    };
    h.db.apply_fetch(res).unwrap();
    h
}

#[test]
fn unknown_command_is_answered_locally() {
    let h = Handler::new(String::from("t"));
    let a = h.handle_message(&incoming(5, 10, "/bogus"));
    assert_eq!(a, MessageAction::Send { chat_id: 5, text: String::from("Unknown command.") });
}

#[test]
fn list_from_unregistered_user_is_reported() {
    let h = Handler::new(String::from("t"));
    let a = h.handle_message(&incoming(5, 10, "/list"));
    assert_eq!(
        a,
        MessageAction::Send { chat_id: 5, text: String::from("Non-registered user: 10") }
    );
}

#[test]
fn list_from_registered_user_fetches_a_page() {
    let h = registered_handler();
    let a = h.handle_message(&incoming(5, 10, "/list"));
    assert_eq!(a, MessageAction::FetchList { chat_id: 5, kitsu_id: 77 });
}

#[test]
fn update_command_refreshes_the_directory() {
    let h = Handler::new(String::from("t"));
    let a = h.handle_message(&incoming(5, 10, "/update"));
    assert_eq!(a, MessageAction::FetchUsers { chat_id: 5 });
}

#[test]
fn message_without_text_is_unknown() {
    let h = Handler::new(String::from("t"));
    let mut m = incoming(5, 10, "x");
    m.text = None;
    let a = h.handle_message(&m);
    assert_eq!(a, MessageAction::Send { chat_id: 5, text: String::from("Unknown command.") });
}

fn query(data: Option<&str>, message: Option<Message>) -> CallbackQuery {
    CallbackQuery {
        id: String::from("q-1"),
        from: tg_user(10),
        data: data.map(String::from),
        message,
        inline_message_id: None,
    }
}

fn shown_message(msg_id: i64, chat_id: i64) -> Message {
    let mut m = Message::default();
    m.message_id = Some(msg_id);
    m.chat = Some(chat(chat_id));
    m
}

#[test]
fn query_without_message_is_outdated() {
    let h = Handler::new(String::from("t"));
    let r = h.handle_query(&query(Some("/42/offset/5/"), None));
    match r {
        Err(Error::Telegram(t)) => assert_eq!(t.description, "Outdated Message."),
        other => panic!("expected the outdated-message error, got {:?}", other),
    }
}

#[test]
fn offset_query_routes_to_page_navigation() {
    let h = Handler::new(String::from("t"));
    let r = h.handle_query(&query(Some("/42/offset/5/"), Some(shown_message(3, 5))));
    assert_eq!(
        r,
        Ok(QueryAction::FetchPage {
            msg_id: 3,
            chat_id: 5,
            kitsu_id: 42,
            offset: 5,
            query_id: String::from("q-1"),
        })
    );
}

#[test]
fn detail_query_routes_to_the_detail_view() {
    let h = Handler::new(String::from("t"));
    let r = h.handle_query(&query(Some("/42/detail/7/"), Some(shown_message(3, 5))));
    assert_eq!(
        r,
        Ok(QueryAction::FetchDetail {
            msg_id: 3,
            chat_id: 5,
            kitsu_id: 42,
            anime_id: 7,
            query_id: String::from("q-1"),
        })
    );
}

#[test]
fn progress_query_routes_to_the_progress_update() {
    let h = Handler::new(String::from("t"));
    let r = h.handle_query(&query(Some("/42/progress/7/9/4/"), Some(shown_message(3, 5))));
    assert_eq!(
        r,
        Ok(QueryAction::UpdateProgress {
            msg_id: 3,
            chat_id: 5,
            user_id: 10,
            kitsu_id: 42,
            anime_id: 7,
            entry_id: 9,
            progress: 4,
            query_id: String::from("q-1"),
        })
    );
}

#[test]
fn unparseable_query_data_is_answered_locally() {
    let h = Handler::new(String::from("t"));
    let r = h.handle_query(&query(Some("/nonsense"), Some(shown_message(3, 5))));
    assert_eq!(
        r,
        Ok(QueryAction::Send { chat_id: 5, text: String::from("Unknown command.") })
    );
}

#[test]
fn query_without_data_is_answered_locally() {
    let h = Handler::new(String::from("t"));
    let r = h.handle_query(&query(None, Some(shown_message(3, 5))));
    assert_eq!(
        r,
        Ok(QueryAction::Send { chat_id: 5, text: String::from("Unknown command.") })
    );
}

#[test]
fn update_report_counts_records() {
    assert_eq!(update_report(3), "<pre>Successful update: 3 user(s)</pre>");
    assert_eq!(update_report(0), "<pre>Successful update: 0 user(s)</pre>");
}

#[test]
fn directory_lookups_find_the_first_match() {
    let h = registered_handler();
    assert_eq!(h.db.get_kitsu_id(10), Some(77));
    assert_eq!(h.db.get_kitsu_id(11), None);
    assert_eq!(h.db.get_token(10, 77), Some(String::from("user-token")));
    assert_eq!(h.db.get_token(10, 78), None);
}

#[test]
fn failed_directory_fetch_keeps_the_cache() {
    let mut h = registered_handler();
    let r = h.db.apply_fetch(DatabaseResponse::Error { error: String::from("denied") });
    match r {
        Err(Error::Database(e)) => assert_eq!(e.description, "denied"),
        other => panic!("expected a database error, got {:?}", other),
    }
    assert_eq!(h.db.get_kitsu_id(10), Some(77));
}
