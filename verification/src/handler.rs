//! The command router: one incoming update's text or callback data parsed
//! into a typed command and dispatched into the action its handler performs.
//!
//! Routing is pure: the chosen action names the collaborator calls to make
//! (fetch a page, fetch a detail pair, set an entry's progress) or carries
//! the reply text outright; the transport layer performs the calls and feeds
//! the results to the renderer. A callback query whose embedded message has
//! vanished fails before any command is dispatched.

use vstd::prelude::*;

use crate::database::{spec_kitsu_id, Database};
use crate::decimal::{dec_str, dec_str_nat, i64_to_string, usize_to_string};
use crate::error::{Error, TelegramError};
use crate::parser::{parse_message, parse_query, spec_parse_message, spec_parse_query};
use crate::parser::{MsgCommand, QueryCommand};
use crate::telegram::{CallbackQuery, Message};

verus! {

/// What handling a message update amounts to.
#[derive(Clone, Debug, PartialEq)]
pub enum MessageAction {
    /// Reply with this text, unformatted.
    Send { chat_id: i64, text: String },
    /// Fetch the first page of this user's entries, render it, and send it.
    FetchList { chat_id: i64, kitsu_id: i64 },
    /// Refresh the user directory, then report how many records it holds.
    FetchUsers { chat_id: i64 },
}

/// What handling a callback-query update amounts to. Every variant but
/// `Send` edits the existing message in place and then acknowledges the
/// callback.
#[derive(Clone, Debug, PartialEq)]
pub enum QueryAction {
    /// Reply with this text, unformatted.
    Send { chat_id: i64, text: String },
    /// Fetch the page at `offset`, render it, and edit it in.
    FetchPage { msg_id: i64, chat_id: i64, kitsu_id: i64, offset: i64, query_id: String },
    /// Fetch one anime's pair, render the detail view, and edit it in.
    FetchDetail { msg_id: i64, chat_id: i64, kitsu_id: i64, anime_id: i64, query_id: String },
    /// Set the entry's progress to the target value, on behalf of the
    /// sending user, then show the detail view again.
    UpdateProgress {
        msg_id: i64,
        chat_id: i64,
        user_id: i64,
        kitsu_id: i64,
        anime_id: i64,
        entry_id: i64,
        progress: i64,
        query_id: String,
    },
}

/// The router, owning the registered-user directory it resolves callers
/// against.
pub struct Handler {
    /// The registered-user directory.
    pub db: Database,
}

/// The report sent after a directory refresh.
pub fn update_report(count: usize) -> (r: String)
    ensures
        r@ == "<pre>Successful update: "@ + dec_str_nat(count as int) + " user(s)</pre>"@,
{
    let mut s = String::from_str("<pre>Successful update: ");
    s.append(usize_to_string(count).as_str());
    s.append(" user(s)</pre>");
    proof {
        assert(s@ =~= "<pre>Successful update: "@ + dec_str_nat(count as int)
            + " user(s)</pre>"@);
    }
    s
}

impl Handler {
    /// A router over an empty directory, holding the lookup service's token.
    pub fn new(token: String) -> (h: Handler)
        ensures
            h.db.spec_users().len() == 0,
            h.db.spec_service_token() == token@,
    {
        Handler { db: Database::new(token) }
    }

    /// Routes one message update: a parsed `/list` resolves the sender and
    /// asks for the first page — or reports an unregistered sender; a parsed
    /// `/update` asks for a directory refresh; anything else is answered as
    /// an unknown command.
    pub fn handle_message(&self, msg: &Message) -> (a: MessageAction)
        requires
            msg.chat is Some,
            msg.from is Some,
        ensures
            ({
                let chat_id = (msg.chat->0).id;
                let user_id = (msg.from->0).id;
                let text = match msg.text {
                    Some(t) => t@,
                    None => Seq::<char>::empty(),
                };
                match spec_parse_message(text) {
                    Some(MsgCommand::List) => match spec_kitsu_id(self.db.spec_users(), user_id) {
                        None => a matches MessageAction::Send { chat_id: c, text: t } && c
                            == chat_id && t@ == "Non-registered user: "@ + dec_str(
                            user_id as int,
                        ),
                        Some(k) => a == (MessageAction::FetchList { chat_id, kitsu_id: k }),
                    },
                    Some(MsgCommand::Update) => a == (MessageAction::FetchUsers { chat_id }),
                    None => a matches MessageAction::Send { chat_id: c, text: t } && c == chat_id
                        && t@ == "Unknown command."@,
                }
            }),
    {
        let chat_id = match &msg.chat {
            Some(c) => c.id,
            None => {
                proof {
                    assert(false);
                }
                unreached()
            },
        };
        let user_id = match &msg.from {
            Some(u) => u.id,
            None => {
                proof {
                    assert(false);
                }
                unreached()
            },
        };
        let text: &str = match &msg.text {
            Some(t) => t.as_str(),
            None => "",
        };
        proof {
            reveal_strlit("");
            assert(""@ =~= Seq::<char>::empty());
        }
        match parse_message(text) {
            Ok(MsgCommand::List) => match self.db.get_kitsu_id(user_id) {
                None => {
                    let mut t = String::from_str("Non-registered user: ");
                    t.append(i64_to_string(user_id).as_str());
                    MessageAction::Send { chat_id, text: t }
                },
                Some(kitsu_id) => MessageAction::FetchList { chat_id, kitsu_id },
            },
            Ok(MsgCommand::Update) => MessageAction::FetchUsers { chat_id },
            Err(_) => MessageAction::Send {
                chat_id,
                text: String::from_str("Unknown command."),
            },
        }
    }

    /// Routes one callback-query update. A query whose embedded message is
    /// absent fails as outdated before any command is parsed or dispatched;
    /// otherwise the callback data picks page navigation, the detail view,
    /// or a progress update, and unparseable data is answered as an unknown
    /// command.
    pub fn handle_query(&self, query: &CallbackQuery) -> (r: Result<QueryAction, Error>)
        requires
            query.message matches Some(m) ==> m.message_id is Some && m.chat is Some,
        ensures
            ({
                match query.message {
                    None => r matches Err(Error::Telegram(t)) && t.description@
                        == "Outdated Message."@,
                    Some(m) => {
                        let msg_id = m.message_id->0;
                        let chat_id = (m.chat->0).id;
                        let data = match query.data {
                            Some(d) => d@,
                            None => Seq::<char>::empty(),
                        };
                        match spec_parse_query(data) {
                            Some(QueryCommand::Offset { kitsu_id, offset }) => r matches Ok(
                                QueryAction::FetchPage {
                                    msg_id: m1,
                                    chat_id: c1,
                                    kitsu_id: k1,
                                    offset: o1,
                                    query_id: q1,
                                },
                            ) && m1 == msg_id && c1 == chat_id && k1 == kitsu_id && o1 == offset
                                && q1@ == query.id@,
                            Some(QueryCommand::Detail { kitsu_id, anime_id }) => r matches Ok(
                                QueryAction::FetchDetail {
                                    msg_id: m1,
                                    chat_id: c1,
                                    kitsu_id: k1,
                                    anime_id: a1,
                                    query_id: q1,
                                },
                            ) && m1 == msg_id && c1 == chat_id && k1 == kitsu_id && a1 == anime_id
                                && q1@ == query.id@,
                            Some(
                                QueryCommand::Progress { kitsu_id, anime_id, entry_id, progress },
                            ) => r matches Ok(
                                QueryAction::UpdateProgress {
                                    msg_id: m1,
                                    chat_id: c1,
                                    user_id: u1,
                                    kitsu_id: k1,
                                    anime_id: a1,
                                    entry_id: e1,
                                    progress: p1,
                                    query_id: q1,
                                },
                            ) && m1 == msg_id && c1 == chat_id && u1 == query.from.id && k1
                                == kitsu_id && a1 == anime_id && e1 == entry_id && p1 == progress
                                && q1@ == query.id@,
                            None => r matches Ok(QueryAction::Send { chat_id: c1, text: t })
                                && c1 == chat_id && t@ == "Unknown command."@,
                        }
                    },
                }
            }),
    {
        let msg = match &query.message {
            Some(m) => m,
            None => {
                return Err(
                    Error::Telegram(
                        TelegramError { description: String::from_str("Outdated Message.") },
                    ),
                );
            },
        };
        let msg_id = match msg.message_id {
            Some(id) => id,
            None => {
                proof {
                    assert(false);
                }
                unreached()
            },
        };
        let chat_id = match &msg.chat {
            Some(c) => c.id,
            None => {
                proof {
                    assert(false);
                }
                unreached()
            },
        };
        let data: &str = match &query.data {
            Some(d) => d.as_str(),
            None => "",
        };
        proof {
            reveal_strlit("");
            assert(""@ =~= Seq::<char>::empty());
        }
        let query_id = query.id.clone();
        match parse_query(data) {
            Ok(QueryCommand::Offset { kitsu_id, offset }) => Ok(
                QueryAction::FetchPage { msg_id, chat_id, kitsu_id, offset, query_id },
            ),
            Ok(QueryCommand::Detail { kitsu_id, anime_id }) => Ok(
                QueryAction::FetchDetail { msg_id, chat_id, kitsu_id, anime_id, query_id },
            ),
            Ok(QueryCommand::Progress { kitsu_id, anime_id, entry_id, progress }) => Ok(
                QueryAction::UpdateProgress {
                    msg_id,
                    chat_id,
                    user_id: query.from.id,
                    kitsu_id,
                    anime_id,
                    entry_id,
                    progress,
                    query_id,
                },
            ),
            Err(_) => Ok(
                QueryAction::Send { chat_id, text: String::from_str("Unknown command.") },
            ),
        }
    }
}

} // verus!
