//! Wire-level data of the messaging API, the builders of outgoing request
//! payloads, and the mapping of a tagged response envelope into a typed
//! success value or a typed error.

use vstd::prelude::*;

use crate::error::{Error, TelegramError};

verus! {

/// A tagged success/error envelope, one variant per method result shape.
#[derive(Clone, Debug, PartialEq)]
pub enum Response {
    Bool { result: bool },
    Update { result: Vec<Update> },
    Message { result: Message },
    Error { description: String },
}

/// One incoming update: a monotone identifier and exactly one payload
/// variant. Kinds outside the handled set carry only their identifier.
#[derive(Clone, Debug, PartialEq)]
pub enum Update {
    Message { update_id: i64, message: Message },
    CallbackQuery { update_id: i64, callback_query: CallbackQuery },
    Unsupported { update_id: i64 },
}

impl Update {
    /// The identifier carried by any update kind.
    pub open spec fn spec_update_id(&self) -> i64 {
        match self {
            Update::Message { update_id, .. } => *update_id,
            Update::CallbackQuery { update_id, .. } => *update_id,
            Update::Unsupported { update_id } => *update_id,
        }
    }

    /// The identifier carried by any update kind.
    pub fn update_id(&self) -> (r: i64)
        ensures
            r == self.spec_update_id(),
    {
        match self {
            Update::Message { update_id, .. } => *update_id,
            Update::CallbackQuery { update_id, .. } => *update_id,
            Update::Unsupported { update_id } => *update_id,
        }
    }
}

/// A chat message, incoming or outgoing; optional fields are absent on the
/// wire when `None`.
#[derive(Clone, Debug, PartialEq)]
pub struct Message {
    pub message_id: Option<i64>,
    pub from: Option<User>,
    pub date: Option<i64>,
    pub chat: Option<Chat>,
    pub text: Option<String>,
    pub chat_id: Option<i64>,
    pub reply_markup: Option<ReplyMarkup>,
    pub parse_mode: Option<ParseMode>,
}

impl Default for Message {
    /// A message with every field absent, the base of outgoing payloads.
    fn default() -> (r: Message)
        ensures
            r.message_id is None,
            r.from is None,
            r.date is None,
            r.chat is None,
            r.text is None,
            r.chat_id is None,
            r.reply_markup is None,
            r.parse_mode is None,
    {
        Message {
            message_id: None,
            from: None,
            date: None,
            chat: None,
            text: None,
            chat_id: None,
            reply_markup: None,
            parse_mode: None,
        }
    }
}

/// Rich-text interpretation of an outgoing message body.
#[derive(Clone, Copy, Debug, PartialEq, Eq)]
pub enum ParseMode {
    HTML,
    Markdown,
}

/// Button layout attached to an outgoing message.
#[derive(Clone, Debug, PartialEq)]
pub enum ReplyMarkup {
    InlineKeyboard(Vec<Vec<InlineKeyboardButton>>),
    ReplyKeyboardMarkup,
    ReplyKeyboardRemove,
    ForceReply,
}

/// One inline button: a label plus either a URL or callback data.
#[derive(Clone, Debug, PartialEq)]
pub struct InlineKeyboardButton {
    pub text: String,
    pub url: Option<String>,
    pub callback_data: Option<String>,
}

impl InlineKeyboardButton {
    /// A button that reports `data` back through a callback query.
    pub fn with_callback_data(text: String, data: String) -> (r: InlineKeyboardButton)
        ensures
            r.text == text,
            r.url is None,
            r.callback_data == Some(data),
    {
        InlineKeyboardButton { text, url: None, callback_data: Some(data) }
    }
}

/// A user of the messaging service.
#[derive(Clone, Debug, PartialEq)]
pub struct User {
    pub id: i64,
    pub first_name: String,
    pub last_name: Option<String>,
    pub username: Option<String>,
    pub language_code: Option<String>,
}

/// A conversation.
#[derive(Clone, Debug, PartialEq)]
pub struct Chat {
    pub id: i64,
    pub chat_type: ChatType,
    pub title: Option<String>,
    pub username: Option<String>,
    pub first_name: Option<String>,
    pub last_name: Option<String>,
    pub all_members_are_administrators: Option<bool>,
}

/// Kind of conversation.
#[derive(Clone, Copy, PartialEq, Eq, Debug)]
pub enum ChatType {
    Private,
    Group,
    SuperGroup,
    Channel,
}

/// An inline-button activation referring back to a previously sent message.
#[derive(Clone, Debug, PartialEq)]
pub struct CallbackQuery {
    pub id: String,
    pub from: User,
    pub data: Option<String>,
    pub message: Option<Message>,
    pub inline_message_id: Option<String>,
}

/// Payload of one long-poll fetch: the offset acknowledging all earlier
/// updates, and the hold-open timeout in seconds.
#[derive(Clone, Copy, Debug, PartialEq, Eq, Structural)]
pub struct GetUpdate {
    pub offset: i64,
    pub timeout: i64,
}

/// Payload acknowledging a callback query.
#[derive(Clone, Debug, PartialEq)]
pub struct QueryAnswer {
    pub text: Option<String>,
    pub show_alert: Option<bool>,
    pub callback_query_id: String,
}

/// Payload of a send-message call.
pub fn build_send_message(
    chat_id: i64,
    text: String,
    parse_mode: Option<ParseMode>,
    buttons: Option<Vec<Vec<InlineKeyboardButton>>>,
) -> (m: Message)
    ensures
        m.chat_id == Some(chat_id),
        m.text == Some(text),
        m.parse_mode == parse_mode,
        m.message_id is None,
        m.from is None,
        m.date is None,
        m.chat is None,
        match buttons {
            Some(b) => m.reply_markup == Some(ReplyMarkup::InlineKeyboard(b)),
            None => m.reply_markup is None,
        },
{
    let reply_markup = match buttons {
        Some(b) => Some(ReplyMarkup::InlineKeyboard(b)),
        None => None,
    };
    Message {
        message_id: None,
        from: None,
        date: None,
        chat: None,
        text: Some(text),
        chat_id: Some(chat_id),
        reply_markup,
        parse_mode,
    }
}

/// Payload of an edit-message call: as a send, but addressed to an existing
/// message which is rewritten in place.
pub fn build_edit_message(
    msg_id: i64,
    chat_id: i64,
    text: String,
    parse_mode: Option<ParseMode>,
    buttons: Option<Vec<Vec<InlineKeyboardButton>>>,
) -> (m: Message)
    ensures
        m.message_id == Some(msg_id),
        m.chat_id == Some(chat_id),
        m.text == Some(text),
        m.parse_mode == parse_mode,
        m.from is None,
        m.date is None,
        m.chat is None,
        match buttons {
            Some(b) => m.reply_markup == Some(ReplyMarkup::InlineKeyboard(b)),
            None => m.reply_markup is None,
        },
{
    let reply_markup = match buttons {
        Some(b) => Some(ReplyMarkup::InlineKeyboard(b)),
        None => None,
    };
    Message {
        message_id: Some(msg_id),
        from: None,
        date: None,
        chat: None,
        text: Some(text),
        chat_id: Some(chat_id),
        reply_markup,
        parse_mode,
    }
}

/// Payload of an answer-callback call.
pub fn build_query_answer(
    callback_query_id: String,
    text: Option<String>,
    show_alert: Option<bool>,
) -> (q: QueryAnswer)
    ensures
        q.callback_query_id == callback_query_id,
        q.text == text,
        q.show_alert == show_alert,
{
    QueryAnswer { text, show_alert, callback_query_id }
}

/// Maps an API-reported error envelope into a typed error; any other
/// envelope passes through.
pub fn check_response(res: Response) -> (r: Result<Response, Error>)
    ensures
        match res {
            Response::Error { description } => r == Err::<Response, Error>(
                Error::Telegram((TelegramError { description })),
            ),
            _ => r == Ok::<Response, Error>(res),
        },
{
    match res {
        Response::Error { description } => Err(Error::Telegram(TelegramError { description })),
        other => Ok(other),
    }
}

/// Extracts the sent or edited message from a checked envelope; any other
/// shape is a protocol mismatch reported as an API error.
pub fn message_from_response(res: Response) -> (r: Result<Message, Error>)
    ensures
        match res {
            Response::Message { result } => r == Ok::<Message, Error>(result),
            _ => r matches Err(Error::Telegram(t)) && t.description@ == "Invalid JSON"@,
        },
{
    match res {
        Response::Message { result } => Ok(result),
        _ => Err(
            Error::Telegram(TelegramError { description: String::from_str("Invalid JSON") }),
        ),
    }
}

/// Extracts the boolean acknowledgement from a checked envelope.
pub fn bool_from_response(res: Response) -> (r: Result<bool, Error>)
    ensures
        match res {
            Response::Bool { result } => r == Ok::<bool, Error>(result),
            _ => r matches Err(Error::Telegram(t)) && t.description@ == "Invalid JSON"@,
        },
{
    match res {
        Response::Bool { result } => Ok(result),
        _ => Err(
            Error::Telegram(TelegramError { description: String::from_str("Invalid JSON") }),
        ),
    }
}

/// Extracts the fetched batch from a checked envelope.
pub fn updates_from_response(res: Response) -> (r: Result<Vec<Update>, Error>)
    ensures
        match res {
            Response::Update { result } => r == Ok::<Vec<Update>, Error>(result),
            _ => r matches Err(Error::Telegram(t)) && t.description@ == "Invalid JSON"@,
        },
{
    match res {
        Response::Update { result } => Ok(result),
        _ => Err(
            Error::Telegram(TelegramError { description: String::from_str("Invalid JSON") }),
        ),
    }
}

} // verus!
