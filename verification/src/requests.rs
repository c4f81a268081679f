//! Request bodies: the structured payload each mock operation takes.
//!
//! A body is plain data; the handler that consumes it moves it into the
//! response log, so every record keeps the original request.

use vstd::prelude::*;

use crate::types::{Chat, ChatKind, DiceEmoji, MessageEntity, ReplyMarkup};

verus! {

/// A chat addressed either by numeric id or by public username.
#[derive(Debug)]
pub enum BodyChatId {
    Id(i64),
    Username(String),
}

/// The chat a request's chat id stands for: non-negative ids name
/// private chats, negative ids name group chats, and a username names a
/// supergroup under a placeholder id.
pub open spec fn chat_of(b: BodyChatId) -> Chat {
    match b {
        BodyChatId::Id(id) => {
            if id >= 0 {
                Chat { id, kind: ChatKind::Private, username: None, first_name: None, title: None }
            } else {
                Chat { id, kind: ChatKind::Group, username: None, first_name: None, title: None }
            }
        },
        BodyChatId::Username(u) => Chat {
            id: (-1001111111) as i64,
            kind: ChatKind::Supergroup,
            username: Some(u),
            first_name: None,
            title: None,
        },
    }
}

impl BodyChatId {
    /// The chat this id stands for.
    pub fn chat(&self) -> (r: Chat)
        ensures
            r == chat_of(*self),
    {
        match self {
            BodyChatId::Id(id) => {
                if *id >= 0 {
                    Chat {
                        id: *id,
                        kind: ChatKind::Private,
                        username: None,
                        first_name: None,
                        title: None,
                    }
                } else {
                    Chat {
                        id: *id,
                        kind: ChatKind::Group,
                        username: None,
                        first_name: None,
                        title: None,
                    }
                }
            },
            BodyChatId::Username(u) => Chat {
                id: -1001111111,
                kind: ChatKind::Supergroup,
                username: Some(u.clone()),
                first_name: None,
                title: None,
            },
        }
    }
}

/// Body of the plain-text send operation.
#[derive(Debug)]
pub struct SendMessageTextBody {
    pub chat_id: i64,
    pub text: String,
    pub entities: Option<Vec<MessageEntity>>,
    pub disable_web_page_preview: Option<bool>,
    pub disable_notification: Option<bool>,
    pub protect_content: Option<bool>,
    pub reply_to_message_id: Option<i32>,
    pub allow_sending_without_reply: Option<bool>,
    pub reply_markup: Option<ReplyMarkup>,
}

impl SendMessageTextBody {
    /// A body with only the required fields set.
    pub fn new(chat_id: i64, text: String) -> (r: SendMessageTextBody)
        ensures
            r == (SendMessageTextBody {
                chat_id,
                text,
                entities: None,
                disable_web_page_preview: None,
                disable_notification: None,
                protect_content: None,
                reply_to_message_id: None,
                allow_sending_without_reply: None,
                reply_markup: None,
            }),
    {
        SendMessageTextBody {
            chat_id,
            text,
            entities: None,
            disable_web_page_preview: None,
            disable_notification: None,
            protect_content: None,
            reply_to_message_id: None,
            allow_sending_without_reply: None,
            reply_markup: None,
        }
    }
}

/// Body shared by the media send operations (photo, video, audio,
/// voice, document, animation, video note): the uploaded file and the
/// optional caption data.
#[derive(Debug)]
pub struct SendMediaMessageBody {
    pub chat_id: BodyChatId,
    pub file_name: String,
    pub file_data: String,
    pub caption: Option<String>,
    pub caption_entities: Option<Vec<MessageEntity>>,
    pub disable_notification: Option<bool>,
    pub protect_content: Option<bool>,
    pub reply_to_message_id: Option<i32>,
    pub reply_markup: Option<ReplyMarkup>,
}

impl SendMediaMessageBody {
    /// A body with only the required fields set.
    pub fn new(chat_id: BodyChatId, file_name: String, file_data: String) -> (r:
        SendMediaMessageBody)
        ensures
            r == (SendMediaMessageBody {
                chat_id,
                file_name,
                file_data,
                caption: None,
                caption_entities: None,
                disable_notification: None,
                protect_content: None,
                reply_to_message_id: None,
                reply_markup: None,
            }),
    {
        SendMediaMessageBody {
            chat_id,
            file_name,
            file_data,
            caption: None,
            caption_entities: None,
            disable_notification: None,
            protect_content: None,
            reply_to_message_id: None,
            reply_markup: None,
        }
    }
}

/// Body of the dice send operation.
#[derive(Debug)]
pub struct SendMessageDiceBody {
    pub chat_id: BodyChatId,
    pub message_thread_id: Option<i64>,
    pub emoji: Option<DiceEmoji>,
    pub disable_notification: Option<bool>,
    pub protect_content: Option<bool>,
    pub message_effect_id: Option<String>,
    pub reply_markup: Option<ReplyMarkup>,
    pub reply_to_message_id: Option<i32>,
}

impl SendMessageDiceBody {
    /// A body with only the required fields set.
    pub fn new(chat_id: BodyChatId) -> (r: SendMessageDiceBody)
        ensures
            r == (SendMessageDiceBody {
                chat_id,
                message_thread_id: None,
                emoji: None,
                disable_notification: None,
                protect_content: None,
                message_effect_id: None,
                reply_markup: None,
                reply_to_message_id: None,
            }),
    {
        SendMessageDiceBody {
            chat_id,
            message_thread_id: None,
            emoji: None,
            disable_notification: None,
            protect_content: None,
            message_effect_id: None,
            reply_markup: None,
            reply_to_message_id: None,
        }
    }
}

/// One item of a media-group request.
#[derive(Debug)]
pub struct InputMedia {
    pub kind: InputMediaKind,
    pub file_name: String,
    pub file_data: String,
    pub caption: Option<String>,
    pub caption_entities: Option<Vec<MessageEntity>>,
}

/// Which payload kind a media-group item carries.
#[derive(Clone, Copy, Debug, PartialEq, Eq, Structural)]
pub enum InputMediaKind {
    Photo,
    Video,
    Audio,
    Document,
}

/// Body of the media-group send operation.
#[derive(Debug)]
pub struct SendMediaGroupBody {
    pub chat_id: BodyChatId,
    pub media: Vec<InputMedia>,
    pub disable_notification: Option<bool>,
    pub protect_content: Option<bool>,
    pub reply_to_message_id: Option<i32>,
}

/// Body of the forward operation.
#[derive(Debug)]
pub struct ForwardMessageBody {
    pub chat_id: BodyChatId,
    pub from_chat_id: BodyChatId,
    pub message_id: i32,
    pub message_thread_id: Option<i32>,
    pub disable_notification: Option<bool>,
    pub protect_content: Option<bool>,
}

/// Body of the copy operation.
#[derive(Debug)]
pub struct CopyMessageBody {
    pub chat_id: BodyChatId,
    pub from_chat_id: BodyChatId,
    pub message_id: i32,
    pub caption: Option<String>,
    pub reply_to_message_id: Option<i32>,
    pub reply_markup: Option<ReplyMarkup>,
}

/// Body of the text edit operation.
#[derive(Debug)]
pub struct EditMessageTextBody {
    pub chat_id: BodyChatId,
    pub message_id: i32,
    pub text: String,
    pub entities: Option<Vec<MessageEntity>>,
}

/// Body of the caption edit operation.
#[derive(Debug)]
pub struct EditMessageCaptionBody {
    pub chat_id: BodyChatId,
    pub message_id: i32,
    pub caption: Option<String>,
    pub caption_entities: Option<Vec<MessageEntity>>,
}

/// Body of the reply-markup edit operation.
#[derive(Debug)]
pub struct EditMessageReplyMarkupBody {
    pub chat_id: BodyChatId,
    pub message_id: i32,
    pub reply_markup: Option<ReplyMarkup>,
}

/// Body of the delete operation.
#[derive(Debug)]
pub struct DeleteMessageBody {
    pub chat_id: BodyChatId,
    pub message_id: i32,
}

/// Body of the pin operation.
#[derive(Debug)]
pub struct PinChatMessageBody {
    pub chat_id: BodyChatId,
    pub message_id: i32,
    pub disable_notification: Option<bool>,
}

/// Body of the unpin operation; without a message id the most recent
/// pin is meant.
#[derive(Debug)]
pub struct UnpinChatMessageBody {
    pub chat_id: BodyChatId,
    pub message_id: Option<i32>,
}

/// Body of the unpin-all operation.
#[derive(Debug)]
pub struct UnpinAllChatMessagesBody {
    pub chat_id: BodyChatId,
}

/// Body of the ban operation.
#[derive(Debug)]
pub struct BanChatMemberBody {
    pub chat_id: BodyChatId,
    pub user_id: u64,
    pub until_date: Option<i64>,
    pub revoke_messages: Option<bool>,
}

/// Body of the unban operation.
#[derive(Debug)]
pub struct UnbanChatMemberBody {
    pub chat_id: BodyChatId,
    pub user_id: u64,
    pub only_if_banned: Option<bool>,
}

/// What a restricted chat member may still do.
#[derive(Clone, Copy, Debug, PartialEq, Eq, Structural)]
pub struct ChatPermissions {
    pub can_send_messages: bool,
    pub can_send_media_messages: bool,
    pub can_send_polls: bool,
    pub can_send_other_messages: bool,
    pub can_add_web_page_previews: bool,
    pub can_change_info: bool,
    pub can_invite_users: bool,
    pub can_pin_messages: bool,
}

impl ChatPermissions {
    /// No permissions at all.
    pub fn empty() -> (r: ChatPermissions)
        ensures
            r == (ChatPermissions {
                can_send_messages: false,
                can_send_media_messages: false,
                can_send_polls: false,
                can_send_other_messages: false,
                can_add_web_page_previews: false,
                can_change_info: false,
                can_invite_users: false,
                can_pin_messages: false,
            }),
    {
        ChatPermissions {
            can_send_messages: false,
            can_send_media_messages: false,
            can_send_polls: false,
            can_send_other_messages: false,
            can_add_web_page_previews: false,
            can_change_info: false,
            can_invite_users: false,
            can_pin_messages: false,
        }
    }
}

/// Body of the restrict operation.
#[derive(Debug)]
pub struct RestrictChatMemberBody {
    pub chat_id: BodyChatId,
    pub user_id: u64,
    pub permissions: ChatPermissions,
    pub until_date: Option<i64>,
}

/// Body of the callback-query answer operation.
#[derive(Debug)]
pub struct AnswerCallbackQueryBody {
    pub callback_query_id: String,
    pub text: Option<String>,
    pub show_alert: Option<bool>,
}

} // verus!
