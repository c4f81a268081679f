//! The response log: an append-only, action-keyed record of every
//! operation the mock server performed, for test assertions.

use vstd::prelude::*;

use crate::message::Message;
use crate::requests::{
    AnswerCallbackQueryBody, BanChatMemberBody, CopyMessageBody, DeleteMessageBody,
    EditMessageCaptionBody, EditMessageReplyMarkupBody, EditMessageTextBody, ForwardMessageBody,
    PinChatMessageBody, RestrictChatMemberBody, SendMediaGroupBody, SendMediaMessageBody,
    SendMessageDiceBody, SendMessageTextBody, UnbanChatMemberBody, UnpinAllChatMessagesBody,
    UnpinChatMessageBody,
};

verus! {

/// A sent text message paired with the request that produced it.
#[derive(Debug)]
pub struct SentMessageText {
    pub message: Message,
    pub bot_request: SendMessageTextBody,
}

/// A sent media message paired with the request that produced it.
#[derive(Debug)]
pub struct SentMediaMessage {
    pub message: Message,
    pub bot_request: SendMediaMessageBody,
}

/// A sent dice message paired with the request that produced it.
#[derive(Debug)]
pub struct SentMessageDice {
    pub message: Message,
    pub bot_request: SendMessageDiceBody,
}

/// The messages a media-group request produced, with the request.
#[derive(Debug)]
pub struct SentMediaGroup {
    pub messages: Vec<Message>,
    pub bot_request: SendMediaGroupBody,
}

/// A forwarded message paired with the request that produced it.
#[derive(Debug)]
pub struct ForwardedMessage {
    pub message: Message,
    pub bot_request: ForwardMessageBody,
}

/// The id of a copied message paired with the request.
#[derive(Debug)]
pub struct CopiedMessage {
    pub message_id: i32,
    pub bot_request: CopyMessageBody,
}

/// An edited message (new text) paired with the request.
#[derive(Debug)]
pub struct EditedMessageText {
    pub message: Message,
    pub bot_request: EditMessageTextBody,
}

/// An edited message (new caption) paired with the request.
#[derive(Debug)]
pub struct EditedMessageCaption {
    pub message: Message,
    pub bot_request: EditMessageCaptionBody,
}

/// An edited message (new reply markup) paired with the request.
#[derive(Debug)]
pub struct EditedMessageReplyMarkup {
    pub message: Message,
    pub bot_request: EditMessageReplyMarkupBody,
}

/// A deleted message paired with the request; the message stays in the
/// log although it left the store.
#[derive(Debug)]
pub struct DeletedMessage {
    pub message: Message,
    pub bot_request: DeleteMessageBody,
}

/// Every action performed, ordered per action kind in call order.
/// `sent_messages` additionally collects every stored message across
/// the send-like operations, in creation order.
#[derive(Debug)]
pub struct Responses {
    pub sent_messages: Vec<Message>,
    pub sent_messages_text: Vec<SentMessageText>,
    pub sent_messages_photo: Vec<SentMediaMessage>,
    pub sent_messages_video: Vec<SentMediaMessage>,
    pub sent_messages_audio: Vec<SentMediaMessage>,
    pub sent_messages_voice: Vec<SentMediaMessage>,
    pub sent_messages_document: Vec<SentMediaMessage>,
    pub sent_messages_animation: Vec<SentMediaMessage>,
    pub sent_messages_video_note: Vec<SentMediaMessage>,
    pub sent_messages_dice: Vec<SentMessageDice>,
    pub sent_media_group: Vec<SentMediaGroup>,
    pub forwarded_messages: Vec<ForwardedMessage>,
    pub copied_messages: Vec<CopiedMessage>,
    pub edited_messages_text: Vec<EditedMessageText>,
    pub edited_messages_caption: Vec<EditedMessageCaption>,
    pub edited_messages_reply_markup: Vec<EditedMessageReplyMarkup>,
    pub deleted_messages: Vec<DeletedMessage>,
    pub pinned_chat_messages: Vec<PinChatMessageBody>,
    pub unpinned_chat_messages: Vec<UnpinChatMessageBody>,
    pub unpinned_all_chat_messages: Vec<UnpinAllChatMessagesBody>,
    pub banned_chat_members: Vec<BanChatMemberBody>,
    pub unbanned_chat_members: Vec<UnbanChatMemberBody>,
    pub restricted_chat_members: Vec<RestrictChatMemberBody>,
    pub answered_callback_queries: Vec<AnswerCallbackQueryBody>,
}

/// All per-kind records empty.
pub open spec fn responses_empty(r: Responses) -> bool {
    &&& r.sent_messages@.len() == 0
    &&& r.sent_messages_text@.len() == 0
    &&& r.sent_messages_photo@.len() == 0
    &&& r.sent_messages_video@.len() == 0
    &&& r.sent_messages_audio@.len() == 0
    &&& r.sent_messages_voice@.len() == 0
    &&& r.sent_messages_document@.len() == 0
    &&& r.sent_messages_animation@.len() == 0
    &&& r.sent_messages_video_note@.len() == 0
    &&& r.sent_messages_dice@.len() == 0
    &&& r.sent_media_group@.len() == 0
    &&& r.forwarded_messages@.len() == 0
    &&& r.copied_messages@.len() == 0
    &&& r.edited_messages_text@.len() == 0
    &&& r.edited_messages_caption@.len() == 0
    &&& r.edited_messages_reply_markup@.len() == 0
    &&& r.deleted_messages@.len() == 0
    &&& r.pinned_chat_messages@.len() == 0
    &&& r.unpinned_chat_messages@.len() == 0
    &&& r.unpinned_all_chat_messages@.len() == 0
    &&& r.banned_chat_members@.len() == 0
    &&& r.unbanned_chat_members@.len() == 0
    &&& r.restricted_chat_members@.len() == 0
    &&& r.answered_callback_queries@.len() == 0
}

impl Responses {
    /// An empty log.
    pub fn new() -> (r: Responses)
        ensures
            responses_empty(r),
    {
        Responses {
            sent_messages: Vec::new(),
            sent_messages_text: Vec::new(),
            sent_messages_photo: Vec::new(),
            sent_messages_video: Vec::new(),
            sent_messages_audio: Vec::new(),
            sent_messages_voice: Vec::new(),
            sent_messages_document: Vec::new(),
            sent_messages_animation: Vec::new(),
            sent_messages_video_note: Vec::new(),
            sent_messages_dice: Vec::new(),
            sent_media_group: Vec::new(),
            forwarded_messages: Vec::new(),
            copied_messages: Vec::new(),
            edited_messages_text: Vec::new(),
            edited_messages_caption: Vec::new(),
            edited_messages_reply_markup: Vec::new(),
            deleted_messages: Vec::new(),
            pinned_chat_messages: Vec::new(),
            unpinned_chat_messages: Vec::new(),
            unpinned_all_chat_messages: Vec::new(),
            banned_chat_members: Vec::new(),
            unbanned_chat_members: Vec::new(),
            restricted_chat_members: Vec::new(),
            answered_callback_queries: Vec::new(),
        }
    }

    /// The most recently sent message, if any was sent.
    pub fn last_sent_message(&self) -> (r: Option<&Message>)
        ensures
            r is Some <==> self.sent_messages@.len() > 0,
            r matches Some(m) ==> *m == self.sent_messages@.last(),
    {
        let n = self.sent_messages.len();
        if n == 0 {
            None
        } else {
            Some(&self.sent_messages[n - 1])
        }
    }

    /// The sent message at the given position, in creation order.
    pub fn sent_message_at(&self, i: usize) -> (r: Option<&Message>)
        ensures
            r is Some <==> i < self.sent_messages@.len(),
            r matches Some(m) ==> *m == self.sent_messages@[i as int],
    {
        if i < self.sent_messages.len() {
            Some(&self.sent_messages[i])
        } else {
            None
        }
    }
}

} // verus!
