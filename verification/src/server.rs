//! The action handlers: one per mock operation.  Each validates the ids
//! the request references, mutates the store, appends to the response
//! log, and returns a platform-shaped result.

use vstd::prelude::*;

use crate::message::{MediaKind, MediaKindV, Message, MessageV, message_view};
use crate::outside::{draw_in_range, now_timestamp};
use crate::requests::{
    AnswerCallbackQueryBody, BanChatMemberBody, DeleteMessageBody, PinChatMessageBody,
    RestrictChatMemberBody, SendMediaMessageBody, SendMessageTextBody, UnbanChatMemberBody,
    UnpinAllChatMessagesBody,
    UnpinChatMessageBody, chat_of,
};
use crate::responses::{Responses, SentMessageText, responses_empty};
use crate::store::{MessageStorage, contains_id, index_of_id};
use crate::types::{
    Chat, ChatKind, InlineKeyboardButton, InlineKeyboardMarkup, MessageEntity, ReplyMarkup, User,
    clone_entities,
};

verus! {

/// A caller error, surfaced through the normal return path as the
/// platform's bad-request shape would be.
#[derive(Clone, Copy, Debug, PartialEq, Eq, Structural)]
pub enum ApiError {
    /// A referenced message id names nothing in the store.
    MessageNotFound,
    /// The source of a forward carries protected content.
    MessageHasProtectedContent,
    /// An edit targeted a payload kind without the edited field.
    MessageCannotBeEdited,
}

impl ApiError {
    /// The failure description, as the platform would word it.
    pub fn description(&self) -> (r: String)
        ensures
            *self == ApiError::MessageNotFound ==> r@ == "message not found"@,
            *self == ApiError::MessageHasProtectedContent ==> r@
                == "message has protected content"@,
            *self == ApiError::MessageCannotBeEdited ==> r@ == "message can't be edited"@,
    {
        match self {
            ApiError::MessageNotFound => "message not found".to_owned(),
            ApiError::MessageHasProtectedContent => "message has protected content".to_owned(),
            ApiError::MessageCannotBeEdited => "message can't be edited".to_owned(),
        }
    }
}

/// The entities of a request, an empty sequence when none were given.
pub open spec fn spec_entities(e: Option<Vec<MessageEntity>>) -> Seq<MessageEntity> {
    match e {
        Some(v) => v@,
        None => Seq::empty(),
    }
}

/// The inline keyboard a request's markup carries; any other markup
/// kind is dropped, as the platform drops it from stored messages.
pub open spec fn markup_kb(m: Option<ReplyMarkup>) -> Option<Seq<Seq<InlineKeyboardButton>>> {
    match m {
        Some(ReplyMarkup::InlineKeyboard(k)) => Some(k.deep_view()),
        _ => None,
    }
}

/// A `false` default for an absent flag.
pub open spec fn flag_or_false(b: Option<bool>) -> bool {
    match b {
        Some(x) => x,
        None => false,
    }
}

/// The private chat a plain numeric chat id names.
pub open spec fn spec_private_chat(id: i64) -> Chat {
    Chat { id, kind: ChatKind::Private, username: None, first_name: None, title: None }
}

/// Whether the requested reply target (if any) exists in the store.
pub open spec fn reply_ok(s: Seq<MessageV>, rid: Option<i32>) -> bool {
    match rid {
        Some(id) => contains_id(s, id),
        None => true,
    }
}

/// The reply target a request names, where it exists.
pub open spec fn spec_reply(s: Seq<MessageV>, rid: Option<i32>) -> Option<MessageV> {
    match rid {
        Some(id) => if contains_id(s, id) {
            Some(s[index_of_id(s, id)])
        } else {
            None
        },
        None => None,
    }
}

/// The message a send-like operation stores: fresh id, the requested
/// chat, sent by the bot, nothing forwarded or edited.
pub open spec fn spec_sent_view(
    chat: Chat,
    bot: User,
    id: i32,
    date: i64,
    reply: Option<MessageV>,
    markup: Option<Seq<Seq<InlineKeyboardButton>>>,
    protected: bool,
    media_kind: MediaKindV,
) -> MessageV {
    MessageV {
        id,
        thread_id: None,
        date,
        chat,
        via_bot: None,
        from: Some(bot),
        sender_chat: None,
        author_signature: None,
        forward_origin: None,
        reply_to_message: match reply {
            Some(v) => Some(Box::new(v)),
            None => None,
        },
        edit_date: None,
        reply_markup: markup,
        is_topic_message: false,
        is_automatic_forward: false,
        has_protected_content: protected,
        media_kind,
    }
}

/// Extracts the inline keyboard of a request's markup, if that is what
/// it holds.
pub fn keyboard_of(m: &Option<ReplyMarkup>) -> (r: Option<InlineKeyboardMarkup>)
    ensures
        match r {
            Some(k) => markup_kb(*m) == Some(k.deep_view()),
            None => markup_kb(*m) is None,
        },
{
    match m {
        Some(ReplyMarkup::InlineKeyboard(k)) => Some(k.clone()),
        _ => None,
    }
}

/// The whole mock server: store, log, and the acting bot identity, as
/// one value.  Callers that handle requests concurrently put it behind
/// one lock and hold that lock for the duration of a handler call.
pub struct ServerState {
    pub store: MessageStorage,
    pub responses: Responses,
    pub bot: User,
}

impl ServerState {
    /// Well-formedness of the whole server: the store invariant.
    pub open spec fn wf(&self) -> bool {
        self.store.wf()
    }

    /// A fresh server acting as the given bot: empty store, empty log.
    pub fn new(bot: User) -> (r: ServerState)
        ensures
            r.wf(),
            r.store.msgs() == Seq::<MessageV>::empty(),
            r.store.max_id == 0,
            responses_empty(r.responses),
            r.bot == bot,
    {
        ServerState { store: MessageStorage::new(), responses: Responses::new(), bot }
    }

    /// Stores a freshly built message and records it among the sent
    /// messages; every send-like handler funnels through here.
    fn send_stored(&mut self, msg: Message) -> (m: Message)
        requires
            old(self).wf(),
            old(self).store.max_id < i32::MAX,
        ensures
            final(self).wf(),
            final(self).bot == old(self).bot,
            m.deep_view() == (MessageV {
                id: (old(self).store.max_id + 1) as i32,
                ..msg.deep_view()
            }),
            final(self).store.max_id == old(self).store.max_id + 1,
            final(self).store.msgs() == old(self).store.msgs().push(m.deep_view()),
            final(self).responses.sent_messages.deep_view() == old(self).responses.sent_messages.deep_view().push(m.deep_view()),
            final(self).responses == (Responses {
                sent_messages: final(self).responses.sent_messages,
                ..old(self).responses
            }),
    {
        let m = self.store.add_message(msg);
        let m2 = m.clone();
        self.responses.sent_messages.push(m2);
        proof {
            assert(self.responses.sent_messages.deep_view() =~= old(self).responses.sent_messages.deep_view().push(m.deep_view()));
        }
        m
    }

    /// Send: allocates a new id, sets the chat from the request,
    /// attaches the reply target if an id was given (failing when that
    /// id names nothing), and keeps the reply markup only when it is an
    /// inline keyboard.
    pub fn send_message(&mut self, body: SendMessageTextBody) -> (r: Result<Message, ApiError>)
        requires
            old(self).wf(),
            old(self).store.max_id < i32::MAX,
        ensures
            final(self).wf(),
            final(self).bot == old(self).bot,
            r is Ok <==> reply_ok(old(self).store.msgs(), body.reply_to_message_id),
            r is Err ==> r == Result::<Message, ApiError>::Err(ApiError::MessageNotFound)
                && *final(self) == *old(self),
            r matches Ok(m) ==> {
                &&& m.deep_view() == spec_sent_view(
                    spec_private_chat(body.chat_id),
                    old(self).bot,
                    (old(self).store.max_id + 1) as i32,
                    m.deep_view().date,
                    spec_reply(old(self).store.msgs(), body.reply_to_message_id),
                    markup_kb(body.reply_markup),
                    flag_or_false(body.protect_content),
                    MediaKindV::Text { text: body.text, entities: spec_entities(body.entities) },
                )
                &&& final(self).store.max_id == old(self).store.max_id + 1
                &&& final(self).store.msgs() == old(self).store.msgs().push(m.deep_view())
                &&& final(self).responses.sent_messages.deep_view() == old(self).responses.sent_messages.deep_view().push(m.deep_view())
                &&& final(self).responses.sent_messages_text@.len() == old(self).responses.sent_messages_text@.len() + 1
                &&& final(self).responses.sent_messages_text@.drop_last() == old(self).responses.sent_messages_text@
                &&& final(self).responses.sent_messages_text@.last().message.deep_view()
                    == m.deep_view()
                &&& final(self).responses.sent_messages_text@.last().bot_request == body
                &&& final(self).responses == (Responses {
                    sent_messages: final(self).responses.sent_messages,
                    sent_messages_text: final(self).responses.sent_messages_text,
                    ..old(self).responses
                })
            },
    {
        let reply: Option<Box<Message>> = match body.reply_to_message_id {
            Some(rid) => {
                match self.store.get_message(rid) {
                    Some(m) => Some(Box::new(m.clone())),
                    None => {
                        return Err(ApiError::MessageNotFound);
                    },
                }
            },
            None => None,
        };
        let markup = keyboard_of(&body.reply_markup);
        let date = now_timestamp();
        let msg = Message {
            id: 0,
            thread_id: None,
            date,
            chat: Chat {
                id: body.chat_id,
                kind: ChatKind::Private,
                username: None,
                first_name: None,
                title: None,
            },
            via_bot: None,
            from: Some(self.bot.clone()),
            sender_chat: None,
            author_signature: None,
            forward_origin: None,
            reply_to_message: reply,
            edit_date: None,
            reply_markup: markup,
            is_topic_message: false,
            is_automatic_forward: false,
            has_protected_content: match body.protect_content {
                Some(b) => b,
                None => false,
            },
            media_kind: MediaKind::Text {
                text: body.text.clone(),
                entities: match &body.entities {
                    Some(v) => clone_entities(v),
                    None => Vec::new(),
                },
            },
        };
        proof {
            assert(msg.deep_view() =~= spec_sent_view(
                spec_private_chat(body.chat_id),
                old(self).bot,
                msg.deep_view().id,
                date,
                spec_reply(old(self).store.msgs(), body.reply_to_message_id),
                markup_kb(body.reply_markup),
                flag_or_false(body.protect_content),
                MediaKindV::Text { text: body.text, entities: spec_entities(body.entities) },
            ));
        }
        let m = self.send_stored(msg);
        let m2 = m.clone();
        self.responses.sent_messages_text.push(SentMessageText { message: m2, bot_request: body });
        Ok(m)
    }

    /// Delete: fails when the message is unknown; removes it from the
    /// store while the log keeps it.
    pub fn delete_message(&mut self, body: DeleteMessageBody) -> (r: Result<bool, ApiError>)
        requires
            old(self).wf(),
        ensures
            final(self).wf(),
            final(self).bot == old(self).bot,
            r is Ok <==> contains_id(old(self).store.msgs(), body.message_id),
            r is Err ==> r == Result::<bool, ApiError>::Err(ApiError::MessageNotFound) && *final(self) == *old(self),
            r is Ok ==> {
                &&& r == Result::<bool, ApiError>::Ok(true)
                &&& final(self).store.max_id == old(self).store.max_id
                &&& final(self).store.msgs() == old(self).store.msgs().remove(
                    index_of_id(old(self).store.msgs(), body.message_id),
                )
                &&& final(self).responses.deleted_messages@.len() == old(self).responses.deleted_messages@.len() + 1
                &&& final(self).responses.deleted_messages@.drop_last() == old(self).responses.deleted_messages@
                &&& final(self).responses.deleted_messages@.last().message.deep_view() == old(self).store.msgs()[index_of_id(old(self).store.msgs(), body.message_id)]
                &&& final(self).responses.deleted_messages@.last().bot_request == body
                &&& final(self).responses == (Responses {
                    deleted_messages: final(self).responses.deleted_messages,
                    ..old(self).responses
                })
            },
    {
        match self.store.delete_message(body.message_id) {
            Some(removed) => {
                self.responses.deleted_messages.push(
                    crate::responses::DeletedMessage { message: removed, bot_request: body },
                );
                Ok(true)
            },
            None => Err(ApiError::MessageNotFound),
        }
    }

    /// Pin: validates that the message exists; no store mutation, only
    /// a log record.
    pub fn pin_chat_message(&mut self, body: PinChatMessageBody) -> (r: Result<bool, ApiError>)
        requires
            old(self).wf(),
        ensures
            final(self).wf(),
            final(self).bot == old(self).bot,
            final(self).store == old(self).store,
            r is Ok <==> contains_id(old(self).store.msgs(), body.message_id),
            r is Err ==> r == Result::<bool, ApiError>::Err(ApiError::MessageNotFound) && *final(self) == *old(self),
            r is Ok ==> {
                &&& r == Result::<bool, ApiError>::Ok(true)
                &&& final(self).responses.pinned_chat_messages@ == old(self).responses.pinned_chat_messages@.push(body)
                &&& final(self).responses == (Responses {
                    pinned_chat_messages: final(self).responses.pinned_chat_messages,
                    ..old(self).responses
                })
            },
    {
        if self.store.get_message(body.message_id).is_none() {
            return Err(ApiError::MessageNotFound);
        }
        self.responses.pinned_chat_messages.push(body);
        Ok(true)
    }

    /// Unpin: validates the message when one is named; only a log
    /// record.
    pub fn unpin_chat_message(&mut self, body: UnpinChatMessageBody) -> (r: Result<bool, ApiError>)
        requires
            old(self).wf(),
        ensures
            final(self).wf(),
            final(self).bot == old(self).bot,
            final(self).store == old(self).store,
            r is Ok <==> reply_ok(old(self).store.msgs(), body.message_id),
            r is Err ==> r == Result::<bool, ApiError>::Err(ApiError::MessageNotFound) && *final(self) == *old(self),
            r is Ok ==> {
                &&& r == Result::<bool, ApiError>::Ok(true)
                &&& final(self).responses.unpinned_chat_messages@ == old(self).responses.unpinned_chat_messages@.push(body)
                &&& final(self).responses == (Responses {
                    unpinned_chat_messages: final(self).responses.unpinned_chat_messages,
                    ..old(self).responses
                })
            },
    {
        match body.message_id {
            Some(id) => {
                if self.store.get_message(id).is_none() {
                    return Err(ApiError::MessageNotFound);
                }
            },
            None => {},
        }
        self.responses.unpinned_chat_messages.push(body);
        Ok(true)
    }

    /// Unpin-all: only a log record.
    pub fn unpin_all_chat_messages(&mut self, body: UnpinAllChatMessagesBody) -> (r: Result<
        bool,
        ApiError,
    >)
        requires
            old(self).wf(),
        ensures
            final(self).wf(),
            final(self).bot == old(self).bot,
            final(self).store == old(self).store,
            r == Result::<bool, ApiError>::Ok(true),
            final(self).responses.unpinned_all_chat_messages@ == old(self).responses.unpinned_all_chat_messages@.push(body),
            final(self).responses == (Responses {
                unpinned_all_chat_messages: final(self).responses.unpinned_all_chat_messages,
                ..old(self).responses
            }),
    {
        self.responses.unpinned_all_chat_messages.push(body);
        Ok(true)
    }

    /// Ban: no store mutation, only a log record.
    pub fn ban_chat_member(&mut self, body: BanChatMemberBody) -> (r: Result<bool, ApiError>)
        requires
            old(self).wf(),
        ensures
            final(self).wf(),
            final(self).bot == old(self).bot,
            final(self).store == old(self).store,
            r == Result::<bool, ApiError>::Ok(true),
            final(self).responses.banned_chat_members@ == old(self).responses.banned_chat_members@.push(body),
            final(self).responses == (Responses {
                banned_chat_members: final(self).responses.banned_chat_members,
                ..old(self).responses
            }),
    {
        self.responses.banned_chat_members.push(body);
        Ok(true)
    }

    /// Unban: no store mutation, only a log record.
    pub fn unban_chat_member(&mut self, body: UnbanChatMemberBody) -> (r: Result<bool, ApiError>)
        requires
            old(self).wf(),
        ensures
            final(self).wf(),
            final(self).bot == old(self).bot,
            final(self).store == old(self).store,
            r == Result::<bool, ApiError>::Ok(true),
            final(self).responses.unbanned_chat_members@ == old(self).responses.unbanned_chat_members@.push(body),
            final(self).responses == (Responses {
                unbanned_chat_members: final(self).responses.unbanned_chat_members,
                ..old(self).responses
            }),
    {
        self.responses.unbanned_chat_members.push(body);
        Ok(true)
    }

    /// Restrict: no store mutation, only a log record.
    pub fn restrict_chat_member(&mut self, body: RestrictChatMemberBody) -> (r: Result<
        bool,
        ApiError,
    >)
        requires
            old(self).wf(),
        ensures
            final(self).wf(),
            final(self).bot == old(self).bot,
            final(self).store == old(self).store,
            r == Result::<bool, ApiError>::Ok(true),
            final(self).responses.restricted_chat_members@ == old(self).responses.restricted_chat_members@.push(body),
            final(self).responses == (Responses {
                restricted_chat_members: final(self).responses.restricted_chat_members,
                ..old(self).responses
            }),
    {
        self.responses.restricted_chat_members.push(body);
        Ok(true)
    }

    /// Callback-query answer: only a log record.
    pub fn answer_callback_query(&mut self, body: AnswerCallbackQueryBody) -> (r: Result<
        bool,
        ApiError,
    >)
        requires
            old(self).wf(),
        ensures
            final(self).wf(),
            final(self).bot == old(self).bot,
            final(self).store == old(self).store,
            r == Result::<bool, ApiError>::Ok(true),
            final(self).responses.answered_callback_queries@ == old(self).responses.answered_callback_queries@.push(body),
            final(self).responses == (Responses {
                answered_callback_queries: final(self).responses.answered_callback_queries,
                ..old(self).responses
            }),
    {
        self.responses.answered_callback_queries.push(body);
        Ok(true)
    }
}


/// The stored file identity a media upload gets: the uploaded name as
/// both identifier and unique identifier, with a placeholder size (the
/// mock does not model file storage).
pub open spec fn spec_file_meta(file_name: String) -> crate::types::FileMeta {
    crate::types::FileMeta { id: file_name, unique_id: file_name, size: 100 }
}

/// The payload a photo send stores: one 100-by-100 rendition.
pub open spec fn spec_photo_media(body: SendMediaMessageBody) -> MediaKindV {
    MediaKindV::Photo {
        caption: body.caption,
        caption_entities: spec_entities(body.caption_entities),
        media_group_id: None,
        has_media_spoiler: false,
        photo: seq![
            crate::types::PhotoSize { file: spec_file_meta(body.file_name), width: 100, height: 100 }
        ],
    }
}

/// The payload a video send stores.
pub open spec fn spec_video_media(body: SendMediaMessageBody) -> MediaKindV {
    MediaKindV::Video {
        caption: body.caption,
        caption_entities: spec_entities(body.caption_entities),
        media_group_id: None,
        has_media_spoiler: false,
        video: crate::types::Video {
            file: spec_file_meta(body.file_name),
            width: 100,
            height: 100,
            duration: 100,
            thumb: None,
            file_name: Some(body.file_name),
            mime_type: None,
        },
    }
}

/// The payload an audio send stores.
pub open spec fn spec_audio_media(body: SendMediaMessageBody) -> MediaKindV {
    MediaKindV::Audio {
        caption: body.caption,
        caption_entities: spec_entities(body.caption_entities),
        media_group_id: None,
        audio: crate::types::Audio {
            file: spec_file_meta(body.file_name),
            duration: 100,
            performer: None,
            title: None,
            thumb: None,
            file_name: Some(body.file_name),
            mime_type: None,
        },
    }
}

/// The payload a voice send stores.
pub open spec fn spec_voice_media(body: SendMediaMessageBody) -> MediaKindV {
    MediaKindV::Voice {
        caption: body.caption,
        caption_entities: spec_entities(body.caption_entities),
        voice: crate::types::Voice {
            file: spec_file_meta(body.file_name),
            duration: 100,
            mime_type: None,
        },
    }
}

/// The payload a document send stores.
pub open spec fn spec_document_media(body: SendMediaMessageBody) -> MediaKindV {
    MediaKindV::Document {
        caption: body.caption,
        caption_entities: spec_entities(body.caption_entities),
        media_group_id: None,
        document: crate::types::Document {
            file: spec_file_meta(body.file_name),
            thumb: None,
            file_name: Some(body.file_name),
            mime_type: None,
        },
    }
}

/// The payload an animation send stores.
pub open spec fn spec_animation_media(body: SendMediaMessageBody) -> MediaKindV {
    MediaKindV::Animation {
        caption: body.caption,
        caption_entities: spec_entities(body.caption_entities),
        has_media_spoiler: false,
        animation: crate::types::Animation {
            file: spec_file_meta(body.file_name),
            width: 100,
            height: 100,
            duration: 100,
            thumb: None,
            file_name: Some(body.file_name),
            mime_type: None,
        },
    }
}

/// The payload a video-note send stores.
pub open spec fn spec_video_note_media(body: SendMediaMessageBody) -> MediaKindV {
    MediaKindV::VideoNote {
        video_note: crate::types::VideoNote {
            file: spec_file_meta(body.file_name),
            length: 100,
            duration: 100,
            thumb: None,
        },
    }
}

/// The view behind an optional boxed reply target.
pub open spec fn opt_box_view(r: Option<Box<Message>>) -> Option<MessageV> {
    match r {
        Some(b) => Some(message_view(*b)),
        None => None,
    }
}

/// The view behind an optional inline keyboard.
pub open spec fn opt_markup_view(m: Option<InlineKeyboardMarkup>) -> Option<
    Seq<Seq<InlineKeyboardButton>>,
> {
    match m {
        Some(k) => Some(k.deep_view()),
        None => None,
    }
}

/// The die faces the platform gives each emoji: six for the die, the
/// darts and the bowling ball, five for the two balls, sixty-four for
/// the slot machine.
pub open spec fn dice_faces(e: crate::types::DiceEmoji) -> i32 {
    match e {
        crate::types::DiceEmoji::Dice => 6,
        crate::types::DiceEmoji::Darts => 6,
        crate::types::DiceEmoji::Basketball => 5,
        crate::types::DiceEmoji::Football => 5,
        crate::types::DiceEmoji::Bowling => 6,
        crate::types::DiceEmoji::SlotMachine => 64,
    }
}

/// The emoji a dice request means: the die when none was given.
pub open spec fn effective_emoji(e: Option<crate::types::DiceEmoji>) -> crate::types::DiceEmoji {
    match e {
        Some(em) => em,
        None => crate::types::DiceEmoji::Dice,
    }
}

/// The rolled value a stored message carries; zero for any other
/// payload kind.
pub open spec fn dice_value_of(m: MessageV) -> int {
    match m.media_kind {
        MediaKindV::Dice { dice } => dice.value as int,
        _ => 0,
    }
}

/// How one successful media send relates the old and the new server
/// state: the stored message, the master sent list, and the per-kind
/// record list.
pub open spec fn sent_media_ok(
    old_s: ServerState,
    new_s: ServerState,
    body: SendMediaMessageBody,
    m: Message,
    media_kind: MediaKindV,
    recs_old: Seq<crate::responses::SentMediaMessage>,
    recs_new: Seq<crate::responses::SentMediaMessage>,
) -> bool {
    &&& m.deep_view() == spec_sent_view(
        chat_of(body.chat_id),
        old_s.bot,
        (old_s.store.max_id + 1) as i32,
        m.deep_view().date,
        spec_reply(old_s.store.msgs(), body.reply_to_message_id),
        markup_kb(body.reply_markup),
        flag_or_false(body.protect_content),
        media_kind,
    )
    &&& new_s.store.max_id == old_s.store.max_id + 1
    &&& new_s.store.msgs() == old_s.store.msgs().push(m.deep_view())
    &&& new_s.responses.sent_messages.deep_view() == old_s.responses.sent_messages.deep_view().push(
        m.deep_view(),
    )
    &&& recs_new.len() == recs_old.len() + 1
    &&& recs_new.drop_last() == recs_old
    &&& recs_new.last().message.deep_view() == m.deep_view()
    &&& recs_new.last().bot_request == body
}

impl ServerState {
    /// Resolves the reply target a request names, failing when the
    /// named message is unknown.
    fn lookup_reply(&self, rid: Option<i32>) -> (r: Result<Option<Box<Message>>, ApiError>)
        requires
            self.wf(),
        ensures
            r is Ok <==> reply_ok(self.store.msgs(), rid),
            r matches Ok(v) ==> opt_box_view(v) == spec_reply(self.store.msgs(), rid),
            r is Err ==> r == Result::<Option<Box<Message>>, ApiError>::Err(
                ApiError::MessageNotFound,
            ),
    {
        match rid {
            Some(id) => {
                match self.store.get_message(id) {
                    Some(m) => Ok(Some(Box::new(m.clone()))),
                    None => Err(ApiError::MessageNotFound),
                }
            },
            None => Ok(None),
        }
    }

    /// Assembles the message a send-like operation will store; the date
    /// comes from the clock and the id from the store.
    fn build_sent(
        &self,
        chat: Chat,
        reply: Option<Box<Message>>,
        markup: Option<InlineKeyboardMarkup>,
        protected: bool,
        media_kind: MediaKind,
    ) -> (msg: Message)
        ensures
            msg.deep_view() == spec_sent_view(
                chat,
                self.bot,
                0,
                msg.deep_view().date,
                opt_box_view(reply),
                opt_markup_view(markup),
                protected,
                media_kind.deep_view(),
            ),
    {
        let date = now_timestamp();
        Message {
            id: 0,
            thread_id: None,
            date,
            chat,
            via_bot: None,
            from: Some(self.bot.clone()),
            sender_chat: None,
            author_signature: None,
            forward_origin: None,
            reply_to_message: reply,
            edit_date: None,
            reply_markup: markup,
            is_topic_message: false,
            is_automatic_forward: false,
            has_protected_content: protected,
            media_kind,
        }
    }

    /// The caption data of a media request, cloned for the stored
    /// payload.
    fn media_caption_parts(body: &SendMediaMessageBody) -> (r: (
        Option<String>,
        Vec<MessageEntity>,
    ))
        ensures
            r.0 == body.caption,
            r.1@ == spec_entities(body.caption_entities),
    {
        let caption = crate::types::clone_opt_string(&body.caption);
        let entities = match &body.caption_entities {
            Some(v) => clone_entities(v),
            None => Vec::new(),
        };
        proof {
            assert(entities@ =~= spec_entities(body.caption_entities));
        }
        (caption, entities)
    }

    /// Send photo: one stored photo rendition under the uploaded name.
    pub fn send_photo(&mut self, body: SendMediaMessageBody) -> (r: Result<Message, ApiError>)
        requires
            old(self).wf(),
            old(self).store.max_id < i32::MAX,
        ensures
            final(self).wf(),
            final(self).bot == old(self).bot,
            r is Ok <==> reply_ok(old(self).store.msgs(), body.reply_to_message_id),
            r is Err ==> r == Result::<Message, ApiError>::Err(ApiError::MessageNotFound)
                && *final(self) == *old(self),
            r matches Ok(m) ==> {
                &&& sent_media_ok(
                    *old(self),
                    *final(self),
                    body,
                    m,
                    spec_photo_media(body),
                    old(self).responses.sent_messages_photo@,
                    final(self).responses.sent_messages_photo@,
                )
                &&& final(self).responses == (Responses {
                    sent_messages: final(self).responses.sent_messages,
                    sent_messages_photo: final(self).responses.sent_messages_photo,
                    ..old(self).responses
                })
            },
    {
        let reply = match self.lookup_reply(body.reply_to_message_id) {
            Ok(v) => v,
            Err(e) => {
                return Err(e);
            },
        };
        let markup = keyboard_of(&body.reply_markup);
        let (caption, entities) = Self::media_caption_parts(&body);
        let mut photo: Vec<crate::types::PhotoSize> = Vec::new();
        photo.push(
            crate::types::PhotoSize {
                file: crate::types::FileMeta {
                    id: body.file_name.clone(),
                    unique_id: body.file_name.clone(),
                    size: 100,
                },
                width: 100,
                height: 100,
            },
        );
        let media_kind = MediaKind::Photo {
            caption,
            caption_entities: entities,
            media_group_id: None,
            has_media_spoiler: false,
            photo,
        };
        proof {
            assert(media_kind.deep_view() =~= spec_photo_media(body));
        }
        let protected = match body.protect_content {
            Some(b) => b,
            None => false,
        };
        let msg = self.build_sent(body.chat_id.chat(), reply, markup, protected, media_kind);
        let m = self.send_stored(msg);
        proof {
            assert(m.deep_view() =~= spec_sent_view(
                chat_of(body.chat_id),
                old(self).bot,
                (old(self).store.max_id + 1) as i32,
                m.deep_view().date,
                spec_reply(old(self).store.msgs(), body.reply_to_message_id),
                markup_kb(body.reply_markup),
                flag_or_false(body.protect_content),
                spec_photo_media(body),
            ));
        }
        let m2 = m.clone();
        self.responses.sent_messages_photo.push(
            crate::responses::SentMediaMessage { message: m2, bot_request: body },
        );
        proof {
            assert(self.responses.sent_messages_photo@.drop_last() =~= old(self).responses.sent_messages_photo@);
        }
        Ok(m)
    }

    /// Send video.
    pub fn send_video(&mut self, body: SendMediaMessageBody) -> (r: Result<Message, ApiError>)
        requires
            old(self).wf(),
            old(self).store.max_id < i32::MAX,
        ensures
            final(self).wf(),
            final(self).bot == old(self).bot,
            r is Ok <==> reply_ok(old(self).store.msgs(), body.reply_to_message_id),
            r is Err ==> r == Result::<Message, ApiError>::Err(ApiError::MessageNotFound)
                && *final(self) == *old(self),
            r matches Ok(m) ==> {
                &&& sent_media_ok(
                    *old(self),
                    *final(self),
                    body,
                    m,
                    spec_video_media(body),
                    old(self).responses.sent_messages_video@,
                    final(self).responses.sent_messages_video@,
                )
                &&& final(self).responses == (Responses {
                    sent_messages: final(self).responses.sent_messages,
                    sent_messages_video: final(self).responses.sent_messages_video,
                    ..old(self).responses
                })
            },
    {
        let reply = match self.lookup_reply(body.reply_to_message_id) {
            Ok(v) => v,
            Err(e) => {
                return Err(e);
            },
        };
        let markup = keyboard_of(&body.reply_markup);
        let (caption, entities) = Self::media_caption_parts(&body);
        let media_kind = MediaKind::Video {
            caption,
            caption_entities: entities,
            media_group_id: None,
            has_media_spoiler: false,
            video: crate::types::Video {
                file: crate::types::FileMeta {
                    id: body.file_name.clone(),
                    unique_id: body.file_name.clone(),
                    size: 100,
                },
                width: 100,
                height: 100,
                duration: 100,
                thumb: None,
                file_name: Some(body.file_name.clone()),
                mime_type: None,
            },
        };
        proof {
            assert(media_kind.deep_view() =~= spec_video_media(body));
        }
        let protected = match body.protect_content {
            Some(b) => b,
            None => false,
        };
        let msg = self.build_sent(body.chat_id.chat(), reply, markup, protected, media_kind);
        let m = self.send_stored(msg);
        proof {
            assert(m.deep_view() =~= spec_sent_view(
                chat_of(body.chat_id),
                old(self).bot,
                (old(self).store.max_id + 1) as i32,
                m.deep_view().date,
                spec_reply(old(self).store.msgs(), body.reply_to_message_id),
                markup_kb(body.reply_markup),
                flag_or_false(body.protect_content),
                spec_video_media(body),
            ));
        }
        let m2 = m.clone();
        self.responses.sent_messages_video.push(
            crate::responses::SentMediaMessage { message: m2, bot_request: body },
        );
        proof {
            assert(self.responses.sent_messages_video@.drop_last() =~= old(self).responses.sent_messages_video@);
        }
        Ok(m)
    }

    /// Send audio.
    pub fn send_audio(&mut self, body: SendMediaMessageBody) -> (r: Result<Message, ApiError>)
        requires
            old(self).wf(),
            old(self).store.max_id < i32::MAX,
        ensures
            final(self).wf(),
            final(self).bot == old(self).bot,
            r is Ok <==> reply_ok(old(self).store.msgs(), body.reply_to_message_id),
            r is Err ==> r == Result::<Message, ApiError>::Err(ApiError::MessageNotFound)
                && *final(self) == *old(self),
            r matches Ok(m) ==> {
                &&& sent_media_ok(
                    *old(self),
                    *final(self),
                    body,
                    m,
                    spec_audio_media(body),
                    old(self).responses.sent_messages_audio@,
                    final(self).responses.sent_messages_audio@,
                )
                &&& final(self).responses == (Responses {
                    sent_messages: final(self).responses.sent_messages,
                    sent_messages_audio: final(self).responses.sent_messages_audio,
                    ..old(self).responses
                })
            },
    {
        let reply = match self.lookup_reply(body.reply_to_message_id) {
            Ok(v) => v,
            Err(e) => {
                return Err(e);
            },
        };
        let markup = keyboard_of(&body.reply_markup);
        let (caption, entities) = Self::media_caption_parts(&body);
        let media_kind = MediaKind::Audio {
            caption,
            caption_entities: entities,
            media_group_id: None,
            audio: crate::types::Audio {
                file: crate::types::FileMeta {
                    id: body.file_name.clone(),
                    unique_id: body.file_name.clone(),
                    size: 100,
                },
                duration: 100,
                performer: None,
                title: None,
                thumb: None,
                file_name: Some(body.file_name.clone()),
                mime_type: None,
            },
        };
        proof {
            assert(media_kind.deep_view() =~= spec_audio_media(body));
        }
        let protected = match body.protect_content {
            Some(b) => b,
            None => false,
        };
        let msg = self.build_sent(body.chat_id.chat(), reply, markup, protected, media_kind);
        let m = self.send_stored(msg);
        proof {
            assert(m.deep_view() =~= spec_sent_view(
                chat_of(body.chat_id),
                old(self).bot,
                (old(self).store.max_id + 1) as i32,
                m.deep_view().date,
                spec_reply(old(self).store.msgs(), body.reply_to_message_id),
                markup_kb(body.reply_markup),
                flag_or_false(body.protect_content),
                spec_audio_media(body),
            ));
        }
        let m2 = m.clone();
        self.responses.sent_messages_audio.push(
            crate::responses::SentMediaMessage { message: m2, bot_request: body },
        );
        proof {
            assert(self.responses.sent_messages_audio@.drop_last() =~= old(self).responses.sent_messages_audio@);
        }
        Ok(m)
    }

    /// Send voice.
    pub fn send_voice(&mut self, body: SendMediaMessageBody) -> (r: Result<Message, ApiError>)
        requires
            old(self).wf(),
            old(self).store.max_id < i32::MAX,
        ensures
            final(self).wf(),
            final(self).bot == old(self).bot,
            r is Ok <==> reply_ok(old(self).store.msgs(), body.reply_to_message_id),
            r is Err ==> r == Result::<Message, ApiError>::Err(ApiError::MessageNotFound)
                && *final(self) == *old(self),
            r matches Ok(m) ==> {
                &&& sent_media_ok(
                    *old(self),
                    *final(self),
                    body,
                    m,
                    spec_voice_media(body),
                    old(self).responses.sent_messages_voice@,
                    final(self).responses.sent_messages_voice@,
                )
                &&& final(self).responses == (Responses {
                    sent_messages: final(self).responses.sent_messages,
                    sent_messages_voice: final(self).responses.sent_messages_voice,
                    ..old(self).responses
                })
            },
    {
        let reply = match self.lookup_reply(body.reply_to_message_id) {
            Ok(v) => v,
            Err(e) => {
                return Err(e);
            },
        };
        let markup = keyboard_of(&body.reply_markup);
        let (caption, entities) = Self::media_caption_parts(&body);
        let media_kind = MediaKind::Voice {
            caption,
            caption_entities: entities,
            voice: crate::types::Voice {
                file: crate::types::FileMeta {
                    id: body.file_name.clone(),
                    unique_id: body.file_name.clone(),
                    size: 100,
                },
                duration: 100,
                mime_type: None,
            },
        };
        proof {
            assert(media_kind.deep_view() =~= spec_voice_media(body));
        }
        let protected = match body.protect_content {
            Some(b) => b,
            None => false,
        };
        let msg = self.build_sent(body.chat_id.chat(), reply, markup, protected, media_kind);
        let m = self.send_stored(msg);
        proof {
            assert(m.deep_view() =~= spec_sent_view(
                chat_of(body.chat_id),
                old(self).bot,
                (old(self).store.max_id + 1) as i32,
                m.deep_view().date,
                spec_reply(old(self).store.msgs(), body.reply_to_message_id),
                markup_kb(body.reply_markup),
                flag_or_false(body.protect_content),
                spec_voice_media(body),
            ));
        }
        let m2 = m.clone();
        self.responses.sent_messages_voice.push(
            crate::responses::SentMediaMessage { message: m2, bot_request: body },
        );
        proof {
            assert(self.responses.sent_messages_voice@.drop_last() =~= old(self).responses.sent_messages_voice@);
        }
        Ok(m)
    }

    /// Send document.
    pub fn send_document(&mut self, body: SendMediaMessageBody) -> (r: Result<Message, ApiError>)
        requires
            old(self).wf(),
            old(self).store.max_id < i32::MAX,
        ensures
            final(self).wf(),
            final(self).bot == old(self).bot,
            r is Ok <==> reply_ok(old(self).store.msgs(), body.reply_to_message_id),
            r is Err ==> r == Result::<Message, ApiError>::Err(ApiError::MessageNotFound)
                && *final(self) == *old(self),
            r matches Ok(m) ==> {
                &&& sent_media_ok(
                    *old(self),
                    *final(self),
                    body,
                    m,
                    spec_document_media(body),
                    old(self).responses.sent_messages_document@,
                    final(self).responses.sent_messages_document@,
                )
                &&& final(self).responses == (Responses {
                    sent_messages: final(self).responses.sent_messages,
                    sent_messages_document: final(self).responses.sent_messages_document,
                    ..old(self).responses
                })
            },
    {
        let reply = match self.lookup_reply(body.reply_to_message_id) {
            Ok(v) => v,
            Err(e) => {
                return Err(e);
            },
        };
        let markup = keyboard_of(&body.reply_markup);
        let (caption, entities) = Self::media_caption_parts(&body);
        let media_kind = MediaKind::Document {
            caption,
            caption_entities: entities,
            media_group_id: None,
            document: crate::types::Document {
                file: crate::types::FileMeta {
                    id: body.file_name.clone(),
                    unique_id: body.file_name.clone(),
                    size: 100,
                },
                thumb: None,
                file_name: Some(body.file_name.clone()),
                mime_type: None,
            },
        };
        proof {
            assert(media_kind.deep_view() =~= spec_document_media(body));
        }
        let protected = match body.protect_content {
            Some(b) => b,
            None => false,
        };
        let msg = self.build_sent(body.chat_id.chat(), reply, markup, protected, media_kind);
        let m = self.send_stored(msg);
        proof {
            assert(m.deep_view() =~= spec_sent_view(
                chat_of(body.chat_id),
                old(self).bot,
                (old(self).store.max_id + 1) as i32,
                m.deep_view().date,
                spec_reply(old(self).store.msgs(), body.reply_to_message_id),
                markup_kb(body.reply_markup),
                flag_or_false(body.protect_content),
                spec_document_media(body),
            ));
        }
        let m2 = m.clone();
        self.responses.sent_messages_document.push(
            crate::responses::SentMediaMessage { message: m2, bot_request: body },
        );
        proof {
            assert(self.responses.sent_messages_document@.drop_last() =~= old(self).responses.sent_messages_document@);
        }
        Ok(m)
    }

    /// Send animation.
    pub fn send_animation(&mut self, body: SendMediaMessageBody) -> (r: Result<Message, ApiError>)
        requires
            old(self).wf(),
            old(self).store.max_id < i32::MAX,
        ensures
            final(self).wf(),
            final(self).bot == old(self).bot,
            r is Ok <==> reply_ok(old(self).store.msgs(), body.reply_to_message_id),
            r is Err ==> r == Result::<Message, ApiError>::Err(ApiError::MessageNotFound)
                && *final(self) == *old(self),
            r matches Ok(m) ==> {
                &&& sent_media_ok(
                    *old(self),
                    *final(self),
                    body,
                    m,
                    spec_animation_media(body),
                    old(self).responses.sent_messages_animation@,
                    final(self).responses.sent_messages_animation@,
                )
                &&& final(self).responses == (Responses {
                    sent_messages: final(self).responses.sent_messages,
                    sent_messages_animation: final(self).responses.sent_messages_animation,
                    ..old(self).responses
                })
            },
    {
        let reply = match self.lookup_reply(body.reply_to_message_id) {
            Ok(v) => v,
            Err(e) => {
                return Err(e);
            },
        };
        let markup = keyboard_of(&body.reply_markup);
        let (caption, entities) = Self::media_caption_parts(&body);
        let media_kind = MediaKind::Animation {
            caption,
            caption_entities: entities,
            has_media_spoiler: false,
            animation: crate::types::Animation {
                file: crate::types::FileMeta {
                    id: body.file_name.clone(),
                    unique_id: body.file_name.clone(),
                    size: 100,
                },
                width: 100,
                height: 100,
                duration: 100,
                thumb: None,
                file_name: Some(body.file_name.clone()),
                mime_type: None,
            },
        };
        proof {
            assert(media_kind.deep_view() =~= spec_animation_media(body));
        }
        let protected = match body.protect_content {
            Some(b) => b,
            None => false,
        };
        let msg = self.build_sent(body.chat_id.chat(), reply, markup, protected, media_kind);
        let m = self.send_stored(msg);
        proof {
            assert(m.deep_view() =~= spec_sent_view(
                chat_of(body.chat_id),
                old(self).bot,
                (old(self).store.max_id + 1) as i32,
                m.deep_view().date,
                spec_reply(old(self).store.msgs(), body.reply_to_message_id),
                markup_kb(body.reply_markup),
                flag_or_false(body.protect_content),
                spec_animation_media(body),
            ));
        }
        let m2 = m.clone();
        self.responses.sent_messages_animation.push(
            crate::responses::SentMediaMessage { message: m2, bot_request: body },
        );
        proof {
            assert(self.responses.sent_messages_animation@.drop_last() =~= old(self).responses.sent_messages_animation@);
        }
        Ok(m)
    }

    /// Send video note.
    pub fn send_video_note(&mut self, body: SendMediaMessageBody) -> (r: Result<Message, ApiError>)
        requires
            old(self).wf(),
            old(self).store.max_id < i32::MAX,
        ensures
            final(self).wf(),
            final(self).bot == old(self).bot,
            r is Ok <==> reply_ok(old(self).store.msgs(), body.reply_to_message_id),
            r is Err ==> r == Result::<Message, ApiError>::Err(ApiError::MessageNotFound)
                && *final(self) == *old(self),
            r matches Ok(m) ==> {
                &&& sent_media_ok(
                    *old(self),
                    *final(self),
                    body,
                    m,
                    spec_video_note_media(body),
                    old(self).responses.sent_messages_video_note@,
                    final(self).responses.sent_messages_video_note@,
                )
                &&& final(self).responses == (Responses {
                    sent_messages: final(self).responses.sent_messages,
                    sent_messages_video_note: final(self).responses.sent_messages_video_note,
                    ..old(self).responses
                })
            },
    {
        let reply = match self.lookup_reply(body.reply_to_message_id) {
            Ok(v) => v,
            Err(e) => {
                return Err(e);
            },
        };
        let markup = keyboard_of(&body.reply_markup);
        let media_kind = MediaKind::VideoNote {
            video_note: crate::types::VideoNote {
                file: crate::types::FileMeta {
                    id: body.file_name.clone(),
                    unique_id: body.file_name.clone(),
                    size: 100,
                },
                length: 100,
                duration: 100,
                thumb: None,
            },
        };
        proof {
            assert(media_kind.deep_view() =~= spec_video_note_media(body));
        }
        let protected = match body.protect_content {
            Some(b) => b,
            None => false,
        };
        let msg = self.build_sent(body.chat_id.chat(), reply, markup, protected, media_kind);
        let m = self.send_stored(msg);
        proof {
            assert(m.deep_view() =~= spec_sent_view(
                chat_of(body.chat_id),
                old(self).bot,
                (old(self).store.max_id + 1) as i32,
                m.deep_view().date,
                spec_reply(old(self).store.msgs(), body.reply_to_message_id),
                markup_kb(body.reply_markup),
                flag_or_false(body.protect_content),
                spec_video_note_media(body),
            ));
        }
        let m2 = m.clone();
        self.responses.sent_messages_video_note.push(
            crate::responses::SentMediaMessage { message: m2, bot_request: body },
        );
        proof {
            assert(self.responses.sent_messages_video_note@.drop_last() =~= old(self).responses.sent_messages_video_note@);
        }
        Ok(m)
    }

    /// Dice: draws the value uniformly from the face range of the
    /// requested emoji; the request cannot choose the value.
    pub fn send_dice(&mut self, body: crate::requests::SendMessageDiceBody) -> (r: Result<
        Message,
        ApiError,
    >)
        requires
            old(self).wf(),
            old(self).store.max_id < i32::MAX,
        ensures
            final(self).wf(),
            final(self).bot == old(self).bot,
            r is Ok,
            r matches Ok(m) ==> {
                &&& m.deep_view() == spec_sent_view(
                    chat_of(body.chat_id),
                    old(self).bot,
                    (old(self).store.max_id + 1) as i32,
                    m.deep_view().date,
                    None,
                    None,
                    flag_or_false(body.protect_content),
                    m.deep_view().media_kind,
                )
                &&& m.deep_view().media_kind matches MediaKindV::Dice { dice }
                    && dice.emoji == effective_emoji(body.emoji)
                &&& 1 <= dice_value_of(m.deep_view()) <= dice_faces(effective_emoji(body.emoji))
                &&& final(self).store.max_id == old(self).store.max_id + 1
                &&& final(self).store.msgs() == old(self).store.msgs().push(m.deep_view())
                &&& final(self).responses.sent_messages.deep_view() == old(self).responses.sent_messages.deep_view().push(m.deep_view())
                &&& final(self).responses.sent_messages_dice@.len() == old(self).responses.sent_messages_dice@.len() + 1
                &&& final(self).responses.sent_messages_dice@.drop_last() == old(self).responses.sent_messages_dice@
                &&& final(self).responses.sent_messages_dice@.last().message.deep_view() == m.deep_view()
                &&& final(self).responses.sent_messages_dice@.last().bot_request == body
                &&& final(self).responses == (Responses {
                    sent_messages: final(self).responses.sent_messages,
                    sent_messages_dice: final(self).responses.sent_messages_dice,
                    ..old(self).responses
                })
            },
    {
        let emoji = match body.emoji {
            Some(e) => e,
            None => crate::types::DiceEmoji::Dice,
        };
        let faces: i32 = match emoji {
            crate::types::DiceEmoji::Dice => 6,
            crate::types::DiceEmoji::Darts => 6,
            crate::types::DiceEmoji::Basketball => 5,
            crate::types::DiceEmoji::Football => 5,
            crate::types::DiceEmoji::Bowling => 6,
            crate::types::DiceEmoji::SlotMachine => 64,
        };
        let value = draw_in_range(1, faces);
        let media_kind = MediaKind::Dice {
            dice: crate::types::Dice { emoji, value },
        };
        let protected = match body.protect_content {
            Some(b) => b,
            None => false,
        };
        let msg = self.build_sent(body.chat_id.chat(), None, None, protected, media_kind);
        let m = self.send_stored(msg);
        proof {
            assert(m.deep_view() =~= spec_sent_view(
                chat_of(body.chat_id),
                old(self).bot,
                (old(self).store.max_id + 1) as i32,
                m.deep_view().date,
                None,
                None,
                flag_or_false(body.protect_content),
                m.deep_view().media_kind,
            ));
        }
        let m2 = m.clone();
        self.responses.sent_messages_dice.push(
            crate::responses::SentMessageDice { message: m2, bot_request: body },
        );
        proof {
            assert(self.responses.sent_messages_dice@.drop_last() =~= old(self).responses.sent_messages_dice@);
        }
        Ok(m)
    }
}


/// How a forward origin is derived from the source message: private
/// chat with a known sender gives a user origin; private chat without
/// one gives a hidden-user origin named by the chat's username or a
/// placeholder; a group gives a chat origin; a supergroup or channel
/// gives a channel origin carrying the source message id.
pub open spec fn is_forward_origin_of(o: crate::types::ForwardOrigin, src: MessageV) -> bool {
    match src.chat.kind {
        ChatKind::Private => match src.from {
            Some(u) => o == (crate::types::ForwardOrigin::User {
                date: src.date,
                sender_user: u,
            }),
            None => {
                &&& o matches crate::types::ForwardOrigin::HiddenUser { date, sender_user_name }
                &&& date == src.date
                &&& match src.chat.username {
                    Some(n) => sender_user_name == n,
                    None => sender_user_name@ == "no_username"@,
                }
            },
        },
        ChatKind::Group => o == (crate::types::ForwardOrigin::Chat {
            date: src.date,
            sender_chat: src.chat,
            author_signature: None,
        }),
        _ => o == (crate::types::ForwardOrigin::Channel {
            date: src.date,
            chat: src.chat,
            message_id: src.id,
            author_signature: None,
        }),
    }
}

/// The message a forward stores: the source payload under a fresh id
/// in the requested chat, sent by the bot, with the derived origin and
/// the protected flag taken from the request.
pub open spec fn spec_forwarded_view(
    src: MessageV,
    chat: Chat,
    bot: User,
    id: i32,
    protected: bool,
    origin: crate::types::ForwardOrigin,
) -> MessageV {
    MessageV {
        id,
        chat,
        from: Some(bot),
        forward_origin: Some(origin),
        has_protected_content: protected,
        ..src
    }
}

impl ServerState {
    /// Forward: fails when the source is unknown or carries protected
    /// content; otherwise stores the source payload under a fresh id
    /// with a forward origin derived from the source chat.
    pub fn forward_message(&mut self, body: crate::requests::ForwardMessageBody) -> (r: Result<
        Message,
        ApiError,
    >)
        requires
            old(self).wf(),
            old(self).store.max_id < i32::MAX,
        ensures
            final(self).wf(),
            final(self).bot == old(self).bot,
            r is Ok <==> contains_id(old(self).store.msgs(), body.message_id) && !old(
                self,
            ).store.msgs()[index_of_id(old(self).store.msgs(), body.message_id)].has_protected_content,
            !contains_id(old(self).store.msgs(), body.message_id) ==> r == Result::<
                Message,
                ApiError,
            >::Err(ApiError::MessageNotFound),
            contains_id(old(self).store.msgs(), body.message_id) && old(self).store.msgs()[
                index_of_id(old(self).store.msgs(), body.message_id)
            ].has_protected_content ==> r == Result::<Message, ApiError>::Err(
                ApiError::MessageHasProtectedContent,
            ),
            r is Err ==> *final(self) == *old(self),
            r matches Ok(m) ==> {
                let src = old(self).store.msgs()[index_of_id(
                    old(self).store.msgs(),
                    body.message_id,
                )];
                &&& m.deep_view().forward_origin matches Some(o) && is_forward_origin_of(o, src)
                    && m.deep_view() == spec_forwarded_view(
                    src,
                    chat_of(body.chat_id),
                    old(self).bot,
                    (old(self).store.max_id + 1) as i32,
                    flag_or_false(body.protect_content),
                    o,
                )
                &&& final(self).store.max_id == old(self).store.max_id + 1
                &&& final(self).store.msgs() == old(self).store.msgs().push(m.deep_view())
                &&& final(self).responses.sent_messages.deep_view() == old(self).responses.sent_messages.deep_view().push(m.deep_view())
                &&& final(self).responses.forwarded_messages@.len() == old(self).responses.forwarded_messages@.len() + 1
                &&& final(self).responses.forwarded_messages@.drop_last() == old(self).responses.forwarded_messages@
                &&& final(self).responses.forwarded_messages@.last().message.deep_view() == m.deep_view()
                &&& final(self).responses.forwarded_messages@.last().bot_request == body
                &&& final(self).responses == (Responses {
                    sent_messages: final(self).responses.sent_messages,
                    forwarded_messages: final(self).responses.forwarded_messages,
                    ..old(self).responses
                })
            },
    {
        let ghost src_view = old(self).store.msgs()[index_of_id(
            old(self).store.msgs(),
            body.message_id,
        )];
        let mut msg = match self.store.get_message(body.message_id) {
            Some(src) => {
                if src.has_protected_content {
                    return Err(ApiError::MessageHasProtectedContent);
                }
                src.clone()
            },
            None => {
                return Err(ApiError::MessageNotFound);
            },
        };
        let origin = match msg.chat.kind {
            ChatKind::Private => match &msg.from {
                Some(u) => crate::types::ForwardOrigin::User {
                    date: msg.date,
                    sender_user: u.clone(),
                },
                None => crate::types::ForwardOrigin::HiddenUser {
                    date: msg.date,
                    sender_user_name: match &msg.chat.username {
                        Some(n) => n.clone(),
                        None => "no_username".to_owned(),
                    },
                },
            },
            ChatKind::Group => crate::types::ForwardOrigin::Chat {
                date: msg.date,
                sender_chat: msg.chat.clone(),
                author_signature: None,
            },
            _ => crate::types::ForwardOrigin::Channel {
                date: msg.date,
                chat: msg.chat.clone(),
                message_id: msg.id,
                author_signature: None,
            },
        };
        proof {
            assert(is_forward_origin_of(origin, src_view));
        }
        msg.forward_origin = Some(origin);
        msg.has_protected_content = match body.protect_content {
            Some(b) => b,
            None => false,
        };
        msg.chat = body.chat_id.chat();
        msg.from = Some(self.bot.clone());
        let m = self.send_stored(msg);
        proof {
            let o = m.deep_view().forward_origin.unwrap();
            assert(m.deep_view() =~= spec_forwarded_view(
                src_view,
                chat_of(body.chat_id),
                old(self).bot,
                (old(self).store.max_id + 1) as i32,
                flag_or_false(body.protect_content),
                o,
            ));
        }
        let m2 = m.clone();
        self.responses.forwarded_messages.push(
            crate::responses::ForwardedMessage { message: m2, bot_request: body },
        );
        proof {
            assert(self.responses.forwarded_messages@.drop_last() =~= old(self).responses.forwarded_messages@);
        }
        Ok(m)
    }

    /// Copy: stores the source payload (caption overridden when the
    /// request carries one) as a new message without any link to the
    /// original, and returns the fresh id.
    pub fn copy_message(&mut self, body: crate::requests::CopyMessageBody) -> (r: Result<
        i32,
        ApiError,
    >)
        requires
            old(self).wf(),
            old(self).store.max_id < i32::MAX,
        ensures
            final(self).wf(),
            final(self).bot == old(self).bot,
            r is Ok <==> contains_id(old(self).store.msgs(), body.message_id) && reply_ok(
                old(self).store.msgs(),
                body.reply_to_message_id,
            ),
            r is Err ==> r == Result::<i32, ApiError>::Err(ApiError::MessageNotFound) && *final(self)
                == *old(self),
            r matches Ok(new_id) ==> {
                let src = old(self).store.msgs()[index_of_id(
                    old(self).store.msgs(),
                    body.message_id,
                )];
                &&& new_id == old(self).store.max_id + 1
                &&& final(self).store.max_id == old(self).store.max_id + 1
                &&& final(self).store.msgs().len() == old(self).store.msgs().len() + 1
                &&& final(self).store.msgs().drop_last() == old(self).store.msgs()
                &&& final(self).store.msgs().last() == spec_sent_view(
                    chat_of(body.chat_id),
                    old(self).bot,
                    (old(self).store.max_id + 1) as i32,
                    final(self).store.msgs().last().date,
                    spec_reply(old(self).store.msgs(), body.reply_to_message_id),
                    markup_kb(body.reply_markup),
                    false,
                    if body.caption is Some {
                        crate::message::with_caption(src.media_kind, body.caption)
                    } else {
                        src.media_kind
                    },
                )
                &&& final(self).responses.sent_messages.deep_view() == old(self).responses.sent_messages.deep_view().push(final(self).store.msgs().last())
                &&& final(self).responses.copied_messages@.len() == old(self).responses.copied_messages@.len() + 1
                &&& final(self).responses.copied_messages@.drop_last() == old(self).responses.copied_messages@
                &&& final(self).responses.copied_messages@.last().message_id == new_id
                &&& final(self).responses.copied_messages@.last().bot_request == body
                &&& final(self).responses == (Responses {
                    sent_messages: final(self).responses.sent_messages,
                    copied_messages: final(self).responses.copied_messages,
                    ..old(self).responses
                })
            },
    {
        let ghost src_view = old(self).store.msgs()[index_of_id(
            old(self).store.msgs(),
            body.message_id,
        )];
        let media_src = match self.store.get_message(body.message_id) {
            Some(src) => src.media_kind.clone(),
            None => {
                return Err(ApiError::MessageNotFound);
            },
        };
        let reply = match self.lookup_reply(body.reply_to_message_id) {
            Ok(v) => v,
            Err(e) => {
                return Err(e);
            },
        };
        let media_kind = match &body.caption {
            Some(c) => set_caption(media_src, Some(c.clone())),
            None => media_src,
        };
        let markup = keyboard_of(&body.reply_markup);
        let msg = self.build_sent(body.chat_id.chat(), reply, markup, false, media_kind);
        let m = self.send_stored(msg);
        let new_id = m.id;
        proof {
            assert(m.deep_view().id == (old(self).store.max_id + 1) as i32);
            assert(m.deep_view() =~= spec_sent_view(
                chat_of(body.chat_id),
                old(self).bot,
                (old(self).store.max_id + 1) as i32,
                m.deep_view().date,
                spec_reply(old(self).store.msgs(), body.reply_to_message_id),
                markup_kb(body.reply_markup),
                false,
                if body.caption is Some {
                    crate::message::with_caption(src_view.media_kind, body.caption)
                } else {
                    src_view.media_kind
                },
            ));
        }
        self.responses.copied_messages.push(
            crate::responses::CopiedMessage { message_id: new_id, bot_request: body },
        );
        proof {
            assert(self.responses.copied_messages@.drop_last() =~= old(self).responses.copied_messages@);
        }
        Ok(new_id)
    }
}

/// Replaces the caption of a payload that has one; any other payload
/// kind is returned unchanged.
pub fn set_caption(media_kind: MediaKind, caption: Option<String>) -> (r: MediaKind)
    ensures
        r.deep_view() == crate::message::with_caption(media_kind.deep_view(), caption),
{
    let r = match media_kind {
        MediaKind::Animation { caption_entities, has_media_spoiler, animation, .. } => {
            MediaKind::Animation { caption, caption_entities, has_media_spoiler, animation }
        },
        MediaKind::Audio { caption_entities, media_group_id, audio, .. } => MediaKind::Audio {
            caption,
            caption_entities,
            media_group_id,
            audio,
        },
        MediaKind::Document { caption_entities, media_group_id, document, .. } => {
            MediaKind::Document { caption, caption_entities, media_group_id, document }
        },
        MediaKind::Photo { caption_entities, media_group_id, has_media_spoiler, photo, .. } => {
            MediaKind::Photo {
                caption,
                caption_entities,
                media_group_id,
                has_media_spoiler,
                photo,
            }
        },
        MediaKind::Video { caption_entities, media_group_id, has_media_spoiler, video, .. } => {
            MediaKind::Video {
                caption,
                caption_entities,
                media_group_id,
                has_media_spoiler,
                video,
            }
        },
        MediaKind::Voice { caption_entities, voice, .. } => MediaKind::Voice {
            caption,
            caption_entities,
            voice,
        },
        other => other,
    };
    r
}


/// Replaces caption and caption entities of a payload that has them;
/// any other payload kind is returned unchanged.
pub fn set_caption_data(
    media_kind: MediaKind,
    caption: Option<String>,
    entities: Vec<MessageEntity>,
) -> (r: MediaKind)
    ensures
        r.deep_view() == crate::message::with_caption_data(
            media_kind.deep_view(),
            caption,
            entities@,
        ),
{
    match media_kind {
        MediaKind::Animation { has_media_spoiler, animation, .. } => MediaKind::Animation {
            caption,
            caption_entities: entities,
            has_media_spoiler,
            animation,
        },
        MediaKind::Audio { media_group_id, audio, .. } => MediaKind::Audio {
            caption,
            caption_entities: entities,
            media_group_id,
            audio,
        },
        MediaKind::Document { media_group_id, document, .. } => MediaKind::Document {
            caption,
            caption_entities: entities,
            media_group_id,
            document,
        },
        MediaKind::Photo { media_group_id, has_media_spoiler, photo, .. } => MediaKind::Photo {
            caption,
            caption_entities: entities,
            media_group_id,
            has_media_spoiler,
            photo,
        },
        MediaKind::Video { media_group_id, has_media_spoiler, video, .. } => MediaKind::Video {
            caption,
            caption_entities: entities,
            media_group_id,
            has_media_spoiler,
            video,
        },
        MediaKind::Voice { voice, .. } => MediaKind::Voice {
            caption,
            caption_entities: entities,
            voice,
        },
        other => other,
    }
}

impl ServerState {
    /// Edit text: fails when the message is unknown or its payload is
    /// not text; otherwise replaces only text and entities and stamps
    /// the edit date.
    pub fn edit_message_text(&mut self, body: crate::requests::EditMessageTextBody) -> (r: Result<
        Message,
        ApiError,
    >)
        requires
            old(self).wf(),
        ensures
            final(self).wf(),
            final(self).bot == old(self).bot,
            r is Ok <==> contains_id(old(self).store.msgs(), body.message_id) && old(
                self,
            ).store.msgs()[index_of_id(old(self).store.msgs(), body.message_id)].media_kind
                is Text,
            !contains_id(old(self).store.msgs(), body.message_id) ==> r == Result::<
                Message,
                ApiError,
            >::Err(ApiError::MessageNotFound),
            r is Err ==> *final(self) == *old(self) && (r
                == Result::<Message, ApiError>::Err(ApiError::MessageNotFound) || r
                == Result::<Message, ApiError>::Err(ApiError::MessageCannotBeEdited)),
            r matches Ok(m) ==> {
                let i = index_of_id(old(self).store.msgs(), body.message_id);
                let src = old(self).store.msgs()[i];
                &&& m.deep_view() == (MessageV {
                    media_kind: MediaKindV::Text {
                        text: body.text,
                        entities: spec_entities(body.entities),
                    },
                    edit_date: m.deep_view().edit_date,
                    ..src
                })
                &&& m.deep_view().edit_date is Some
                &&& final(self).store.max_id == old(self).store.max_id
                &&& final(self).store.msgs() == old(self).store.msgs().update(i, m.deep_view())
                &&& final(self).responses.edited_messages_text@.len() == old(self).responses.edited_messages_text@.len() + 1
                &&& final(self).responses.edited_messages_text@.drop_last() == old(self).responses.edited_messages_text@
                &&& final(self).responses.edited_messages_text@.last().message.deep_view() == m.deep_view()
                &&& final(self).responses.edited_messages_text@.last().bot_request == body
                &&& final(self).responses == (Responses {
                    edited_messages_text: final(self).responses.edited_messages_text,
                    ..old(self).responses
                })
            },
    {
        let ghost src_view = old(self).store.msgs()[index_of_id(
            old(self).store.msgs(),
            body.message_id,
        )];
        let mut edited = match self.store.get_message(body.message_id) {
            Some(src) => {
                match &src.media_kind {
                    MediaKind::Text { .. } => src.clone(),
                    _ => {
                        return Err(ApiError::MessageCannotBeEdited);
                    },
                }
            },
            None => {
                return Err(ApiError::MessageNotFound);
            },
        };
        let date = now_timestamp();
        edited.media_kind = MediaKind::Text {
            text: body.text.clone(),
            entities: match &body.entities {
                Some(v) => clone_entities(v),
                None => Vec::new(),
            },
        };
        edited.edit_date = Some(date);
        proof {
            assert(edited.deep_view() =~= (MessageV {
                media_kind: MediaKindV::Text {
                    text: body.text,
                    entities: spec_entities(body.entities),
                },
                edit_date: Some(date),
                ..src_view
            }));
        }
        let m = edited.clone();
        let updated = self.store.update_message(edited);
        proof {
            assert(updated);
        }
        let m2 = m.clone();
        self.responses.edited_messages_text.push(
            crate::responses::EditedMessageText { message: m2, bot_request: body },
        );
        proof {
            assert(self.responses.edited_messages_text@.drop_last() =~= old(self).responses.edited_messages_text@);
        }
        Ok(m)
    }

    /// Edit caption: fails when the message is unknown or its payload
    /// kind carries no caption; otherwise replaces only the caption
    /// data and stamps the edit date.
    pub fn edit_message_caption(&mut self, body: crate::requests::EditMessageCaptionBody) -> (r:
        Result<Message, ApiError>)
        requires
            old(self).wf(),
        ensures
            final(self).wf(),
            final(self).bot == old(self).bot,
            r is Ok <==> contains_id(old(self).store.msgs(), body.message_id)
                && crate::message::has_caption_field(
                old(self).store.msgs()[index_of_id(old(self).store.msgs(), body.message_id)].media_kind,
            ),
            !contains_id(old(self).store.msgs(), body.message_id) ==> r == Result::<
                Message,
                ApiError,
            >::Err(ApiError::MessageNotFound),
            r is Err ==> *final(self) == *old(self) && (r
                == Result::<Message, ApiError>::Err(ApiError::MessageNotFound) || r
                == Result::<Message, ApiError>::Err(ApiError::MessageCannotBeEdited)),
            r matches Ok(m) ==> {
                let i = index_of_id(old(self).store.msgs(), body.message_id);
                let src = old(self).store.msgs()[i];
                &&& m.deep_view() == (MessageV {
                    media_kind: crate::message::with_caption_data(
                        src.media_kind,
                        body.caption,
                        spec_entities(body.caption_entities),
                    ),
                    edit_date: m.deep_view().edit_date,
                    ..src
                })
                &&& m.deep_view().edit_date is Some
                &&& final(self).store.max_id == old(self).store.max_id
                &&& final(self).store.msgs() == old(self).store.msgs().update(i, m.deep_view())
                &&& final(self).responses.edited_messages_caption@.len() == old(self).responses.edited_messages_caption@.len() + 1
                &&& final(self).responses.edited_messages_caption@.drop_last() == old(self).responses.edited_messages_caption@
                &&& final(self).responses.edited_messages_caption@.last().message.deep_view() == m.deep_view()
                &&& final(self).responses.edited_messages_caption@.last().bot_request == body
                &&& final(self).responses == (Responses {
                    edited_messages_caption: final(self).responses.edited_messages_caption,
                    ..old(self).responses
                })
            },
    {
        let ghost src_view = old(self).store.msgs()[index_of_id(
            old(self).store.msgs(),
            body.message_id,
        )];
        let mut edited = match self.store.get_message(body.message_id) {
            Some(src) => {
                match &src.media_kind {
                    MediaKind::Animation { .. } => src.clone(),
                    MediaKind::Audio { .. } => src.clone(),
                    MediaKind::Document { .. } => src.clone(),
                    MediaKind::Photo { .. } => src.clone(),
                    MediaKind::Video { .. } => src.clone(),
                    MediaKind::Voice { .. } => src.clone(),
                    _ => {
                        return Err(ApiError::MessageCannotBeEdited);
                    },
                }
            },
            None => {
                return Err(ApiError::MessageNotFound);
            },
        };
        let date = now_timestamp();
        let caption = crate::types::clone_opt_string(&body.caption);
        let entities = match &body.caption_entities {
            Some(v) => clone_entities(v),
            None => Vec::new(),
        };
        proof {
            assert(entities@ =~= spec_entities(body.caption_entities));
        }
        let old_media = edited.media_kind;
        edited.media_kind = set_caption_data(old_media, caption, entities);
        edited.edit_date = Some(date);
        proof {
            assert(edited.deep_view() =~= (MessageV {
                media_kind: crate::message::with_caption_data(
                    src_view.media_kind,
                    body.caption,
                    spec_entities(body.caption_entities),
                ),
                edit_date: Some(date),
                ..src_view
            }));
        }
        let m = edited.clone();
        let updated = self.store.update_message(edited);
        proof {
            assert(updated);
        }
        let m2 = m.clone();
        self.responses.edited_messages_caption.push(
            crate::responses::EditedMessageCaption { message: m2, bot_request: body },
        );
        proof {
            assert(self.responses.edited_messages_caption@.drop_last() =~= old(self).responses.edited_messages_caption@);
        }
        Ok(m)
    }

    /// Edit reply markup: fails when the message is unknown; otherwise
    /// replaces only the reply markup (kept only when inline) and
    /// stamps the edit date.
    pub fn edit_message_reply_markup(
        &mut self,
        body: crate::requests::EditMessageReplyMarkupBody,
    ) -> (r: Result<Message, ApiError>)
        requires
            old(self).wf(),
        ensures
            final(self).wf(),
            final(self).bot == old(self).bot,
            r is Ok <==> contains_id(old(self).store.msgs(), body.message_id),
            r is Err ==> r == Result::<Message, ApiError>::Err(ApiError::MessageNotFound)
                && *final(self) == *old(self),
            r matches Ok(m) ==> {
                let i = index_of_id(old(self).store.msgs(), body.message_id);
                let src = old(self).store.msgs()[i];
                &&& m.deep_view() == (MessageV {
                    reply_markup: markup_kb(body.reply_markup),
                    edit_date: m.deep_view().edit_date,
                    ..src
                })
                &&& m.deep_view().edit_date is Some
                &&& final(self).store.max_id == old(self).store.max_id
                &&& final(self).store.msgs() == old(self).store.msgs().update(i, m.deep_view())
                &&& final(self).responses.edited_messages_reply_markup@.len() == old(self).responses.edited_messages_reply_markup@.len() + 1
                &&& final(self).responses.edited_messages_reply_markup@.drop_last() == old(self).responses.edited_messages_reply_markup@
                &&& final(self).responses.edited_messages_reply_markup@.last().message.deep_view() == m.deep_view()
                &&& final(self).responses.edited_messages_reply_markup@.last().bot_request == body
                &&& final(self).responses == (Responses {
                    edited_messages_reply_markup: final(self).responses.edited_messages_reply_markup,
                    ..old(self).responses
                })
            },
    {
        let ghost src_view = old(self).store.msgs()[index_of_id(
            old(self).store.msgs(),
            body.message_id,
        )];
        let mut edited = match self.store.get_message(body.message_id) {
            Some(src) => src.clone(),
            None => {
                return Err(ApiError::MessageNotFound);
            },
        };
        let date = now_timestamp();
        edited.reply_markup = keyboard_of(&body.reply_markup);
        edited.edit_date = Some(date);
        proof {
            assert(edited.deep_view() =~= (MessageV {
                reply_markup: markup_kb(body.reply_markup),
                edit_date: Some(date),
                ..src_view
            }));
        }
        let m = edited.clone();
        let updated = self.store.update_message(edited);
        proof {
            assert(updated);
        }
        let m2 = m.clone();
        self.responses.edited_messages_reply_markup.push(
            crate::responses::EditedMessageReplyMarkup { message: m2, bot_request: body },
        );
        proof {
            assert(self.responses.edited_messages_reply_markup@.drop_last() =~= old(self).responses.edited_messages_reply_markup@);
        }
        Ok(m)
    }
}


/// The payload one media-group item stores: its own caption data, the
/// shared group id, and a file under the uploaded name.
pub open spec fn spec_group_item_media(
    item: crate::requests::InputMedia,
    g: Option<String>,
) -> MediaKindV {
    match item.kind {
        crate::requests::InputMediaKind::Photo => MediaKindV::Photo {
            caption: item.caption,
            caption_entities: spec_entities(item.caption_entities),
            media_group_id: g,
            has_media_spoiler: false,
            photo: seq![
                crate::types::PhotoSize {
                    file: spec_file_meta(item.file_name),
                    width: 100,
                    height: 100,
                }
            ],
        },
        crate::requests::InputMediaKind::Video => MediaKindV::Video {
            caption: item.caption,
            caption_entities: spec_entities(item.caption_entities),
            media_group_id: g,
            has_media_spoiler: false,
            video: crate::types::Video {
                file: spec_file_meta(item.file_name),
                width: 100,
                height: 100,
                duration: 100,
                thumb: None,
                file_name: Some(item.file_name),
                mime_type: None,
            },
        },
        crate::requests::InputMediaKind::Audio => MediaKindV::Audio {
            caption: item.caption,
            caption_entities: spec_entities(item.caption_entities),
            media_group_id: g,
            audio: crate::types::Audio {
                file: spec_file_meta(item.file_name),
                duration: 100,
                performer: None,
                title: None,
                thumb: None,
                file_name: Some(item.file_name),
                mime_type: None,
            },
        },
        crate::requests::InputMediaKind::Document => MediaKindV::Document {
            caption: item.caption,
            caption_entities: spec_entities(item.caption_entities),
            media_group_id: g,
            document: crate::types::Document {
                file: spec_file_meta(item.file_name),
                thumb: None,
                file_name: Some(item.file_name),
                mime_type: None,
            },
        },
    }
}

/// Clones a reply target so each message of a group carries it.
fn clone_opt_box_message(r: &Option<Box<Message>>) -> (out: Option<Box<Message>>)
    ensures
        opt_box_view(out) == opt_box_view(*r),
{
    match r {
        Some(b) => Some(Box::new((**b).clone())),
        None => None,
    }
}

/// Clones a vector of messages, keeping every view.
fn clone_messages(v: &Vec<Message>) -> (r: Vec<Message>)
    ensures
        r.deep_view() == v.deep_view(),
{
    let mut out: Vec<Message> = Vec::new();
    let mut i: usize = 0;
    while i < v.len()
        invariant
            i <= v.len(),
            out@.len() == i,
            forall|k: int| #![auto] 0 <= k < i ==> out@[k].deep_view() == v@[k].deep_view(),
        decreases v.len() - i,
    {
        out.push(v[i].clone());
        i += 1;
    }
    proof {
        assert(out.deep_view() =~= v.deep_view());
    }
    out
}

impl ServerState {
    /// Media group: stores one message per item, all in the requested
    /// chat, all sharing one fresh group id and the request's reply
    /// target; a caption attaches only to the item that carried one.
    pub fn send_media_group(&mut self, body: crate::requests::SendMediaGroupBody) -> (r: Result<
        Vec<Message>,
        ApiError,
    >)
        requires
            old(self).wf(),
            2 <= body.media@.len(),
            old(self).store.max_id + body.media@.len() <= i32::MAX,
        ensures
            final(self).wf(),
            final(self).bot == old(self).bot,
            r is Ok <==> reply_ok(old(self).store.msgs(), body.reply_to_message_id),
            r is Err ==> r == Result::<Vec<Message>, ApiError>::Err(ApiError::MessageNotFound)
                && *final(self) == *old(self),
            r matches Ok(msgs) ==> {
                let k = body.media@.len() as int;
                let g = crate::message::media_group_id_of(msgs.deep_view()[0].media_kind);
                &&& msgs@.len() == k
                &&& g is Some
                &&& forall|j: int|
                    0 <= j < k ==> msgs.deep_view()[j] == spec_sent_view(
                        chat_of(body.chat_id),
                        old(self).bot,
                        (old(self).store.max_id + 1 + j) as i32,
                        msgs.deep_view()[j].date,
                        spec_reply(old(self).store.msgs(), body.reply_to_message_id),
                        None,
                        flag_or_false(body.protect_content),
                        spec_group_item_media(body.media@[j], g),
                    )
                &&& final(self).store.max_id == old(self).store.max_id + k
                &&& final(self).store.msgs() == old(self).store.msgs() + msgs.deep_view()
                &&& final(self).responses.sent_messages.deep_view() == old(self).responses.sent_messages.deep_view() + msgs.deep_view()
                &&& final(self).responses.sent_media_group@.len() == old(self).responses.sent_media_group@.len() + 1
                &&& final(self).responses.sent_media_group@.drop_last() == old(self).responses.sent_media_group@
                &&& final(self).responses.sent_media_group@.last().messages.deep_view() == msgs.deep_view()
                &&& final(self).responses.sent_media_group@.last().bot_request == body
                &&& final(self).responses == (Responses {
                    sent_messages: final(self).responses.sent_messages,
                    sent_media_group: final(self).responses.sent_media_group,
                    ..old(self).responses
                })
            },
    {
        let reply = match self.lookup_reply(body.reply_to_message_id) {
            Ok(v) => v,
            Err(e) => {
                return Err(e);
            },
        };
        let gid = (self.store.max_message_id() + 1).to_string();
        let chat = body.chat_id.chat();
        let protected = match body.protect_content {
            Some(b) => b,
            None => false,
        };
        let k = body.media.len();
        let mut result: Vec<Message> = Vec::new();
        let mut i: usize = 0;
        while i < k
            invariant
                old(self).wf(),
                self.wf(),
                self.bot == old(self).bot,
                i <= k,
                k == body.media@.len(),
                2 <= k,
                old(self).store.max_id + k <= i32::MAX,
                self.store.max_id == old(self).store.max_id + i,
                result@.len() == i,
                self.store.msgs() =~= old(self).store.msgs() + result.deep_view(),
                self.responses.sent_messages.deep_view() =~= old(self).responses.sent_messages.deep_view() + result.deep_view(),
                self.responses == (Responses {
                    sent_messages: self.responses.sent_messages,
                    ..old(self).responses
                }),
                chat == chat_of(body.chat_id),
                protected == flag_or_false(body.protect_content),
                opt_box_view(reply) == spec_reply(old(self).store.msgs(), body.reply_to_message_id),
                reply_ok(old(self).store.msgs(), body.reply_to_message_id),
                forall|j: int|
                    0 <= j < i ==> result.deep_view()[j] == spec_sent_view(
                        chat_of(body.chat_id),
                        old(self).bot,
                        (old(self).store.max_id + 1 + j) as i32,
                        result.deep_view()[j].date,
                        spec_reply(old(self).store.msgs(), body.reply_to_message_id),
                        None,
                        flag_or_false(body.protect_content),
                        spec_group_item_media(body.media@[j], Some(gid)),
                    ),
            decreases k - i,
        {
            let item = &body.media[i];
            let caption = crate::types::clone_opt_string(&item.caption);
            let entities = match &item.caption_entities {
                Some(v) => clone_entities(v),
                None => Vec::new(),
            };
            proof {
                assert(entities@ =~= spec_entities(body.media@[i as int].caption_entities));
            }
            let file = crate::types::FileMeta {
                id: item.file_name.clone(),
                unique_id: item.file_name.clone(),
                size: 100,
            };
            let media_kind = match item.kind {
                crate::requests::InputMediaKind::Photo => {
                    let mut photo: Vec<crate::types::PhotoSize> = Vec::new();
                    photo.push(crate::types::PhotoSize { file, width: 100, height: 100 });
                    MediaKind::Photo {
                        caption,
                        caption_entities: entities,
                        media_group_id: Some(gid.clone()),
                        has_media_spoiler: false,
                        photo,
                    }
                },
                crate::requests::InputMediaKind::Video => MediaKind::Video {
                    caption,
                    caption_entities: entities,
                    media_group_id: Some(gid.clone()),
                    has_media_spoiler: false,
                    video: crate::types::Video {
                        file,
                        width: 100,
                        height: 100,
                        duration: 100,
                        thumb: None,
                        file_name: Some(item.file_name.clone()),
                        mime_type: None,
                    },
                },
                crate::requests::InputMediaKind::Audio => MediaKind::Audio {
                    caption,
                    caption_entities: entities,
                    media_group_id: Some(gid.clone()),
                    audio: crate::types::Audio {
                        file,
                        duration: 100,
                        performer: None,
                        title: None,
                        thumb: None,
                        file_name: Some(item.file_name.clone()),
                        mime_type: None,
                    },
                },
                crate::requests::InputMediaKind::Document => MediaKind::Document {
                    caption,
                    caption_entities: entities,
                    media_group_id: Some(gid.clone()),
                    document: crate::types::Document {
                        file,
                        thumb: None,
                        file_name: Some(item.file_name.clone()),
                        mime_type: None,
                    },
                },
            };
            proof {
                assert(media_kind.deep_view() =~= spec_group_item_media(
                    body.media@[i as int],
                    Some(gid),
                ));
            }
            let this_reply = clone_opt_box_message(&reply);
            let msg = self.build_sent(chat.clone(), this_reply, None, protected, media_kind);
            let m = self.send_stored(msg);
            proof {
                assert(m.deep_view() =~= spec_sent_view(
                    chat_of(body.chat_id),
                    old(self).bot,
                    (old(self).store.max_id + 1 + i as int) as i32,
                    m.deep_view().date,
                    spec_reply(old(self).store.msgs(), body.reply_to_message_id),
                    None,
                    flag_or_false(body.protect_content),
                    spec_group_item_media(body.media@[i as int], Some(gid)),
                ));
            }
            let ghost prev = result.deep_view();
            result.push(m);
            proof {
                assert(result.deep_view() =~= prev.push(m.deep_view()));
                assert forall|j: int| 0 <= j < i + 1 implies result.deep_view()[j]
                    == spec_sent_view(
                    chat_of(body.chat_id),
                    old(self).bot,
                    (old(self).store.max_id + 1 + j) as i32,
                    result.deep_view()[j].date,
                    spec_reply(old(self).store.msgs(), body.reply_to_message_id),
                    None,
                    flag_or_false(body.protect_content),
                    spec_group_item_media(body.media@[j], Some(gid)),
                ) by {
                    if j < i as int {
                        assert(result.deep_view()[j] == prev[j]);
                    } else {
                        assert(result.deep_view()[j] == m.deep_view());
                    }
                }
                assert(self.store.msgs() =~= old(self).store.msgs() + result.deep_view());
                assert(self.responses.sent_messages.deep_view() =~= old(self).responses.sent_messages.deep_view() + result.deep_view());
            }
            i += 1;
        }
        let copies = clone_messages(&result);
        self.responses.sent_media_group.push(
            crate::responses::SentMediaGroup { messages: copies, bot_request: body },
        );
        proof {
            assert(self.responses.sent_media_group@.drop_last() =~= old(self).responses.sent_media_group@);
            assert(crate::message::media_group_id_of(result.deep_view()[0].media_kind) == Some(gid));
            assert(self.store.msgs() == old(self).store.msgs() + result.deep_view());
            assert(self.responses.sent_messages.deep_view() == old(self).responses.sent_messages.deep_view() + result.deep_view());
        }
        Ok(result)
    }
}

} // verus!
