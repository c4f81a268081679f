//! The message entity: one generic shape with exactly one payload kind.

use vstd::prelude::*;

use crate::types::{
    Animation, Audio, Chat, Contact, Dice, Document, ForwardOrigin, Game, GameV,
    InlineKeyboardButton, InlineKeyboardMarkup, Location, MessageEntity, PhotoSize, Poll, PollV,
    Sticker, User, Venue, Video, VideoNote, Voice, clone_entities, clone_opt_markup,
    clone_opt_string, clone_photo_sizes,
};

verus! {

/// The deep view of a message payload.
#[verifier::ext_equal]
pub ghost enum MediaKindV {
    Text { text: String, entities: Seq<MessageEntity> },
    Animation {
        caption: Option<String>,
        caption_entities: Seq<MessageEntity>,
        has_media_spoiler: bool,
        animation: Animation,
    },
    Audio {
        caption: Option<String>,
        caption_entities: Seq<MessageEntity>,
        media_group_id: Option<String>,
        audio: Audio,
    },
    Contact { contact: Contact },
    Dice { dice: Dice },
    Document {
        caption: Option<String>,
        caption_entities: Seq<MessageEntity>,
        media_group_id: Option<String>,
        document: Document,
    },
    Game { game: GameV },
    Venue { venue: Venue },
    Location { location: Location },
    Photo {
        caption: Option<String>,
        caption_entities: Seq<MessageEntity>,
        media_group_id: Option<String>,
        has_media_spoiler: bool,
        photo: Seq<PhotoSize>,
    },
    Poll { poll: PollV },
    Sticker { sticker: Sticker },
    Video {
        caption: Option<String>,
        caption_entities: Seq<MessageEntity>,
        media_group_id: Option<String>,
        has_media_spoiler: bool,
        video: Video,
    },
    VideoNote { video_note: VideoNote },
    Voice { caption: Option<String>, caption_entities: Seq<MessageEntity>, voice: Voice },
    MigrationFrom { chat_id: i64 },
    MigrationTo { chat_id: i64 },
}

/// The payload of a message: exactly one tagged variant.
#[derive(Debug)]
pub enum MediaKind {
    Text { text: String, entities: Vec<MessageEntity> },
    Animation {
        caption: Option<String>,
        caption_entities: Vec<MessageEntity>,
        has_media_spoiler: bool,
        animation: Animation,
    },
    Audio {
        caption: Option<String>,
        caption_entities: Vec<MessageEntity>,
        media_group_id: Option<String>,
        audio: Audio,
    },
    Contact { contact: Contact },
    Dice { dice: Dice },
    Document {
        caption: Option<String>,
        caption_entities: Vec<MessageEntity>,
        media_group_id: Option<String>,
        document: Document,
    },
    Game { game: Game },
    Venue { venue: Venue },
    Location { location: Location },
    Photo {
        caption: Option<String>,
        caption_entities: Vec<MessageEntity>,
        media_group_id: Option<String>,
        has_media_spoiler: bool,
        photo: Vec<PhotoSize>,
    },
    Poll { poll: Poll },
    Sticker { sticker: Sticker },
    Video {
        caption: Option<String>,
        caption_entities: Vec<MessageEntity>,
        media_group_id: Option<String>,
        has_media_spoiler: bool,
        video: Video,
    },
    VideoNote { video_note: VideoNote },
    Voice { caption: Option<String>, caption_entities: Vec<MessageEntity>, voice: Voice },
    MigrationFrom { chat_id: i64 },
    MigrationTo { chat_id: i64 },
}

impl DeepView for MediaKind {
    type V = MediaKindV;

    open spec fn deep_view(&self) -> MediaKindV {
        match self {
            MediaKind::Text { text, entities } => MediaKindV::Text {
                text: *text,
                entities: entities.deep_view(),
            },
            MediaKind::Animation { caption, caption_entities, has_media_spoiler, animation } => {
                MediaKindV::Animation {
                    caption: *caption,
                    caption_entities: caption_entities.deep_view(),
                    has_media_spoiler: *has_media_spoiler,
                    animation: *animation,
                }
            },
            MediaKind::Audio { caption, caption_entities, media_group_id, audio } => {
                MediaKindV::Audio {
                    caption: *caption,
                    caption_entities: caption_entities.deep_view(),
                    media_group_id: *media_group_id,
                    audio: *audio,
                }
            },
            MediaKind::Contact { contact } => MediaKindV::Contact { contact: *contact },
            MediaKind::Dice { dice } => MediaKindV::Dice { dice: *dice },
            MediaKind::Document { caption, caption_entities, media_group_id, document } => {
                MediaKindV::Document {
                    caption: *caption,
                    caption_entities: caption_entities.deep_view(),
                    media_group_id: *media_group_id,
                    document: *document,
                }
            },
            MediaKind::Game { game } => MediaKindV::Game { game: game.deep_view() },
            MediaKind::Venue { venue } => MediaKindV::Venue { venue: *venue },
            MediaKind::Location { location } => MediaKindV::Location { location: *location },
            MediaKind::Photo {
                caption,
                caption_entities,
                media_group_id,
                has_media_spoiler,
                photo,
            } => MediaKindV::Photo {
                caption: *caption,
                caption_entities: caption_entities.deep_view(),
                media_group_id: *media_group_id,
                has_media_spoiler: *has_media_spoiler,
                photo: photo.deep_view(),
            },
            MediaKind::Poll { poll } => MediaKindV::Poll { poll: poll.deep_view() },
            MediaKind::Sticker { sticker } => MediaKindV::Sticker { sticker: *sticker },
            MediaKind::Video {
                caption,
                caption_entities,
                media_group_id,
                has_media_spoiler,
                video,
            } => MediaKindV::Video {
                caption: *caption,
                caption_entities: caption_entities.deep_view(),
                media_group_id: *media_group_id,
                has_media_spoiler: *has_media_spoiler,
                video: *video,
            },
            MediaKind::VideoNote { video_note } => MediaKindV::VideoNote {
                video_note: *video_note,
            },
            MediaKind::Voice { caption, caption_entities, voice } => MediaKindV::Voice {
                caption: *caption,
                caption_entities: caption_entities.deep_view(),
                voice: *voice,
            },
            MediaKind::MigrationFrom { chat_id } => MediaKindV::MigrationFrom {
                chat_id: *chat_id,
            },
            MediaKind::MigrationTo { chat_id } => MediaKindV::MigrationTo { chat_id: *chat_id },
        }
    }
}

impl MediaKind {
    pub fn clone(&self) -> (r: MediaKind)
        ensures
            r.deep_view() == self.deep_view(),
    {
        let r = match self {
            MediaKind::Text { text, entities } => MediaKind::Text {
                text: text.clone(),
                entities: clone_entities(entities),
            },
            MediaKind::Animation { caption, caption_entities, has_media_spoiler, animation } => {
                MediaKind::Animation {
                    caption: clone_opt_string(caption),
                    caption_entities: clone_entities(caption_entities),
                    has_media_spoiler: *has_media_spoiler,
                    animation: animation.clone(),
                }
            },
            MediaKind::Audio { caption, caption_entities, media_group_id, audio } => {
                MediaKind::Audio {
                    caption: clone_opt_string(caption),
                    caption_entities: clone_entities(caption_entities),
                    media_group_id: clone_opt_string(media_group_id),
                    audio: audio.clone(),
                }
            },
            MediaKind::Contact { contact } => MediaKind::Contact { contact: contact.clone() },
            MediaKind::Dice { dice } => MediaKind::Dice { dice: *dice },
            MediaKind::Document { caption, caption_entities, media_group_id, document } => {
                MediaKind::Document {
                    caption: clone_opt_string(caption),
                    caption_entities: clone_entities(caption_entities),
                    media_group_id: clone_opt_string(media_group_id),
                    document: document.clone(),
                }
            },
            MediaKind::Game { game } => MediaKind::Game { game: game.clone() },
            MediaKind::Venue { venue } => MediaKind::Venue { venue: venue.clone() },
            MediaKind::Location { location } => MediaKind::Location { location: *location },
            MediaKind::Photo {
                caption,
                caption_entities,
                media_group_id,
                has_media_spoiler,
                photo,
            } => MediaKind::Photo {
                caption: clone_opt_string(caption),
                caption_entities: clone_entities(caption_entities),
                media_group_id: clone_opt_string(media_group_id),
                has_media_spoiler: *has_media_spoiler,
                photo: clone_photo_sizes(photo),
            },
            MediaKind::Poll { poll } => MediaKind::Poll { poll: poll.clone() },
            MediaKind::Sticker { sticker } => MediaKind::Sticker { sticker: sticker.clone() },
            MediaKind::Video {
                caption,
                caption_entities,
                media_group_id,
                has_media_spoiler,
                video,
            } => MediaKind::Video {
                caption: clone_opt_string(caption),
                caption_entities: clone_entities(caption_entities),
                media_group_id: clone_opt_string(media_group_id),
                has_media_spoiler: *has_media_spoiler,
                video: video.clone(),
            },
            MediaKind::VideoNote { video_note } => MediaKind::VideoNote {
                video_note: video_note.clone(),
            },
            MediaKind::Voice { caption, caption_entities, voice } => MediaKind::Voice {
                caption: clone_opt_string(caption),
                caption_entities: clone_entities(caption_entities),
                voice: voice.clone(),
            },
            MediaKind::MigrationFrom { chat_id } => MediaKind::MigrationFrom {
                chat_id: *chat_id,
            },
            MediaKind::MigrationTo { chat_id } => MediaKind::MigrationTo { chat_id: *chat_id },
        };
        assert(r.deep_view() =~= self.deep_view());
        r
    }
}

/// The caption a payload carries, where its kind has one.
pub open spec fn caption_of(m: MediaKindV) -> Option<String> {
    match m {
        MediaKindV::Animation { caption, .. } => caption,
        MediaKindV::Audio { caption, .. } => caption,
        MediaKindV::Document { caption, .. } => caption,
        MediaKindV::Photo { caption, .. } => caption,
        MediaKindV::Video { caption, .. } => caption,
        MediaKindV::Voice { caption, .. } => caption,
        _ => None,
    }
}

/// Whether the payload kind has a caption field at all.
pub open spec fn has_caption_field(m: MediaKindV) -> bool {
    match m {
        MediaKindV::Animation { .. } => true,
        MediaKindV::Audio { .. } => true,
        MediaKindV::Document { .. } => true,
        MediaKindV::Photo { .. } => true,
        MediaKindV::Video { .. } => true,
        MediaKindV::Voice { .. } => true,
        _ => false,
    }
}

/// The caption entities a payload carries, where its kind has them.
pub open spec fn caption_entities_of(m: MediaKindV) -> Seq<MessageEntity> {
    match m {
        MediaKindV::Animation { caption_entities, .. } => caption_entities,
        MediaKindV::Audio { caption_entities, .. } => caption_entities,
        MediaKindV::Document { caption_entities, .. } => caption_entities,
        MediaKindV::Photo { caption_entities, .. } => caption_entities,
        MediaKindV::Video { caption_entities, .. } => caption_entities,
        MediaKindV::Voice { caption_entities, .. } => caption_entities,
        _ => Seq::empty(),
    }
}

/// The media-group id a payload carries, where its kind has one.
pub open spec fn media_group_id_of(m: MediaKindV) -> Option<String> {
    match m {
        MediaKindV::Audio { media_group_id, .. } => media_group_id,
        MediaKindV::Document { media_group_id, .. } => media_group_id,
        MediaKindV::Photo { media_group_id, .. } => media_group_id,
        MediaKindV::Video { media_group_id, .. } => media_group_id,
        _ => None,
    }
}

/// The same payload with its caption replaced, for kinds that carry one;
/// any other kind is returned unchanged.
pub open spec fn with_caption(m: MediaKindV, c: Option<String>) -> MediaKindV {
    match m {
        MediaKindV::Animation { caption_entities, has_media_spoiler, animation, .. } => {
            MediaKindV::Animation { caption: c, caption_entities, has_media_spoiler, animation }
        },
        MediaKindV::Audio { caption_entities, media_group_id, audio, .. } => MediaKindV::Audio {
            caption: c,
            caption_entities,
            media_group_id,
            audio,
        },
        MediaKindV::Document { caption_entities, media_group_id, document, .. } => {
            MediaKindV::Document { caption: c, caption_entities, media_group_id, document }
        },
        MediaKindV::Photo { caption_entities, media_group_id, has_media_spoiler, photo, .. } => {
            MediaKindV::Photo {
                caption: c,
                caption_entities,
                media_group_id,
                has_media_spoiler,
                photo,
            }
        },
        MediaKindV::Video { caption_entities, media_group_id, has_media_spoiler, video, .. } => {
            MediaKindV::Video {
                caption: c,
                caption_entities,
                media_group_id,
                has_media_spoiler,
                video,
            }
        },
        MediaKindV::Voice { caption_entities, voice, .. } => MediaKindV::Voice {
            caption: c,
            caption_entities,
            voice,
        },
        _ => m,
    }
}

/// The same payload with its media-group id replaced, for kinds that can
/// belong to a media group; any other kind is returned unchanged.
pub open spec fn with_media_group_id(m: MediaKindV, g: Option<String>) -> MediaKindV {
    match m {
        MediaKindV::Audio { caption, caption_entities, audio, .. } => MediaKindV::Audio {
            caption,
            caption_entities,
            media_group_id: g,
            audio,
        },
        MediaKindV::Document { caption, caption_entities, document, .. } => MediaKindV::Document {
            caption,
            caption_entities,
            media_group_id: g,
            document,
        },
        MediaKindV::Photo { caption, caption_entities, has_media_spoiler, photo, .. } => {
            MediaKindV::Photo {
                caption,
                caption_entities,
                media_group_id: g,
                has_media_spoiler,
                photo,
            }
        },
        MediaKindV::Video { caption, caption_entities, has_media_spoiler, video, .. } => {
            MediaKindV::Video {
                caption,
                caption_entities,
                media_group_id: g,
                has_media_spoiler,
                video,
            }
        },
        _ => m,
    }
}

/// The deep view of a message.
#[verifier::ext_equal]
pub ghost struct MessageV {
    pub id: i32,
    pub thread_id: Option<i32>,
    pub date: i64,
    pub chat: Chat,
    pub via_bot: Option<User>,
    pub from: Option<User>,
    pub sender_chat: Option<Chat>,
    pub author_signature: Option<String>,
    pub forward_origin: Option<ForwardOrigin>,
    pub reply_to_message: Option<Box<MessageV>>,
    pub edit_date: Option<i64>,
    pub reply_markup: Option<Seq<Seq<InlineKeyboardButton>>>,
    pub is_topic_message: bool,
    pub is_automatic_forward: bool,
    pub has_protected_content: bool,
    pub media_kind: MediaKindV,
}

/// A message: id, chat, sender data, flags and exactly one payload.
#[derive(Debug)]
pub struct Message {
    pub id: i32,
    pub thread_id: Option<i32>,
    pub date: i64,
    pub chat: Chat,
    pub via_bot: Option<User>,
    pub from: Option<User>,
    pub sender_chat: Option<Chat>,
    pub author_signature: Option<String>,
    pub forward_origin: Option<ForwardOrigin>,
    pub reply_to_message: Option<Box<Message>>,
    pub edit_date: Option<i64>,
    pub reply_markup: Option<InlineKeyboardMarkup>,
    pub is_topic_message: bool,
    pub is_automatic_forward: bool,
    pub has_protected_content: bool,
    pub media_kind: MediaKind,
}

/// The deep view of a message, following the reply chain.
pub open spec fn message_view(m: Message) -> MessageV
    decreases m,
{
    MessageV {
        id: m.id,
        thread_id: m.thread_id,
        date: m.date,
        chat: m.chat,
        via_bot: m.via_bot,
        from: m.from,
        sender_chat: m.sender_chat,
        author_signature: m.author_signature,
        forward_origin: m.forward_origin,
        reply_to_message: match m.reply_to_message {
            Some(b) => Some(Box::new(message_view(*b))),
            None => None,
        },
        edit_date: m.edit_date,
        reply_markup: match m.reply_markup {
            Some(mk) => Some(mk.deep_view()),
            None => None,
        },
        is_topic_message: m.is_topic_message,
        is_automatic_forward: m.is_automatic_forward,
        has_protected_content: m.has_protected_content,
        media_kind: m.media_kind.deep_view(),
    }
}

impl DeepView for Message {
    type V = MessageV;

    open spec fn deep_view(&self) -> MessageV {
        message_view(*self)
    }
}

impl Message {
    pub fn clone(&self) -> (r: Message)
        ensures
            r.deep_view() == self.deep_view(),
        decreases *self,
    {
        let r = Message {
            id: self.id,
            thread_id: self.thread_id,
            date: self.date,
            chat: self.chat.clone(),
            via_bot: clone_opt_user(&self.via_bot),
            from: clone_opt_user(&self.from),
            sender_chat: clone_opt_chat(&self.sender_chat),
            author_signature: clone_opt_string(&self.author_signature),
            forward_origin: clone_opt_origin(&self.forward_origin),
            reply_to_message: match &self.reply_to_message {
                Some(b) => Some(Box::new((**b).clone())),
                None => None,
            },
            edit_date: self.edit_date,
            reply_markup: clone_opt_markup(&self.reply_markup),
            is_topic_message: self.is_topic_message,
            is_automatic_forward: self.is_automatic_forward,
            has_protected_content: self.has_protected_content,
            media_kind: self.media_kind.clone(),
        };
        assert(r.deep_view() =~= self.deep_view());
        r
    }
}

pub fn clone_opt_user(u: &Option<User>) -> (r: Option<User>)
    ensures
        r == *u,
{
    match u {
        Some(v) => Some(v.clone()),
        None => None,
    }
}

pub fn clone_opt_chat(c: &Option<Chat>) -> (r: Option<Chat>)
    ensures
        r == *c,
{
    match c {
        Some(v) => Some(v.clone()),
        None => None,
    }
}

pub fn clone_opt_origin(o: &Option<ForwardOrigin>) -> (r: Option<ForwardOrigin>)
    ensures
        r == *o,
{
    match o {
        Some(v) => Some(v.clone()),
        None => None,
    }
}


/// The same payload with caption and caption entities replaced, for
/// kinds that carry a caption; any other kind is returned unchanged.
pub open spec fn with_caption_data(
    m: MediaKindV,
    c: Option<String>,
    e: Seq<MessageEntity>,
) -> MediaKindV {
    match m {
        MediaKindV::Animation { has_media_spoiler, animation, .. } => MediaKindV::Animation {
            caption: c,
            caption_entities: e,
            has_media_spoiler,
            animation,
        },
        MediaKindV::Audio { media_group_id, audio, .. } => MediaKindV::Audio {
            caption: c,
            caption_entities: e,
            media_group_id,
            audio,
        },
        MediaKindV::Document { media_group_id, document, .. } => MediaKindV::Document {
            caption: c,
            caption_entities: e,
            media_group_id,
            document,
        },
        MediaKindV::Photo { media_group_id, has_media_spoiler, photo, .. } => MediaKindV::Photo {
            caption: c,
            caption_entities: e,
            media_group_id,
            has_media_spoiler,
            photo,
        },
        MediaKindV::Video { media_group_id, has_media_spoiler, video, .. } => MediaKindV::Video {
            caption: c,
            caption_entities: e,
            media_group_id,
            has_media_spoiler,
            video,
        },
        MediaKindV::Voice { voice, .. } => MediaKindV::Voice {
            caption: c,
            caption_entities: e,
            voice,
        },
        _ => m,
    }
}


/// The text of a text payload.
pub open spec fn text_of(m: MediaKindV) -> Option<String> {
    match m {
        MediaKindV::Text { text, .. } => Some(text),
        _ => None,
    }
}

impl Message {
    /// The text, for a text message.
    pub fn text(&self) -> (r: Option<&String>)
        ensures
            r is Some <==> self.deep_view().media_kind is Text,
            r matches Some(t) ==> text_of(self.deep_view().media_kind) == Some(*t),
    {
        match &self.media_kind {
            MediaKind::Text { text, .. } => Some(text),
            _ => None,
        }
    }

    /// The text entities, for a text message.
    pub fn entities(&self) -> (r: Option<&Vec<MessageEntity>>)
        ensures
            r is Some <==> self.deep_view().media_kind is Text,
            r matches Some(v) ==> self.deep_view().media_kind matches MediaKindV::Text {
                entities,
                ..
            } && entities == v@,
    {
        match &self.media_kind {
            MediaKind::Text { entities, .. } => Some(entities),
            _ => None,
        }
    }

    /// The caption, for a payload kind that carries one.
    pub fn caption(&self) -> (r: Option<&String>)
        ensures
            match r {
                Some(c) => caption_of(self.deep_view().media_kind) == Some(*c),
                None => caption_of(self.deep_view().media_kind) is None,
            },
    {
        match &self.media_kind {
            MediaKind::Animation { caption, .. } => caption.as_ref(),
            MediaKind::Audio { caption, .. } => caption.as_ref(),
            MediaKind::Document { caption, .. } => caption.as_ref(),
            MediaKind::Photo { caption, .. } => caption.as_ref(),
            MediaKind::Video { caption, .. } => caption.as_ref(),
            MediaKind::Voice { caption, .. } => caption.as_ref(),
            _ => None,
        }
    }

    /// The caption entities, for a payload kind that carries a caption.
    pub fn caption_entities(&self) -> (r: Option<&Vec<MessageEntity>>)
        ensures
            r is Some <==> has_caption_field(self.deep_view().media_kind),
            r matches Some(v) ==> caption_entities_of(self.deep_view().media_kind) == v@,
    {
        match &self.media_kind {
            MediaKind::Animation { caption_entities, .. } => Some(caption_entities),
            MediaKind::Audio { caption_entities, .. } => Some(caption_entities),
            MediaKind::Document { caption_entities, .. } => Some(caption_entities),
            MediaKind::Photo { caption_entities, .. } => Some(caption_entities),
            MediaKind::Video { caption_entities, .. } => Some(caption_entities),
            MediaKind::Voice { caption_entities, .. } => Some(caption_entities),
            _ => None,
        }
    }

    /// The media-group id, for a payload kind that can belong to one.
    pub fn media_group_id(&self) -> (r: Option<&String>)
        ensures
            match r {
                Some(g) => media_group_id_of(self.deep_view().media_kind) == Some(*g),
                None => media_group_id_of(self.deep_view().media_kind) is None,
            },
    {
        match &self.media_kind {
            MediaKind::Audio { media_group_id, .. } => media_group_id.as_ref(),
            MediaKind::Document { media_group_id, .. } => media_group_id.as_ref(),
            MediaKind::Photo { media_group_id, .. } => media_group_id.as_ref(),
            MediaKind::Video { media_group_id, .. } => media_group_id.as_ref(),
            _ => None,
        }
    }

    /// The message this one replies to, if any.
    pub fn reply_to_message(&self) -> (r: Option<&Message>)
        ensures
            r is Some <==> self.deep_view().reply_to_message is Some,
            r matches Some(m) ==> self.deep_view().reply_to_message == Some(
                Box::new(m.deep_view()),
            ),
    {
        match &self.reply_to_message {
            Some(b) => Some(&**b),
            None => None,
        }
    }

    /// The date the forwarded original was sent, if this message was
    /// forwarded.
    pub fn forward_date(&self) -> (r: Option<i64>)
        ensures
            match self.deep_view().forward_origin {
                Some(o) => r == Some(o.spec_date()),
                None => r is None,
            },
    {
        match &self.forward_origin {
            Some(o) => Some(o.date()),
            None => None,
        }
    }

    /// The photo renditions, for a photo message.
    pub fn photo(&self) -> (r: Option<&Vec<PhotoSize>>)
        ensures
            r is Some <==> self.deep_view().media_kind is Photo,
            r matches Some(v) ==> self.deep_view().media_kind matches MediaKindV::Photo {
                photo,
                ..
            } && photo == v@,
    {
        match &self.media_kind {
            MediaKind::Photo { photo, .. } => Some(photo),
            _ => None,
        }
    }

    /// The audio payload, for an audio message.
    pub fn audio(&self) -> (r: Option<&Audio>)
        ensures
            r is Some <==> self.deep_view().media_kind is Audio,
            r matches Some(a) ==> self.deep_view().media_kind matches MediaKindV::Audio {
                audio,
                ..
            } && audio == *a,
    {
        match &self.media_kind {
            MediaKind::Audio { audio, .. } => Some(audio),
            _ => None,
        }
    }

    /// The document payload, for a document message.
    pub fn document(&self) -> (r: Option<&Document>)
        ensures
            r is Some <==> self.deep_view().media_kind is Document,
            r matches Some(d) ==> self.deep_view().media_kind matches MediaKindV::Document {
                document,
                ..
            } && document == *d,
    {
        match &self.media_kind {
            MediaKind::Document { document, .. } => Some(document),
            _ => None,
        }
    }

    /// The video payload, for a video message.
    pub fn video(&self) -> (r: Option<&Video>)
        ensures
            r is Some <==> self.deep_view().media_kind is Video,
            r matches Some(v) ==> self.deep_view().media_kind matches MediaKindV::Video {
                video,
                ..
            } && video == *v,
    {
        match &self.media_kind {
            MediaKind::Video { video, .. } => Some(video),
            _ => None,
        }
    }

    /// The animation payload, for an animation message.
    pub fn animation(&self) -> (r: Option<&Animation>)
        ensures
            r is Some <==> self.deep_view().media_kind is Animation,
            r matches Some(a) ==> self.deep_view().media_kind matches MediaKindV::Animation {
                animation,
                ..
            } && animation == *a,
    {
        match &self.media_kind {
            MediaKind::Animation { animation, .. } => Some(animation),
            _ => None,
        }
    }

    /// The video-note payload, for a video-note message.
    pub fn video_note(&self) -> (r: Option<&VideoNote>)
        ensures
            r is Some <==> self.deep_view().media_kind is VideoNote,
            r matches Some(v) ==> self.deep_view().media_kind matches MediaKindV::VideoNote {
                video_note,
            } && video_note == *v,
    {
        match &self.media_kind {
            MediaKind::VideoNote { video_note } => Some(video_note),
            _ => None,
        }
    }

    /// The voice payload, for a voice message.
    pub fn voice(&self) -> (r: Option<&Voice>)
        ensures
            r is Some <==> self.deep_view().media_kind is Voice,
            r matches Some(v) ==> self.deep_view().media_kind matches MediaKindV::Voice {
                voice,
                ..
            } && voice == *v,
    {
        match &self.media_kind {
            MediaKind::Voice { voice, .. } => Some(voice),
            _ => None,
        }
    }

    /// The dice payload, for a dice message.
    pub fn dice(&self) -> (r: Option<Dice>)
        ensures
            r is Some <==> self.deep_view().media_kind is Dice,
            r matches Some(d) ==> self.deep_view().media_kind == (MediaKindV::Dice { dice: d }),
    {
        match &self.media_kind {
            MediaKind::Dice { dice } => Some(*dice),
            _ => None,
        }
    }

    /// The sticker payload, for a sticker message.
    pub fn sticker(&self) -> (r: Option<&Sticker>)
        ensures
            r is Some <==> self.deep_view().media_kind is Sticker,
            r matches Some(v) ==> self.deep_view().media_kind matches MediaKindV::Sticker {
                sticker,
            } && sticker == *v,
    {
        match &self.media_kind {
            MediaKind::Sticker { sticker } => Some(sticker),
            _ => None,
        }
    }

    /// The contact payload, for a contact message.
    pub fn contact(&self) -> (r: Option<&Contact>)
        ensures
            r is Some <==> self.deep_view().media_kind is Contact,
            r matches Some(v) ==> self.deep_view().media_kind matches MediaKindV::Contact {
                contact,
            } && contact == *v,
    {
        match &self.media_kind {
            MediaKind::Contact { contact } => Some(contact),
            _ => None,
        }
    }

    /// The location payload, for a location message.
    pub fn location(&self) -> (r: Option<Location>)
        ensures
            r is Some <==> self.deep_view().media_kind is Location,
            r matches Some(l) ==> self.deep_view().media_kind == (MediaKindV::Location {
                location: l,
            }),
    {
        match &self.media_kind {
            MediaKind::Location { location } => Some(*location),
            _ => None,
        }
    }

    /// The venue payload, for a venue message.
    pub fn venue(&self) -> (r: Option<&Venue>)
        ensures
            r is Some <==> self.deep_view().media_kind is Venue,
            r matches Some(v) ==> self.deep_view().media_kind matches MediaKindV::Venue {
                venue,
            } && venue == *v,
    {
        match &self.media_kind {
            MediaKind::Venue { venue } => Some(venue),
            _ => None,
        }
    }

    /// The poll payload, for a poll message.
    pub fn poll(&self) -> (r: Option<&Poll>)
        ensures
            r is Some <==> self.deep_view().media_kind is Poll,
            r matches Some(p) ==> self.deep_view().media_kind matches MediaKindV::Poll {
                poll,
            } && poll == p.deep_view(),
    {
        match &self.media_kind {
            MediaKind::Poll { poll } => Some(poll),
            _ => None,
        }
    }

    /// The game payload, for a game message.
    pub fn game(&self) -> (r: Option<&Game>)
        ensures
            r is Some <==> self.deep_view().media_kind is Game,
            r matches Some(g) ==> self.deep_view().media_kind matches MediaKindV::Game {
                game,
            } && game == g.deep_view(),
    {
        match &self.media_kind {
            MediaKind::Game { game } => Some(game),
            _ => None,
        }
    }
}

} // verus!
