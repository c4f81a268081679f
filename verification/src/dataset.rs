//! Fixture builders: pre-populated entity scaffolds with per-field
//! overrides.
//!
//! Builders layer composition-style: a scaffold layer (id, chat, date)
//! sits inside a common layer (sender, reply target, flags), which sits
//! inside each kind-specific message builder.  Every field is public and
//! the commonly overridden ones also have fluent setters, so a test can
//! override any field independently before `build()`.

pub mod message;

use vstd::prelude::*;

use crate::message::{MediaKindV, Message, MessageV, message_view};
use crate::outside::now_timestamp;
use crate::types::{
    Chat, ChatKind, FileMeta, ForwardOrigin, InlineKeyboardMarkup, Location,
    PhotoSize, User, Video,
};

verus! {

/// The default user fixture: id 12345, a human account named "First".
pub open spec fn is_default_user(u: User) -> bool {
    &&& u.id == 12345
    &&& !u.is_bot
    &&& u.first_name@ == "First"@
    &&& u.last_name is None
    &&& u.username is None
}

/// The default private chat fixture: id 12345678, no username.
pub open spec fn is_default_private_chat(c: Chat) -> bool {
    &&& c.id == 12345678
    &&& c.kind == ChatKind::Private
    &&& c.username is None
    &&& c.first_name is None
    &&& c.title is None
}

/// Builds a [`User`] from layered defaults.
pub struct MockUser {
    pub id: u64,
    pub is_bot: bool,
    pub first_name: String,
    pub last_name: Option<String>,
    pub username: Option<String>,
}

impl MockUser {
    /// A user with the documented defaults.
    pub fn new() -> (r: MockUser)
        ensures
            is_default_user(r.peek()),
    {
        MockUser {
            id: 12345,
            is_bot: false,
            first_name: "First".to_owned(),
            last_name: None,
            username: None,
        }
    }

    /// The user this builder would currently build.
    pub open spec fn peek(&self) -> User {
        User {
            id: self.id,
            is_bot: self.is_bot,
            first_name: self.first_name,
            last_name: self.last_name,
            username: self.username,
        }
    }

    pub fn id(self, id: u64) -> (r: MockUser)
        ensures
            r == (MockUser { id, ..self }),
    {
        MockUser { id, ..self }
    }

    pub fn is_bot(self, is_bot: bool) -> (r: MockUser)
        ensures
            r == (MockUser { is_bot, ..self }),
    {
        MockUser { is_bot, ..self }
    }

    pub fn first_name(self, first_name: String) -> (r: MockUser)
        ensures
            r == (MockUser { first_name, ..self }),
    {
        MockUser { first_name, ..self }
    }

    pub fn last_name(self, last_name: String) -> (r: MockUser)
        ensures
            r == (MockUser { last_name: Some(last_name), ..self }),
    {
        MockUser { last_name: Some(last_name), ..self }
    }

    pub fn username(self, username: String) -> (r: MockUser)
        ensures
            r == (MockUser { username: Some(username), ..self }),
    {
        MockUser { username: Some(username), ..self }
    }

    pub fn build(self) -> (r: User)
        ensures
            r == self.peek(),
    {
        User {
            id: self.id,
            is_bot: self.is_bot,
            first_name: self.first_name,
            last_name: self.last_name,
            username: self.username,
        }
    }
}

/// Builds a private [`Chat`] from layered defaults.
pub struct MockPrivateChat {
    pub id: i64,
    pub username: Option<String>,
    pub first_name: Option<String>,
}

impl MockPrivateChat {
    pub fn new() -> (r: MockPrivateChat)
        ensures
            is_default_private_chat(r.peek()),
    {
        MockPrivateChat { id: 12345678, username: None, first_name: None }
    }

    pub open spec fn peek(&self) -> Chat {
        Chat {
            id: self.id,
            kind: ChatKind::Private,
            username: self.username,
            first_name: self.first_name,
            title: None,
        }
    }

    pub fn id(self, id: i64) -> (r: MockPrivateChat)
        ensures
            r == (MockPrivateChat { id, ..self }),
    {
        MockPrivateChat { id, ..self }
    }

    pub fn username(self, username: String) -> (r: MockPrivateChat)
        ensures
            r == (MockPrivateChat { username: Some(username), ..self }),
    {
        MockPrivateChat { username: Some(username), ..self }
    }

    pub fn first_name(self, first_name: String) -> (r: MockPrivateChat)
        ensures
            r == (MockPrivateChat { first_name: Some(first_name), ..self }),
    {
        MockPrivateChat { first_name: Some(first_name), ..self }
    }

    pub fn build(self) -> (r: Chat)
        ensures
            r == self.peek(),
    {
        Chat {
            id: self.id,
            kind: ChatKind::Private,
            username: self.username,
            first_name: self.first_name,
            title: None,
        }
    }
}

/// Builds a group [`Chat`] from layered defaults.
pub struct MockGroupChat {
    pub id: i64,
    pub title: String,
}

impl MockGroupChat {
    pub fn new() -> (r: MockGroupChat)
        ensures
            r.id == -12345678,
            r.title@ == "Group chat"@,
    {
        MockGroupChat { id: -12345678, title: "Group chat".to_owned() }
    }

    pub open spec fn peek(&self) -> Chat {
        Chat {
            id: self.id,
            kind: ChatKind::Group,
            username: None,
            first_name: None,
            title: Some(self.title),
        }
    }

    pub fn id(self, id: i64) -> (r: MockGroupChat)
        ensures
            r == (MockGroupChat { id, ..self }),
    {
        MockGroupChat { id, ..self }
    }

    pub fn title(self, title: String) -> (r: MockGroupChat)
        ensures
            r == (MockGroupChat { title, ..self }),
    {
        MockGroupChat { title, ..self }
    }

    pub fn build(self) -> (r: Chat)
        ensures
            r == self.peek(),
    {
        Chat {
            id: self.id,
            kind: ChatKind::Group,
            username: None,
            first_name: None,
            title: Some(self.title),
        }
    }
}

/// Builds a supergroup [`Chat`] from layered defaults.
pub struct MockSupergroupChat {
    pub id: i64,
    pub username: Option<String>,
    pub title: Option<String>,
}

impl MockSupergroupChat {
    pub fn new() -> (r: MockSupergroupChat)
        ensures
            r.id == -10012345678,
            r.username is None,
            r.title is None,
    {
        MockSupergroupChat { id: -10012345678, username: None, title: None }
    }

    pub open spec fn peek(&self) -> Chat {
        Chat {
            id: self.id,
            kind: ChatKind::Supergroup,
            username: self.username,
            first_name: None,
            title: self.title,
        }
    }

    pub fn id(self, id: i64) -> (r: MockSupergroupChat)
        ensures
            r == (MockSupergroupChat { id, ..self }),
    {
        MockSupergroupChat { id, ..self }
    }

    pub fn username(self, username: String) -> (r: MockSupergroupChat)
        ensures
            r == (MockSupergroupChat { username: Some(username), ..self }),
    {
        MockSupergroupChat { username: Some(username), ..self }
    }

    pub fn title(self, title: String) -> (r: MockSupergroupChat)
        ensures
            r == (MockSupergroupChat { title: Some(title), ..self }),
    {
        MockSupergroupChat { title: Some(title), ..self }
    }

    pub fn build(self) -> (r: Chat)
        ensures
            r == self.peek(),
    {
        Chat {
            id: self.id,
            kind: ChatKind::Supergroup,
            username: self.username,
            first_name: None,
            title: self.title,
        }
    }
}

/// Builds a channel [`Chat`] from layered defaults.
pub struct MockChannelChat {
    pub id: i64,
    pub username: Option<String>,
    pub title: Option<String>,
}

impl MockChannelChat {
    pub fn new() -> (r: MockChannelChat)
        ensures
            r.id == -10087654321,
            r.username is None,
            r.title is None,
    {
        MockChannelChat { id: -10087654321, username: None, title: None }
    }

    pub open spec fn peek(&self) -> Chat {
        Chat {
            id: self.id,
            kind: ChatKind::Channel,
            username: self.username,
            first_name: None,
            title: self.title,
        }
    }

    pub fn id(self, id: i64) -> (r: MockChannelChat)
        ensures
            r == (MockChannelChat { id, ..self }),
    {
        MockChannelChat { id, ..self }
    }

    pub fn username(self, username: String) -> (r: MockChannelChat)
        ensures
            r == (MockChannelChat { username: Some(username), ..self }),
    {
        MockChannelChat { username: Some(username), ..self }
    }

    pub fn title(self, title: String) -> (r: MockChannelChat)
        ensures
            r == (MockChannelChat { title: Some(title), ..self }),
    {
        MockChannelChat { title: Some(title), ..self }
    }

    pub fn build(self) -> (r: Chat)
        ensures
            r == self.peek(),
    {
        Chat {
            id: self.id,
            kind: ChatKind::Channel,
            username: self.username,
            first_name: None,
            title: self.title,
        }
    }
}

/// The location the location builder starts from: 50 degrees north,
/// 30 degrees east.
pub open spec fn default_location() -> Location {
    Location {
        latitude_e6: 50000000,
        longitude_e6: 30000000,
        horizontal_accuracy_e6: None,
        live_period: None,
        heading: None,
        proximity_alert_radius: None,
    }
}

/// The default photo-size fixture: a 100 by 100 rendition of a file
/// with placeholder identifiers.
pub open spec fn is_default_photo_size(p: PhotoSize) -> bool {
    &&& p.width == 100
    &&& p.height == 100
    &&& p.file.id@ == "file_id"@
    &&& p.file.unique_id@ == "file_unique_id"@
    &&& p.file.size == 100
}

/// The default video fixture: 50 by 50, 50 seconds, placeholder file
/// identifiers, optional metadata absent.
pub open spec fn is_default_video(v: Video) -> bool {
    &&& v.width == 50
    &&& v.height == 50
    &&& v.duration == 50
    &&& v.thumb is None
    &&& v.file_name is None
    &&& v.mime_type is None
    &&& v.file.id@ == "file_id"@
    &&& v.file.unique_id@ == "file_unique_id"@
    &&& v.file.size == 50
}

/// Builds a [`PhotoSize`] from layered defaults.
pub struct MockPhotoSize {
    pub width: u32,
    pub height: u32,
    pub file_id: String,
    pub file_unique_id: String,
    pub file_size: u32,
}

impl MockPhotoSize {
    pub fn new() -> (r: MockPhotoSize)
        ensures
            r.width == 100,
            r.height == 100,
            r.file_id@ == "file_id"@,
            r.file_unique_id@ == "file_unique_id"@,
            r.file_size == 100,
    {
        MockPhotoSize {
            width: 100,
            height: 100,
            file_id: "file_id".to_owned(),
            file_unique_id: "file_unique_id".to_owned(),
            file_size: 100,
        }
    }

    pub open spec fn peek(&self) -> PhotoSize {
        PhotoSize {
            file: FileMeta {
                id: self.file_id,
                unique_id: self.file_unique_id,
                size: self.file_size,
            },
            width: self.width,
            height: self.height,
        }
    }

    pub fn width(self, width: u32) -> (r: MockPhotoSize)
        ensures
            r == (MockPhotoSize { width, ..self }),
    {
        MockPhotoSize { width, ..self }
    }

    pub fn height(self, height: u32) -> (r: MockPhotoSize)
        ensures
            r == (MockPhotoSize { height, ..self }),
    {
        MockPhotoSize { height, ..self }
    }

    pub fn file_id(self, file_id: String) -> (r: MockPhotoSize)
        ensures
            r == (MockPhotoSize { file_id, ..self }),
    {
        MockPhotoSize { file_id, ..self }
    }

    pub fn file_unique_id(self, file_unique_id: String) -> (r: MockPhotoSize)
        ensures
            r == (MockPhotoSize { file_unique_id, ..self }),
    {
        MockPhotoSize { file_unique_id, ..self }
    }

    pub fn file_size(self, file_size: u32) -> (r: MockPhotoSize)
        ensures
            r == (MockPhotoSize { file_size, ..self }),
    {
        MockPhotoSize { file_size, ..self }
    }

    pub fn build(self) -> (r: PhotoSize)
        ensures
            r == self.peek(),
    {
        PhotoSize {
            file: FileMeta {
                id: self.file_id,
                unique_id: self.file_unique_id,
                size: self.file_size,
            },
            width: self.width,
            height: self.height,
        }
    }
}

/// Builds a [`Video`] from layered defaults.
pub struct MockVideo {
    pub width: u32,
    pub height: u32,
    pub duration: u32,
    pub thumb: Option<PhotoSize>,
    pub file_name: Option<String>,
    pub mime_type: Option<String>,
    pub file_id: String,
    pub file_unique_id: String,
    pub file_size: u32,
}

impl MockVideo {
    pub fn new() -> (r: MockVideo)
        ensures
            r.width == 50,
            r.height == 50,
            r.duration == 50,
            r.thumb is None,
            r.file_name is None,
            r.mime_type is None,
            r.file_id@ == "file_id"@,
            r.file_unique_id@ == "file_unique_id"@,
            r.file_size == 50,
    {
        MockVideo {
            width: 50,
            height: 50,
            duration: 50,
            thumb: None,
            file_name: None,
            mime_type: None,
            file_id: "file_id".to_owned(),
            file_unique_id: "file_unique_id".to_owned(),
            file_size: 50,
        }
    }

    pub open spec fn peek(&self) -> Video {
        Video {
            file: FileMeta {
                id: self.file_id,
                unique_id: self.file_unique_id,
                size: self.file_size,
            },
            width: self.width,
            height: self.height,
            duration: self.duration,
            thumb: self.thumb,
            file_name: self.file_name,
            mime_type: self.mime_type,
        }
    }

    pub fn file_id(self, file_id: String) -> (r: MockVideo)
        ensures
            r == (MockVideo { file_id, ..self }),
    {
        MockVideo { file_id, ..self }
    }

    pub fn file_name(self, file_name: String) -> (r: MockVideo)
        ensures
            r == (MockVideo { file_name: Some(file_name), ..self }),
    {
        MockVideo { file_name: Some(file_name), ..self }
    }

    pub fn duration(self, duration: u32) -> (r: MockVideo)
        ensures
            r == (MockVideo { duration, ..self }),
    {
        MockVideo { duration, ..self }
    }

    pub fn build(self) -> (r: Video)
        ensures
            r == self.peek(),
    {
        Video {
            file: FileMeta {
                id: self.file_id,
                unique_id: self.file_unique_id,
                size: self.file_size,
            },
            width: self.width,
            height: self.height,
            duration: self.duration,
            thumb: self.thumb,
            file_name: self.file_name,
            mime_type: self.mime_type,
        }
    }
}

/// Builds a [`Location`]; coordinates default to 50 degrees north,
/// 30 degrees east, held in millionths of a degree.
pub struct MockLocation {
    pub latitude_e6: i64,
    pub longitude_e6: i64,
}

impl MockLocation {
    pub fn new() -> (r: MockLocation)
        ensures
            r.latitude_e6 == 50000000,
            r.longitude_e6 == 30000000,
    {
        MockLocation { latitude_e6: 50000000, longitude_e6: 30000000 }
    }

    pub open spec fn peek(&self) -> Location {
        Location {
            latitude_e6: self.latitude_e6,
            longitude_e6: self.longitude_e6,
            horizontal_accuracy_e6: None,
            live_period: None,
            heading: None,
            proximity_alert_radius: None,
        }
    }

    pub fn latitude_e6(self, latitude_e6: i64) -> (r: MockLocation)
        ensures
            r == (MockLocation { latitude_e6, ..self }),
    {
        MockLocation { latitude_e6, ..self }
    }

    pub fn longitude_e6(self, longitude_e6: i64) -> (r: MockLocation)
        ensures
            r == (MockLocation { longitude_e6, ..self }),
    {
        MockLocation { longitude_e6, ..self }
    }

    pub fn build(self) -> (r: Location)
        ensures
            r == self.peek(),
    {
        Location {
            latitude_e6: self.latitude_e6,
            longitude_e6: self.longitude_e6,
            horizontal_accuracy_e6: None,
            live_period: None,
            heading: None,
            proximity_alert_radius: None,
        }
    }
}

/// The scaffold layer every message builder starts from: default id 1,
/// a default private chat, the date taken from the clock.
pub struct MessageScaffold {
    pub id: i32,
    pub thread_id: Option<i32>,
    pub date: i64,
    pub chat: Chat,
    pub via_bot: Option<User>,
}

impl MessageScaffold {
    /// The scaffold defaults; the date comes from the clock, so nothing
    /// is promised of it.
    pub fn new() -> (r: MessageScaffold)
        ensures
            r.id == 1,
            r.thread_id is None,
            is_default_private_chat(r.chat),
            r.via_bot is None,
    {
        MessageScaffold {
            id: 1,
            thread_id: None,
            date: now_timestamp(),
            chat: MockPrivateChat::new().build(),
            via_bot: None,
        }
    }
}

/// The common layer: everything a message of any payload kind carries.
pub struct MessageCommon {
    pub scaffold: MessageScaffold,
    pub from: Option<User>,
    pub sender_chat: Option<Chat>,
    pub author_signature: Option<String>,
    pub forward_origin: Option<ForwardOrigin>,
    pub reply_to_message: Option<Box<Message>>,
    pub edit_date: Option<i64>,
    pub reply_markup: Option<InlineKeyboardMarkup>,
    pub is_topic_message: bool,
    pub is_automatic_forward: bool,
    pub has_protected_content: bool,
}

/// The common-layer defaults, date excepted.
pub open spec fn is_default_common(c: MessageCommon) -> bool {
    &&& c.scaffold.id == 1
    &&& c.scaffold.thread_id is None
    &&& is_default_private_chat(c.scaffold.chat)
    &&& c.scaffold.via_bot is None
    &&& c.from matches Some(u) && is_default_user(u)
    &&& c.sender_chat matches Some(ch) && is_default_private_chat(ch)
    &&& c.author_signature is None
    &&& c.forward_origin is None
    &&& c.reply_to_message is None
    &&& c.edit_date is None
    &&& c.reply_markup is None
    &&& !c.is_topic_message
    &&& !c.is_automatic_forward
    &&& !c.has_protected_content
}

impl MessageCommon {
    /// The common defaults: sent by the default user in the default
    /// private chat, with every optional field absent and every flag off.
    pub fn new() -> (r: MessageCommon)
        ensures
            is_default_common(r),
    {
        MessageCommon {
            scaffold: MessageScaffold::new(),
            from: Some(MockUser::new().build()),
            sender_chat: Some(MockPrivateChat::new().build()),
            author_signature: None,
            forward_origin: None,
            reply_to_message: None,
            edit_date: None,
            reply_markup: None,
            is_topic_message: false,
            is_automatic_forward: false,
            has_protected_content: false,
        }
    }

    /// The message this layer would build around the given payload.
    pub open spec fn built_view(&self, media_kind: MediaKindV) -> MessageV {
        MessageV {
            id: self.scaffold.id,
            thread_id: self.scaffold.thread_id,
            date: self.scaffold.date,
            chat: self.scaffold.chat,
            via_bot: self.scaffold.via_bot,
            from: self.from,
            sender_chat: self.sender_chat,
            author_signature: self.author_signature,
            forward_origin: self.forward_origin,
            reply_to_message: match self.reply_to_message {
                Some(b) => Some(Box::new(message_view(*b))),
                None => None,
            },
            edit_date: self.edit_date,
            reply_markup: match self.reply_markup {
                Some(m) => Some(m.deep_view()),
                None => None,
            },
            is_topic_message: self.is_topic_message,
            is_automatic_forward: self.is_automatic_forward,
            has_protected_content: self.has_protected_content,
            media_kind,
        }
    }

    /// Finalizes this layer into a message with the given payload.
    pub fn build_with(self, media_kind: crate::message::MediaKind) -> (r: Message)
        ensures
            r.deep_view() == self.built_view(media_kind.deep_view()),
    {
        let r = Message {
            id: self.scaffold.id,
            thread_id: self.scaffold.thread_id,
            date: self.scaffold.date,
            chat: self.scaffold.chat,
            via_bot: self.scaffold.via_bot,
            from: self.from,
            sender_chat: self.sender_chat,
            author_signature: self.author_signature,
            forward_origin: self.forward_origin,
            reply_to_message: self.reply_to_message,
            edit_date: self.edit_date,
            reply_markup: self.reply_markup,
            is_topic_message: self.is_topic_message,
            is_automatic_forward: self.is_automatic_forward,
            has_protected_content: self.has_protected_content,
            media_kind,
        };
        r
    }

    pub fn id(self, id: i32) -> (r: MessageCommon)
        ensures
            r == (MessageCommon { scaffold: (MessageScaffold { id, ..self.scaffold }), ..self }),
    {
        MessageCommon { scaffold: MessageScaffold { id, ..self.scaffold }, ..self }
    }

    pub fn thread_id(self, thread_id: i32) -> (r: MessageCommon)
        ensures
            r == (MessageCommon {
                scaffold: (MessageScaffold { thread_id: Some(thread_id), ..self.scaffold }),
                ..self
            }),
    {
        MessageCommon {
            scaffold: MessageScaffold { thread_id: Some(thread_id), ..self.scaffold },
            ..self
        }
    }

    pub fn date(self, date: i64) -> (r: MessageCommon)
        ensures
            r == (MessageCommon { scaffold: (MessageScaffold { date, ..self.scaffold }), ..self }),
    {
        MessageCommon { scaffold: MessageScaffold { date, ..self.scaffold }, ..self }
    }

    pub fn chat(self, chat: Chat) -> (r: MessageCommon)
        ensures
            r == (MessageCommon { scaffold: (MessageScaffold { chat, ..self.scaffold }), ..self }),
    {
        MessageCommon { scaffold: MessageScaffold { chat, ..self.scaffold }, ..self }
    }

    pub fn via_bot(self, via_bot: User) -> (r: MessageCommon)
        ensures
            r == (MessageCommon {
                scaffold: (MessageScaffold { via_bot: Some(via_bot), ..self.scaffold }),
                ..self
            }),
    {
        MessageCommon {
            scaffold: MessageScaffold { via_bot: Some(via_bot), ..self.scaffold },
            ..self
        }
    }

    pub fn from(self, from: User) -> (r: MessageCommon)
        ensures
            r == (MessageCommon { from: Some(from), ..self }),
    {
        MessageCommon { from: Some(from), ..self }
    }

    pub fn sender_chat(self, sender_chat: Chat) -> (r: MessageCommon)
        ensures
            r == (MessageCommon { sender_chat: Some(sender_chat), ..self }),
    {
        MessageCommon { sender_chat: Some(sender_chat), ..self }
    }

    pub fn author_signature(self, author_signature: String) -> (r: MessageCommon)
        ensures
            r == (MessageCommon { author_signature: Some(author_signature), ..self }),
    {
        MessageCommon { author_signature: Some(author_signature), ..self }
    }

    pub fn forward_origin(self, forward_origin: ForwardOrigin) -> (r: MessageCommon)
        ensures
            r == (MessageCommon { forward_origin: Some(forward_origin), ..self }),
    {
        MessageCommon { forward_origin: Some(forward_origin), ..self }
    }

    pub fn reply_to_message(self, reply_to_message: Message) -> (r: MessageCommon)
        ensures
            r == (MessageCommon {
                reply_to_message: Some(Box::new(reply_to_message)),
                ..self
            }),
    {
        MessageCommon { reply_to_message: Some(Box::new(reply_to_message)), ..self }
    }

    pub fn edit_date(self, edit_date: i64) -> (r: MessageCommon)
        ensures
            r == (MessageCommon { edit_date: Some(edit_date), ..self }),
    {
        MessageCommon { edit_date: Some(edit_date), ..self }
    }

    pub fn reply_markup(self, reply_markup: InlineKeyboardMarkup) -> (r: MessageCommon)
        ensures
            r == (MessageCommon { reply_markup: Some(reply_markup), ..self }),
    {
        MessageCommon { reply_markup: Some(reply_markup), ..self }
    }

    pub fn is_topic_message(self, is_topic_message: bool) -> (r: MessageCommon)
        ensures
            r == (MessageCommon { is_topic_message, ..self }),
    {
        MessageCommon { is_topic_message, ..self }
    }

    pub fn is_automatic_forward(self, is_automatic_forward: bool) -> (r: MessageCommon)
        ensures
            r == (MessageCommon { is_automatic_forward, ..self }),
    {
        MessageCommon { is_automatic_forward, ..self }
    }

    pub fn has_protected_content(self, has_protected_content: bool) -> (r: MessageCommon)
        ensures
            r == (MessageCommon { has_protected_content, ..self }),
    {
        MessageCommon { has_protected_content, ..self }
    }
}

} // verus!
