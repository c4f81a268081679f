//! The protocol entity model: users, chats, files, media payload parts.
//!
//! Every type here holds plain values only, so that contracts can speak
//! of its contents directly.  Types whose fields survive a clone as equal
//! values (integers, `bool`, `String`, other such types) get a verified
//! `clone` that returns an equal value; types holding a `Vec` get one
//! that preserves the deep view instead.

use vstd::prelude::*;

verus! {

/// The kind of a chat: one private kind and three public ones.
#[derive(Clone, Copy, Debug, PartialEq, Eq, Structural)]
pub enum ChatKind {
    Private,
    Group,
    Supergroup,
    Channel,
}

/// The kind of a text/caption entity (a formatting span).
#[derive(Clone, Copy, Debug, PartialEq, Eq, Structural)]
pub enum MessageEntityKind {
    Bold,
    Italic,
    Underline,
    Strikethrough,
    Code,
    Url,
    Mention,
}

/// A formatting span over a text or caption, by character range.
#[derive(Clone, Copy, Debug, PartialEq, Eq, Structural)]
pub struct MessageEntity {
    pub kind: MessageEntityKind,
    pub offset: u32,
    pub length: u32,
}

impl DeepView for MessageEntity {
    type V = MessageEntity;

    open spec fn deep_view(&self) -> MessageEntity {
        *self
    }
}

impl MessageEntity {
    /// A bold span over `[offset, offset + length)`.
    pub fn bold(offset: u32, length: u32) -> (r: MessageEntity)
        ensures
            r == (MessageEntity { kind: MessageEntityKind::Bold, offset, length }),
    {
        MessageEntity { kind: MessageEntityKind::Bold, offset, length }
    }
}

/// The emoji a dice message was sent with.
#[derive(Clone, Copy, Debug, PartialEq, Eq, Structural)]
pub enum DiceEmoji {
    Dice,
    Darts,
    Basketball,
    Football,
    Bowling,
    SlotMachine,
}

/// A dice payload: the emoji and the rolled value.
#[derive(Clone, Copy, Debug, PartialEq, Eq, Structural)]
pub struct Dice {
    pub emoji: DiceEmoji,
    pub value: i32,
}

impl DeepView for Dice {
    type V = Dice;

    open spec fn deep_view(&self) -> Dice {
        *self
    }
}

/// A geographic point, in millionths of a degree so that the model
/// stays within plain integers.
#[derive(Clone, Copy, Debug, PartialEq, Eq)]
pub struct Location {
    pub latitude_e6: i64,
    pub longitude_e6: i64,
    pub horizontal_accuracy_e6: Option<i64>,
    pub live_period: Option<u32>,
    pub heading: Option<u16>,
    pub proximity_alert_radius: Option<u32>,
}

impl DeepView for Location {
    type V = Location;

    open spec fn deep_view(&self) -> Location {
        *self
    }
}

/// Identity and size of a stored file.
#[derive(Debug)]
pub struct FileMeta {
    pub id: String,
    pub unique_id: String,
    pub size: u32,
}

impl DeepView for FileMeta {
    type V = FileMeta;

    open spec fn deep_view(&self) -> FileMeta {
        *self
    }
}

impl FileMeta {
    pub fn clone(&self) -> (r: FileMeta)
        ensures
            r == *self,
    {
        FileMeta { id: self.id.clone(), unique_id: self.unique_id.clone(), size: self.size }
    }
}

/// A platform user or bot account.
#[derive(Debug)]
pub struct User {
    pub id: u64,
    pub is_bot: bool,
    pub first_name: String,
    pub last_name: Option<String>,
    pub username: Option<String>,
}

impl DeepView for User {
    type V = User;

    open spec fn deep_view(&self) -> User {
        *self
    }
}

impl User {
    pub fn clone(&self) -> (r: User)
        ensures
            r == *self,
    {
        User {
            id: self.id,
            is_bot: self.is_bot,
            first_name: self.first_name.clone(),
            last_name: clone_opt_string(&self.last_name),
            username: clone_opt_string(&self.username),
        }
    }
}

/// A chat of any kind; only the fields the mock logic reads.
#[derive(Debug)]
pub struct Chat {
    pub id: i64,
    pub kind: ChatKind,
    pub username: Option<String>,
    pub first_name: Option<String>,
    pub title: Option<String>,
}

impl DeepView for Chat {
    type V = Chat;

    open spec fn deep_view(&self) -> Chat {
        *self
    }
}

impl Chat {
    pub fn clone(&self) -> (r: Chat)
        ensures
            r == *self,
    {
        Chat {
            id: self.id,
            kind: self.kind,
            username: clone_opt_string(&self.username),
            first_name: clone_opt_string(&self.first_name),
            title: clone_opt_string(&self.title),
        }
    }
}

/// One rendition of a photo.
#[derive(Debug)]
pub struct PhotoSize {
    pub file: FileMeta,
    pub width: u32,
    pub height: u32,
}

impl DeepView for PhotoSize {
    type V = PhotoSize;

    open spec fn deep_view(&self) -> PhotoSize {
        *self
    }
}

impl PhotoSize {
    pub fn clone(&self) -> (r: PhotoSize)
        ensures
            r == *self,
    {
        PhotoSize { file: self.file.clone(), width: self.width, height: self.height }
    }
}

/// One button of an inline keyboard, with its callback payload.
#[derive(Debug)]
pub struct InlineKeyboardButton {
    pub text: String,
    pub callback_data: String,
}

impl DeepView for InlineKeyboardButton {
    type V = InlineKeyboardButton;

    open spec fn deep_view(&self) -> InlineKeyboardButton {
        *self
    }
}

impl InlineKeyboardButton {
    /// A callback button, as bots most often build them.
    pub fn callback(text: String, callback_data: String) -> (r: InlineKeyboardButton)
        ensures
            r == (InlineKeyboardButton { text, callback_data }),
    {
        InlineKeyboardButton { text, callback_data }
    }

    pub fn clone(&self) -> (r: InlineKeyboardButton)
        ensures
            r == *self,
    {
        InlineKeyboardButton {
            text: self.text.clone(),
            callback_data: self.callback_data.clone(),
        }
    }
}

/// An inline keyboard: rows of buttons attached to a message.
#[derive(Debug)]
pub struct InlineKeyboardMarkup {
    pub inline_keyboard: Vec<Vec<InlineKeyboardButton>>,
}

impl DeepView for InlineKeyboardMarkup {
    type V = Seq<Seq<InlineKeyboardButton>>;

    open spec fn deep_view(&self) -> Seq<Seq<InlineKeyboardButton>> {
        self.inline_keyboard.deep_view()
    }
}

impl InlineKeyboardMarkup {
    pub fn new(inline_keyboard: Vec<Vec<InlineKeyboardButton>>) -> (r: InlineKeyboardMarkup)
        ensures
            r.deep_view() == inline_keyboard.deep_view(),
    {
        InlineKeyboardMarkup { inline_keyboard }
    }

    pub fn clone(&self) -> (r: InlineKeyboardMarkup)
        ensures
            r.deep_view() == self.deep_view(),
    {
        let mut rows: Vec<Vec<InlineKeyboardButton>> = Vec::new();
        let mut i: usize = 0;
        while i < self.inline_keyboard.len()
            invariant
                i <= self.inline_keyboard.len(),
                rows@.len() == i,
                forall|k: int|
                    #![auto]
                    0 <= k < i ==> rows@[k]@ == self.inline_keyboard@[k]@,
            decreases self.inline_keyboard.len() - i,
        {
            let row = &self.inline_keyboard[i];
            let mut out_row: Vec<InlineKeyboardButton> = Vec::new();
            let mut j: usize = 0;
            while j < row.len()
                invariant
                    j <= row.len(),
                    out_row@ =~= row@.take(j as int),
                decreases row.len() - j,
            {
                out_row.push(row[j].clone());
                j += 1;
            }
            assert(out_row@ =~= row@);
            rows.push(out_row);
            i += 1;
        }
        let r = InlineKeyboardMarkup { inline_keyboard: rows };
        assert(r.deep_view() =~= self.deep_view());
        r
    }
}

/// The deep view of a reply markup.
pub ghost enum ReplyMarkupV {
    InlineKeyboard(Seq<Seq<InlineKeyboardButton>>),
    Keyboard,
    KeyboardRemove,
    ForceReply,
}

/// A reply markup of any kind.  Only the inline-keyboard variant carries
/// data the mock stores; the other kinds exist so requests can name them
/// and the server can drop them, as the platform does for messages.
#[derive(Debug)]
pub enum ReplyMarkup {
    InlineKeyboard(InlineKeyboardMarkup),
    Keyboard,
    KeyboardRemove,
    ForceReply,
}

impl DeepView for ReplyMarkup {
    type V = ReplyMarkupV;

    open spec fn deep_view(&self) -> ReplyMarkupV {
        match self {
            ReplyMarkup::InlineKeyboard(m) => ReplyMarkupV::InlineKeyboard(m.deep_view()),
            ReplyMarkup::Keyboard => ReplyMarkupV::Keyboard,
            ReplyMarkup::KeyboardRemove => ReplyMarkupV::KeyboardRemove,
            ReplyMarkup::ForceReply => ReplyMarkupV::ForceReply,
        }
    }
}

/// A shared phone contact.
#[derive(Debug)]
pub struct Contact {
    pub phone_number: String,
    pub first_name: String,
    pub last_name: Option<String>,
    pub user_id: Option<u64>,
    pub vcard: Option<String>,
}

impl DeepView for Contact {
    type V = Contact;

    open spec fn deep_view(&self) -> Contact {
        *self
    }
}

impl Contact {
    pub fn clone(&self) -> (r: Contact)
        ensures
            r == *self,
    {
        Contact {
            phone_number: self.phone_number.clone(),
            first_name: self.first_name.clone(),
            last_name: clone_opt_string(&self.last_name),
            user_id: self.user_id,
            vcard: clone_opt_string(&self.vcard),
        }
    }
}

/// A venue: a location with a name and address.
#[derive(Debug)]
pub struct Venue {
    pub location: Location,
    pub title: String,
    pub address: String,
    pub foursquare_id: Option<String>,
    pub foursquare_type: Option<String>,
    pub google_place_id: Option<String>,
    pub google_place_type: Option<String>,
}

impl DeepView for Venue {
    type V = Venue;

    open spec fn deep_view(&self) -> Venue {
        *self
    }
}

impl Venue {
    pub fn clone(&self) -> (r: Venue)
        ensures
            r == *self,
    {
        Venue {
            location: self.location,
            title: self.title.clone(),
            address: self.address.clone(),
            foursquare_id: clone_opt_string(&self.foursquare_id),
            foursquare_type: clone_opt_string(&self.foursquare_type),
            google_place_id: clone_opt_string(&self.google_place_id),
            google_place_type: clone_opt_string(&self.google_place_type),
        }
    }
}

/// One answer option of a poll.
#[derive(Debug)]
pub struct PollOption {
    pub text: String,
    pub voter_count: i32,
}

impl DeepView for PollOption {
    type V = PollOption;

    open spec fn deep_view(&self) -> PollOption {
        *self
    }
}

impl PollOption {
    pub fn clone(&self) -> (r: PollOption)
        ensures
            r == *self,
    {
        PollOption { text: self.text.clone(), voter_count: self.voter_count }
    }
}

/// Whether a poll is a plain poll or a quiz.
#[derive(Clone, Copy, Debug, PartialEq, Eq, Structural)]
pub enum PollType {
    Regular,
    Quiz,
}

/// The deep view of a poll.
pub ghost struct PollV {
    pub id: String,
    pub question: String,
    pub options: Seq<PollOption>,
    pub is_closed: bool,
    pub total_voter_count: i32,
    pub is_anonymous: bool,
    pub poll_type: PollType,
    pub allows_multiple_answers: bool,
    pub correct_option_id: Option<u8>,
    pub explanation: Option<String>,
    pub explanation_entities: Option<Seq<MessageEntity>>,
    pub open_period: Option<u16>,
    pub close_date: Option<i64>,
}

/// A poll payload.
#[derive(Debug)]
pub struct Poll {
    pub id: String,
    pub question: String,
    pub options: Vec<PollOption>,
    pub is_closed: bool,
    pub total_voter_count: i32,
    pub is_anonymous: bool,
    pub poll_type: PollType,
    pub allows_multiple_answers: bool,
    pub correct_option_id: Option<u8>,
    pub explanation: Option<String>,
    pub explanation_entities: Option<Vec<MessageEntity>>,
    pub open_period: Option<u16>,
    pub close_date: Option<i64>,
}

impl DeepView for Poll {
    type V = PollV;

    open spec fn deep_view(&self) -> PollV {
        PollV {
            id: self.id,
            question: self.question,
            options: self.options.deep_view(),
            is_closed: self.is_closed,
            total_voter_count: self.total_voter_count,
            is_anonymous: self.is_anonymous,
            poll_type: self.poll_type,
            allows_multiple_answers: self.allows_multiple_answers,
            correct_option_id: self.correct_option_id,
            explanation: self.explanation,
            explanation_entities: self.explanation_entities.deep_view(),
            open_period: self.open_period,
            close_date: self.close_date,
        }
    }
}

impl Poll {
    pub fn clone(&self) -> (r: Poll)
        ensures
            r.deep_view() == self.deep_view(),
    {
        let r = Poll {
            id: self.id.clone(),
            question: self.question.clone(),
            options: clone_poll_options(&self.options),
            is_closed: self.is_closed,
            total_voter_count: self.total_voter_count,
            is_anonymous: self.is_anonymous,
            poll_type: self.poll_type,
            allows_multiple_answers: self.allows_multiple_answers,
            correct_option_id: self.correct_option_id,
            explanation: clone_opt_string(&self.explanation),
            explanation_entities: clone_opt_entities(&self.explanation_entities),
            open_period: self.open_period,
            close_date: self.close_date,
        };
        assert(r.deep_view() =~= self.deep_view());
        r
    }
}

/// An animation file (a video without sound, shown as a GIF).
#[derive(Debug)]
pub struct Animation {
    pub file: FileMeta,
    pub width: u32,
    pub height: u32,
    pub duration: u32,
    pub thumb: Option<PhotoSize>,
    pub file_name: Option<String>,
    pub mime_type: Option<String>,
}

impl DeepView for Animation {
    type V = Animation;

    open spec fn deep_view(&self) -> Animation {
        *self
    }
}

impl Animation {
    pub fn clone(&self) -> (r: Animation)
        ensures
            r == *self,
    {
        Animation {
            file: self.file.clone(),
            width: self.width,
            height: self.height,
            duration: self.duration,
            thumb: clone_opt_photo_size(&self.thumb),
            file_name: clone_opt_string(&self.file_name),
            mime_type: clone_opt_string(&self.mime_type),
        }
    }
}

/// An audio file treated as music.
#[derive(Debug)]
pub struct Audio {
    pub file: FileMeta,
    pub duration: u32,
    pub performer: Option<String>,
    pub title: Option<String>,
    pub thumb: Option<PhotoSize>,
    pub file_name: Option<String>,
    pub mime_type: Option<String>,
}

impl DeepView for Audio {
    type V = Audio;

    open spec fn deep_view(&self) -> Audio {
        *self
    }
}

impl Audio {
    pub fn clone(&self) -> (r: Audio)
        ensures
            r == *self,
    {
        Audio {
            file: self.file.clone(),
            duration: self.duration,
            performer: clone_opt_string(&self.performer),
            title: clone_opt_string(&self.title),
            thumb: clone_opt_photo_size(&self.thumb),
            file_name: clone_opt_string(&self.file_name),
            mime_type: clone_opt_string(&self.mime_type),
        }
    }
}

/// A general file.
#[derive(Debug)]
pub struct Document {
    pub file: FileMeta,
    pub thumb: Option<PhotoSize>,
    pub file_name: Option<String>,
    pub mime_type: Option<String>,
}

impl DeepView for Document {
    type V = Document;

    open spec fn deep_view(&self) -> Document {
        *self
    }
}

impl Document {
    pub fn clone(&self) -> (r: Document)
        ensures
            r == *self,
    {
        Document {
            file: self.file.clone(),
            thumb: clone_opt_photo_size(&self.thumb),
            file_name: clone_opt_string(&self.file_name),
            mime_type: clone_opt_string(&self.mime_type),
        }
    }
}

/// What sort of sticker a sticker is.
#[derive(Clone, Copy, Debug, PartialEq, Eq, Structural)]
pub enum StickerKind {
    Regular,
    Mask,
    CustomEmoji,
}

/// The format a sticker is stored in.
#[derive(Clone, Copy, Debug, PartialEq, Eq, Structural)]
pub enum StickerFormat {
    Raster,
    Animated,
    Video,
}

/// A sticker file.
#[derive(Debug)]
pub struct Sticker {
    pub file: FileMeta,
    pub width: u16,
    pub height: u16,
    pub kind: StickerKind,
    pub format: StickerFormat,
    pub thumb: Option<PhotoSize>,
    pub emoji: Option<String>,
    pub set_name: Option<String>,
}

impl DeepView for Sticker {
    type V = Sticker;

    open spec fn deep_view(&self) -> Sticker {
        *self
    }
}

impl Sticker {
    pub fn clone(&self) -> (r: Sticker)
        ensures
            r == *self,
    {
        Sticker {
            file: self.file.clone(),
            width: self.width,
            height: self.height,
            kind: self.kind,
            format: self.format,
            thumb: clone_opt_photo_size(&self.thumb),
            emoji: clone_opt_string(&self.emoji),
            set_name: clone_opt_string(&self.set_name),
        }
    }
}

/// A video file.
#[derive(Debug)]
pub struct Video {
    pub file: FileMeta,
    pub width: u32,
    pub height: u32,
    pub duration: u32,
    pub thumb: Option<PhotoSize>,
    pub file_name: Option<String>,
    pub mime_type: Option<String>,
}

impl DeepView for Video {
    type V = Video;

    open spec fn deep_view(&self) -> Video {
        *self
    }
}

impl Video {
    pub fn clone(&self) -> (r: Video)
        ensures
            r == *self,
    {
        Video {
            file: self.file.clone(),
            width: self.width,
            height: self.height,
            duration: self.duration,
            thumb: clone_opt_photo_size(&self.thumb),
            file_name: clone_opt_string(&self.file_name),
            mime_type: clone_opt_string(&self.mime_type),
        }
    }
}

/// A round video note.
#[derive(Debug)]
pub struct VideoNote {
    pub file: FileMeta,
    pub length: u32,
    pub duration: u32,
    pub thumb: Option<PhotoSize>,
}

impl DeepView for VideoNote {
    type V = VideoNote;

    open spec fn deep_view(&self) -> VideoNote {
        *self
    }
}

impl VideoNote {
    pub fn clone(&self) -> (r: VideoNote)
        ensures
            r == *self,
    {
        VideoNote {
            file: self.file.clone(),
            length: self.length,
            duration: self.duration,
            thumb: clone_opt_photo_size(&self.thumb),
        }
    }
}

/// A voice recording.
#[derive(Debug)]
pub struct Voice {
    pub file: FileMeta,
    pub duration: u32,
    pub mime_type: Option<String>,
}

impl DeepView for Voice {
    type V = Voice;

    open spec fn deep_view(&self) -> Voice {
        *self
    }
}

impl Voice {
    pub fn clone(&self) -> (r: Voice)
        ensures
            r == *self,
    {
        Voice {
            file: self.file.clone(),
            duration: self.duration,
            mime_type: clone_opt_string(&self.mime_type),
        }
    }
}

/// The deep view of a game payload.
pub ghost struct GameV {
    pub title: String,
    pub description: String,
    pub photo: Seq<PhotoSize>,
    pub text: Option<String>,
    pub text_entities: Option<Seq<MessageEntity>>,
    pub animation: Option<Animation>,
}

/// A game payload.
#[derive(Debug)]
pub struct Game {
    pub title: String,
    pub description: String,
    pub photo: Vec<PhotoSize>,
    pub text: Option<String>,
    pub text_entities: Option<Vec<MessageEntity>>,
    pub animation: Option<Animation>,
}

impl DeepView for Game {
    type V = GameV;

    open spec fn deep_view(&self) -> GameV {
        GameV {
            title: self.title,
            description: self.description,
            photo: self.photo.deep_view(),
            text: self.text,
            text_entities: self.text_entities.deep_view(),
            animation: self.animation,
        }
    }
}

impl Game {
    pub fn clone(&self) -> (r: Game)
        ensures
            r.deep_view() == self.deep_view(),
    {
        let r = Game {
            title: self.title.clone(),
            description: self.description.clone(),
            photo: clone_photo_sizes(&self.photo),
            text: clone_opt_string(&self.text),
            text_entities: clone_opt_entities(&self.text_entities),
            animation: clone_opt_animation(&self.animation),
        };
        assert(r.deep_view() =~= self.deep_view());
        r
    }
}

/// Where a forwarded message came from, derived from the source chat.
#[derive(Debug)]
pub enum ForwardOrigin {
    /// Forwarded from a private chat with a known sender.
    User { date: i64, sender_user: User },
    /// Forwarded from a private chat whose sender is hidden; the name
    /// falls back to a placeholder when the chat has no username.
    HiddenUser { date: i64, sender_user_name: String },
    /// Forwarded from a group chat.
    Chat { date: i64, sender_chat: Chat, author_signature: Option<String> },
    /// Forwarded from a channel-like chat; keeps the source message id.
    Channel { date: i64, chat: Chat, message_id: i32, author_signature: Option<String> },
}

impl DeepView for ForwardOrigin {
    type V = ForwardOrigin;

    open spec fn deep_view(&self) -> ForwardOrigin {
        *self
    }
}

impl ForwardOrigin {
    pub fn clone(&self) -> (r: ForwardOrigin)
        ensures
            r == *self,
    {
        match self {
            ForwardOrigin::User { date, sender_user } => ForwardOrigin::User {
                date: *date,
                sender_user: sender_user.clone(),
            },
            ForwardOrigin::HiddenUser { date, sender_user_name } => ForwardOrigin::HiddenUser {
                date: *date,
                sender_user_name: sender_user_name.clone(),
            },
            ForwardOrigin::Chat { date, sender_chat, author_signature } => ForwardOrigin::Chat {
                date: *date,
                sender_chat: sender_chat.clone(),
                author_signature: clone_opt_string(author_signature),
            },
            ForwardOrigin::Channel { date, chat, message_id, author_signature } => {
                ForwardOrigin::Channel {
                    date: *date,
                    chat: chat.clone(),
                    message_id: *message_id,
                    author_signature: clone_opt_string(author_signature),
                }
            },
        }
    }

    /// The source date every origin kind carries.
    pub open spec fn spec_date(&self) -> i64 {
        match self {
            ForwardOrigin::User { date, .. } => *date,
            ForwardOrigin::HiddenUser { date, .. } => *date,
            ForwardOrigin::Chat { date, .. } => *date,
            ForwardOrigin::Channel { date, .. } => *date,
        }
    }

    pub fn date(&self) -> (d: i64)
        ensures
            d == self.spec_date(),
    {
        match self {
            ForwardOrigin::User { date, .. } => *date,
            ForwardOrigin::HiddenUser { date, .. } => *date,
            ForwardOrigin::Chat { date, .. } => *date,
            ForwardOrigin::Channel { date, .. } => *date,
        }
    }
}

// Shared cloning helpers.

pub fn clone_opt_string(s: &Option<String>) -> (r: Option<String>)
    ensures
        r == *s,
{
    match s {
        Some(v) => Some(v.clone()),
        None => None,
    }
}

pub fn clone_opt_photo_size(p: &Option<PhotoSize>) -> (r: Option<PhotoSize>)
    ensures
        r == *p,
{
    match p {
        Some(v) => Some(v.clone()),
        None => None,
    }
}

pub fn clone_opt_animation(a: &Option<Animation>) -> (r: Option<Animation>)
    ensures
        r == *a,
{
    match a {
        Some(v) => Some(v.clone()),
        None => None,
    }
}

pub fn clone_entities(v: &Vec<MessageEntity>) -> (r: Vec<MessageEntity>)
    ensures
        r@ == v@,
{
    let mut out: Vec<MessageEntity> = Vec::new();
    let mut i: usize = 0;
    while i < v.len()
        invariant
            i <= v.len(),
            out@ =~= v@.take(i as int),
        decreases v.len() - i,
    {
        out.push(v[i]);
        i += 1;
    }
    assert(out@ =~= v@);
    out
}

pub fn clone_opt_entities(v: &Option<Vec<MessageEntity>>) -> (r: Option<Vec<MessageEntity>>)
    ensures
        r.deep_view() == v.deep_view(),
        r is Some <==> *v is Some,
{
    match v {
        Some(inner) => {
            let out = clone_entities(inner);
            assert(out.deep_view() =~= inner.deep_view());
            Some(out)
        },
        None => None,
    }
}

pub fn clone_poll_options(v: &Vec<PollOption>) -> (r: Vec<PollOption>)
    ensures
        r@ == v@,
{
    let mut out: Vec<PollOption> = Vec::new();
    let mut i: usize = 0;
    while i < v.len()
        invariant
            i <= v.len(),
            out@ =~= v@.take(i as int),
        decreases v.len() - i,
    {
        out.push(v[i].clone());
        i += 1;
    }
    assert(out@ =~= v@);
    out
}

pub fn clone_photo_sizes(v: &Vec<PhotoSize>) -> (r: Vec<PhotoSize>)
    ensures
        r@ == v@,
{
    let mut out: Vec<PhotoSize> = Vec::new();
    let mut i: usize = 0;
    while i < v.len()
        invariant
            i <= v.len(),
            out@ =~= v@.take(i as int),
        decreases v.len() - i,
    {
        out.push(v[i].clone());
        i += 1;
    }
    assert(out@ =~= v@);
    out
}

pub fn clone_opt_markup(m: &Option<InlineKeyboardMarkup>) -> (r: Option<InlineKeyboardMarkup>)
    ensures
        r.deep_view() == m.deep_view(),
        r is Some <==> *m is Some,
{
    match m {
        Some(inner) => Some(inner.clone()),
        None => None,
    }
}

} // verus!
