//! Kind-specific message builders, one per payload kind.
//!
//! Each builder embeds the common layer by value and adds only its own
//! payload fields with documented defaults; `build()` maps it into a
//! message with the one matching tagged payload variant.

use vstd::prelude::*;

use crate::dataset::{MessageCommon, MockPhotoSize, MockVideo, MockLocation, is_default_common, is_default_photo_size, is_default_video, default_location};
use crate::message::{MediaKind, MediaKindV, Message};
use crate::types::{
    Dice, DiceEmoji, Location, MessageEntity, PhotoSize, PollOption, PollType, StickerFormat,
    StickerKind, Video,
};

verus! {

/// Builds a text message.
pub struct MockMessageText {
    pub common: MessageCommon,
    pub text: String,
    pub entities: Vec<MessageEntity>,
}

impl MockMessageText {
    /// A text message fixture carrying the given text and no entities.
    pub fn new(text: &str) -> (r: MockMessageText)
        ensures
            is_default_common(r.common),
            r.text@ == text@,
            r.entities@ == Seq::<MessageEntity>::empty(),
    {
        let r = MockMessageText {
            common: MessageCommon::new(),
            text: text.to_owned(),
            entities: Vec::new(),
        };
        assert(r.entities@ =~= Seq::<MessageEntity>::empty());
        r
    }

    pub fn text(self, text: String) -> (r: MockMessageText)
        ensures
            r == (MockMessageText { text, ..self }),
    {
        MockMessageText { text, ..self }
    }

    pub fn entities(self, entities: Vec<MessageEntity>) -> (r: MockMessageText)
        ensures
            r == (MockMessageText { entities, ..self }),
    {
        MockMessageText { entities, ..self }
    }

    pub fn build(self) -> (r: Message)
        ensures
            r.deep_view() == self.common.built_view(
                MediaKindV::Text { text: self.text, entities: self.entities.deep_view() },
            ),
    {
        let MockMessageText { common, text, entities } = self;
        common.build_with(MediaKind::Text { text, entities })
    }
}

/// Builds an animation message.
pub struct MockMessageAnimation {
    pub common: MessageCommon,
    pub caption: Option<String>,
    pub caption_entities: Vec<MessageEntity>,
    pub has_media_spoiler: bool,
    pub width: u32,
    pub height: u32,
    pub duration: u32,
    pub thumb: Option<PhotoSize>,
    pub file_name: Option<String>,
    pub mime_type: Option<String>,
    pub file_id: String,
    pub file_unique_id: String,
    pub file_size: u32,
}

impl MockMessageAnimation {
    /// An animation fixture with the given dimensions and file identity,
    /// no caption, no spoiler.
    pub fn new(
        width: u32,
        height: u32,
        duration: u32,
        file_id: &str,
        file_unique_id: &str,
        file_size: u32,
    ) -> (r: MockMessageAnimation)
        ensures
            is_default_common(r.common),
            r.caption is None,
            r.caption_entities@ == Seq::<MessageEntity>::empty(),
            !r.has_media_spoiler,
            r.width == width,
            r.height == height,
            r.duration == duration,
            r.thumb is None,
            r.file_name is None,
            r.mime_type is None,
            r.file_id@ == file_id@,
            r.file_unique_id@ == file_unique_id@,
            r.file_size == file_size,
    {
        let r = MockMessageAnimation {
            common: MessageCommon::new(),
            caption: None,
            caption_entities: Vec::new(),
            has_media_spoiler: false,
            width,
            height,
            duration,
            thumb: None,
            file_name: None,
            mime_type: None,
            file_id: file_id.to_owned(),
            file_unique_id: file_unique_id.to_owned(),
            file_size,
        };
        assert(r.caption_entities@ =~= Seq::<MessageEntity>::empty());
        r
    }

    pub fn caption(self, caption: String) -> (r: MockMessageAnimation)
        ensures
            r == (MockMessageAnimation { caption: Some(caption), ..self }),
    {
        MockMessageAnimation { caption: Some(caption), ..self }
    }

    pub fn caption_entities(self, caption_entities: Vec<MessageEntity>) -> (r:
        MockMessageAnimation)
        ensures
            r == (MockMessageAnimation { caption_entities, ..self }),
    {
        MockMessageAnimation { caption_entities, ..self }
    }

    pub fn has_media_spoiler(self, has_media_spoiler: bool) -> (r: MockMessageAnimation)
        ensures
            r == (MockMessageAnimation { has_media_spoiler, ..self }),
    {
        MockMessageAnimation { has_media_spoiler, ..self }
    }

    pub fn file_name(self, file_name: String) -> (r: MockMessageAnimation)
        ensures
            r == (MockMessageAnimation { file_name: Some(file_name), ..self }),
    {
        MockMessageAnimation { file_name: Some(file_name), ..self }
    }

    pub fn build(self) -> (r: Message)
        ensures
            r.deep_view() == self.common.built_view(
                MediaKindV::Animation {
                    caption: self.caption,
                    caption_entities: self.caption_entities.deep_view(),
                    has_media_spoiler: self.has_media_spoiler,
                    animation: (crate::types::Animation {
                        file: (crate::types::FileMeta {
                            id: self.file_id,
                            unique_id: self.file_unique_id,
                            size: self.file_size,
                        }),
                        width: self.width,
                        height: self.height,
                        duration: self.duration,
                        thumb: self.thumb,
                        file_name: self.file_name,
                        mime_type: self.mime_type,
                    }),
                },
            ),
    {
        let MockMessageAnimation {
            common,
            caption,
            caption_entities,
            has_media_spoiler,
            width,
            height,
            duration,
            thumb,
            file_name,
            mime_type,
            file_id,
            file_unique_id,
            file_size,
        } = self;
        common.build_with(
            MediaKind::Animation {
                caption,
                caption_entities,
                has_media_spoiler,
                animation: crate::types::Animation {
                    file: crate::types::FileMeta {
                        id: file_id,
                        unique_id: file_unique_id,
                        size: file_size,
                    },
                    width,
                    height,
                    duration,
                    thumb,
                    file_name,
                    mime_type,
                },
            },
        )
    }
}

/// Builds an audio message.
pub struct MockMessageAudio {
    pub common: MessageCommon,
    pub caption: Option<String>,
    pub caption_entities: Vec<MessageEntity>,
    pub media_group_id: Option<String>,
    pub duration: u32,
    pub performer: Option<String>,
    pub title: Option<String>,
    pub thumb: Option<PhotoSize>,
    pub file_name: Option<String>,
    pub mime_type: Option<String>,
    pub file_id: String,
    pub file_unique_id: String,
    pub file_size: u32,
}

impl MockMessageAudio {
    /// An audio fixture with the given duration and file identity, no
    /// caption and no media group.
    pub fn new(duration: u32, file_id: &str, file_unique_id: &str, file_size: u32) -> (r:
        MockMessageAudio)
        ensures
            is_default_common(r.common),
            r.caption is None,
            r.caption_entities@ == Seq::<MessageEntity>::empty(),
            r.media_group_id is None,
            r.duration == duration,
            r.performer is None,
            r.title is None,
            r.thumb is None,
            r.file_name is None,
            r.mime_type is None,
            r.file_id@ == file_id@,
            r.file_unique_id@ == file_unique_id@,
            r.file_size == file_size,
    {
        let r = MockMessageAudio {
            common: MessageCommon::new(),
            caption: None,
            caption_entities: Vec::new(),
            media_group_id: None,
            duration,
            performer: None,
            title: None,
            thumb: None,
            file_name: None,
            mime_type: None,
            file_id: file_id.to_owned(),
            file_unique_id: file_unique_id.to_owned(),
            file_size,
        };
        assert(r.caption_entities@ =~= Seq::<MessageEntity>::empty());
        r
    }

    pub fn caption(self, caption: String) -> (r: MockMessageAudio)
        ensures
            r == (MockMessageAudio { caption: Some(caption), ..self }),
    {
        MockMessageAudio { caption: Some(caption), ..self }
    }

    pub fn caption_entities(self, caption_entities: Vec<MessageEntity>) -> (r: MockMessageAudio)
        ensures
            r == (MockMessageAudio { caption_entities, ..self }),
    {
        MockMessageAudio { caption_entities, ..self }
    }

    pub fn media_group_id(self, media_group_id: String) -> (r: MockMessageAudio)
        ensures
            r == (MockMessageAudio { media_group_id: Some(media_group_id), ..self }),
    {
        MockMessageAudio { media_group_id: Some(media_group_id), ..self }
    }

    pub fn file_name(self, file_name: String) -> (r: MockMessageAudio)
        ensures
            r == (MockMessageAudio { file_name: Some(file_name), ..self }),
    {
        MockMessageAudio { file_name: Some(file_name), ..self }
    }

    pub fn build(self) -> (r: Message)
        ensures
            r.deep_view() == self.common.built_view(
                MediaKindV::Audio {
                    caption: self.caption,
                    caption_entities: self.caption_entities.deep_view(),
                    media_group_id: self.media_group_id,
                    audio: (crate::types::Audio {
                        file: (crate::types::FileMeta {
                            id: self.file_id,
                            unique_id: self.file_unique_id,
                            size: self.file_size,
                        }),
                        duration: self.duration,
                        performer: self.performer,
                        title: self.title,
                        thumb: self.thumb,
                        file_name: self.file_name,
                        mime_type: self.mime_type,
                    }),
                },
            ),
    {
        let MockMessageAudio {
            common,
            caption,
            caption_entities,
            media_group_id,
            duration,
            performer,
            title,
            thumb,
            file_name,
            mime_type,
            file_id,
            file_unique_id,
            file_size,
        } = self;
        common.build_with(
            MediaKind::Audio {
                caption,
                caption_entities,
                media_group_id,
                audio: crate::types::Audio {
                    file: crate::types::FileMeta {
                        id: file_id,
                        unique_id: file_unique_id,
                        size: file_size,
                    },
                    duration,
                    performer,
                    title,
                    thumb,
                    file_name,
                    mime_type,
                },
            },
        )
    }
}

/// Builds a dice message; value 1 with the die emoji by default.
pub struct MockMessageDice {
    pub common: MessageCommon,
    pub value: i32,
    pub emoji: DiceEmoji,
}

impl MockMessageDice {
    pub fn new() -> (r: MockMessageDice)
        ensures
            is_default_common(r.common),
            r.value == 1,
            r.emoji == DiceEmoji::Dice,
    {
        MockMessageDice { common: MessageCommon::new(), value: 1, emoji: DiceEmoji::Dice }
    }

    pub fn value(self, value: i32) -> (r: MockMessageDice)
        ensures
            r == (MockMessageDice { value, ..self }),
    {
        MockMessageDice { value, ..self }
    }

    pub fn emoji(self, emoji: DiceEmoji) -> (r: MockMessageDice)
        ensures
            r == (MockMessageDice { emoji, ..self }),
    {
        MockMessageDice { emoji, ..self }
    }

    pub fn build(self) -> (r: Message)
        ensures
            r.deep_view() == self.common.built_view(
                MediaKindV::Dice { dice: (Dice { emoji: self.emoji, value: self.value }) },
            ),
    {
        let MockMessageDice { common, value, emoji } = self;
        common.build_with(MediaKind::Dice { dice: Dice { emoji, value } })
    }
}

/// Builds a photo message; one default photo size by default.
pub struct MockMessagePhoto {
    pub common: MessageCommon,
    pub caption: Option<String>,
    pub caption_entities: Vec<MessageEntity>,
    pub media_group_id: Option<String>,
    pub has_media_spoiler: bool,
    pub photo: Vec<PhotoSize>,
}

impl MockMessagePhoto {
    pub fn new() -> (r: MockMessagePhoto)
        ensures
            is_default_common(r.common),
            r.caption is None,
            r.caption_entities@ == Seq::<MessageEntity>::empty(),
            r.media_group_id is None,
            !r.has_media_spoiler,
            r.photo@.len() == 1,
            is_default_photo_size(r.photo@[0]),
    {
        let mut photo: Vec<PhotoSize> = Vec::new();
        photo.push(MockPhotoSize::new().build());
        let r = MockMessagePhoto {
            common: MessageCommon::new(),
            caption: None,
            caption_entities: Vec::new(),
            media_group_id: None,
            has_media_spoiler: false,
            photo,
        };
        assert(r.caption_entities@ =~= Seq::<MessageEntity>::empty());
        r
    }

    pub fn caption(self, caption: String) -> (r: MockMessagePhoto)
        ensures
            r == (MockMessagePhoto { caption: Some(caption), ..self }),
    {
        MockMessagePhoto { caption: Some(caption), ..self }
    }

    pub fn caption_entities(self, caption_entities: Vec<MessageEntity>) -> (r: MockMessagePhoto)
        ensures
            r == (MockMessagePhoto { caption_entities, ..self }),
    {
        MockMessagePhoto { caption_entities, ..self }
    }

    pub fn media_group_id(self, media_group_id: String) -> (r: MockMessagePhoto)
        ensures
            r == (MockMessagePhoto { media_group_id: Some(media_group_id), ..self }),
    {
        MockMessagePhoto { media_group_id: Some(media_group_id), ..self }
    }

    pub fn has_media_spoiler(self, has_media_spoiler: bool) -> (r: MockMessagePhoto)
        ensures
            r == (MockMessagePhoto { has_media_spoiler, ..self }),
    {
        MockMessagePhoto { has_media_spoiler, ..self }
    }

    pub fn photo(self, photo: Vec<PhotoSize>) -> (r: MockMessagePhoto)
        ensures
            r == (MockMessagePhoto { photo, ..self }),
    {
        MockMessagePhoto { photo, ..self }
    }

    pub fn build(self) -> (r: Message)
        ensures
            r.deep_view() == self.common.built_view(
                MediaKindV::Photo {
                    caption: self.caption,
                    caption_entities: self.caption_entities.deep_view(),
                    media_group_id: self.media_group_id,
                    has_media_spoiler: self.has_media_spoiler,
                    photo: self.photo.deep_view(),
                },
            ),
    {
        let MockMessagePhoto {
            common,
            caption,
            caption_entities,
            media_group_id,
            has_media_spoiler,
            photo,
        } = self;
        common.build_with(
            MediaKind::Photo {
                caption,
                caption_entities,
                media_group_id,
                has_media_spoiler,
                photo,
            },
        )
    }
}

/// Builds a document message.
pub struct MockMessageDocument {
    pub common: MessageCommon,
    pub caption: Option<String>,
    pub caption_entities: Vec<MessageEntity>,
    pub media_group_id: Option<String>,
    pub thumb: Option<PhotoSize>,
    pub file_name: Option<String>,
    pub mime_type: Option<String>,
    pub file_id: String,
    pub file_unique_id: String,
    pub file_size: u32,
}

impl MockMessageDocument {
    pub fn new() -> (r: MockMessageDocument)
        ensures
            is_default_common(r.common),
            r.caption is None,
            r.caption_entities@ == Seq::<MessageEntity>::empty(),
            r.media_group_id is None,
            r.thumb is None,
            r.file_name is None,
            r.mime_type is None,
            r.file_id@ == "file_id"@,
            r.file_unique_id@ == "file_unique_id"@,
            r.file_size == 21331,
    {
        let r = MockMessageDocument {
            common: MessageCommon::new(),
            caption: None,
            caption_entities: Vec::new(),
            media_group_id: None,
            thumb: None,
            file_name: None,
            mime_type: None,
            file_id: "file_id".to_owned(),
            file_unique_id: "file_unique_id".to_owned(),
            file_size: 21331,
        };
        assert(r.caption_entities@ =~= Seq::<MessageEntity>::empty());
        r
    }

    pub fn caption(self, caption: String) -> (r: MockMessageDocument)
        ensures
            r == (MockMessageDocument { caption: Some(caption), ..self }),
    {
        MockMessageDocument { caption: Some(caption), ..self }
    }

    pub fn caption_entities(self, caption_entities: Vec<MessageEntity>) -> (r:
        MockMessageDocument)
        ensures
            r == (MockMessageDocument { caption_entities, ..self }),
    {
        MockMessageDocument { caption_entities, ..self }
    }

    pub fn media_group_id(self, media_group_id: String) -> (r: MockMessageDocument)
        ensures
            r == (MockMessageDocument { media_group_id: Some(media_group_id), ..self }),
    {
        MockMessageDocument { media_group_id: Some(media_group_id), ..self }
    }

    pub fn file_name(self, file_name: String) -> (r: MockMessageDocument)
        ensures
            r == (MockMessageDocument { file_name: Some(file_name), ..self }),
    {
        MockMessageDocument { file_name: Some(file_name), ..self }
    }

    pub fn file_id(self, file_id: String) -> (r: MockMessageDocument)
        ensures
            r == (MockMessageDocument { file_id, ..self }),
    {
        MockMessageDocument { file_id, ..self }
    }

    pub fn build(self) -> (r: Message)
        ensures
            r.deep_view() == self.common.built_view(
                MediaKindV::Document {
                    caption: self.caption,
                    caption_entities: self.caption_entities.deep_view(),
                    media_group_id: self.media_group_id,
                    document: (crate::types::Document {
                        file: (crate::types::FileMeta {
                            id: self.file_id,
                            unique_id: self.file_unique_id,
                            size: self.file_size,
                        }),
                        thumb: self.thumb,
                        file_name: self.file_name,
                        mime_type: self.mime_type,
                    }),
                },
            ),
    {
        let MockMessageDocument {
            common,
            caption,
            caption_entities,
            media_group_id,
            thumb,
            file_name,
            mime_type,
            file_id,
            file_unique_id,
            file_size,
        } = self;
        common.build_with(
            MediaKind::Document {
                caption,
                caption_entities,
                media_group_id,
                document: crate::types::Document {
                    file: crate::types::FileMeta {
                        id: file_id,
                        unique_id: file_unique_id,
                        size: file_size,
                    },
                    thumb,
                    file_name,
                    mime_type,
                },
            },
        )
    }
}

/// Builds a video message; the default video fixture by default.
pub struct MockMessageVideo {
    pub common: MessageCommon,
    pub caption: Option<String>,
    pub caption_entities: Vec<MessageEntity>,
    pub media_group_id: Option<String>,
    pub has_media_spoiler: bool,
    pub video: Video,
}

impl MockMessageVideo {
    pub fn new() -> (r: MockMessageVideo)
        ensures
            is_default_common(r.common),
            r.caption is None,
            r.caption_entities@ == Seq::<MessageEntity>::empty(),
            r.media_group_id is None,
            !r.has_media_spoiler,
            is_default_video(r.video),
    {
        let r = MockMessageVideo {
            common: MessageCommon::new(),
            caption: None,
            caption_entities: Vec::new(),
            media_group_id: None,
            has_media_spoiler: false,
            video: MockVideo::new().build(),
        };
        assert(r.caption_entities@ =~= Seq::<MessageEntity>::empty());
        r
    }

    pub fn caption(self, caption: String) -> (r: MockMessageVideo)
        ensures
            r == (MockMessageVideo { caption: Some(caption), ..self }),
    {
        MockMessageVideo { caption: Some(caption), ..self }
    }

    pub fn caption_entities(self, caption_entities: Vec<MessageEntity>) -> (r: MockMessageVideo)
        ensures
            r == (MockMessageVideo { caption_entities, ..self }),
    {
        MockMessageVideo { caption_entities, ..self }
    }

    pub fn media_group_id(self, media_group_id: String) -> (r: MockMessageVideo)
        ensures
            r == (MockMessageVideo { media_group_id: Some(media_group_id), ..self }),
    {
        MockMessageVideo { media_group_id: Some(media_group_id), ..self }
    }

    pub fn has_media_spoiler(self, has_media_spoiler: bool) -> (r: MockMessageVideo)
        ensures
            r == (MockMessageVideo { has_media_spoiler, ..self }),
    {
        MockMessageVideo { has_media_spoiler, ..self }
    }

    pub fn video(self, video: Video) -> (r: MockMessageVideo)
        ensures
            r == (MockMessageVideo { video, ..self }),
    {
        MockMessageVideo { video, ..self }
    }

    pub fn build(self) -> (r: Message)
        ensures
            r.deep_view() == self.common.built_view(
                MediaKindV::Video {
                    caption: self.caption,
                    caption_entities: self.caption_entities.deep_view(),
                    media_group_id: self.media_group_id,
                    has_media_spoiler: self.has_media_spoiler,
                    video: self.video,
                },
            ),
    {
        let MockMessageVideo {
            common,
            caption,
            caption_entities,
            media_group_id,
            has_media_spoiler,
            video,
        } = self;
        common.build_with(
            MediaKind::Video {
                caption,
                caption_entities,
                media_group_id,
                has_media_spoiler,
                video,
            },
        )
    }
}

/// Builds a contact message.
pub struct MockMessageContact {
    pub common: MessageCommon,
    pub phone_number: String,
    pub first_name: String,
    pub last_name: Option<String>,
    pub user_id: Option<u64>,
    pub vcard: Option<String>,
}

impl MockMessageContact {
    pub fn new() -> (r: MockMessageContact)
        ensures
            is_default_common(r.common),
            r.phone_number@ == "+123456789"@,
            r.first_name@ == "First"@,
            r.last_name is None,
            r.user_id is None,
            r.vcard is None,
    {
        MockMessageContact {
            common: MessageCommon::new(),
            phone_number: "+123456789".to_owned(),
            first_name: "First".to_owned(),
            last_name: None,
            user_id: None,
            vcard: None,
        }
    }

    pub fn phone_number(self, phone_number: String) -> (r: MockMessageContact)
        ensures
            r == (MockMessageContact { phone_number, ..self }),
    {
        MockMessageContact { phone_number, ..self }
    }

    pub fn first_name(self, first_name: String) -> (r: MockMessageContact)
        ensures
            r == (MockMessageContact { first_name, ..self }),
    {
        MockMessageContact { first_name, ..self }
    }

    pub fn last_name(self, last_name: String) -> (r: MockMessageContact)
        ensures
            r == (MockMessageContact { last_name: Some(last_name), ..self }),
    {
        MockMessageContact { last_name: Some(last_name), ..self }
    }

    pub fn user_id(self, user_id: u64) -> (r: MockMessageContact)
        ensures
            r == (MockMessageContact { user_id: Some(user_id), ..self }),
    {
        MockMessageContact { user_id: Some(user_id), ..self }
    }

    pub fn vcard(self, vcard: String) -> (r: MockMessageContact)
        ensures
            r == (MockMessageContact { vcard: Some(vcard), ..self }),
    {
        MockMessageContact { vcard: Some(vcard), ..self }
    }

    pub fn build(self) -> (r: Message)
        ensures
            r.deep_view() == self.common.built_view(
                MediaKindV::Contact {
                    contact: (crate::types::Contact {
                        phone_number: self.phone_number,
                        first_name: self.first_name,
                        last_name: self.last_name,
                        user_id: self.user_id,
                        vcard: self.vcard,
                    }),
                },
            ),
    {
        let MockMessageContact { common, phone_number, first_name, last_name, user_id, vcard } =
            self;
        common.build_with(
            MediaKind::Contact {
                contact: crate::types::Contact {
                    phone_number,
                    first_name,
                    last_name,
                    user_id,
                    vcard,
                },
            },
        )
    }
}

/// Builds a game message; one default photo size in its gallery.
pub struct MockMessageGame {
    pub common: MessageCommon,
    pub title: String,
    pub description: String,
    pub photo: Vec<PhotoSize>,
    pub text: Option<String>,
    pub text_entities: Option<Vec<MessageEntity>>,
    pub animation: Option<crate::types::Animation>,
}

impl MockMessageGame {
    pub fn new() -> (r: MockMessageGame)
        ensures
            is_default_common(r.common),
            r.title@ == "Title"@,
            r.description@ == "Description"@,
            r.photo@.len() == 1,
            is_default_photo_size(r.photo@[0]),
            r.text is None,
            r.text_entities is None,
            r.animation is None,
    {
        let mut photo: Vec<PhotoSize> = Vec::new();
        photo.push(MockPhotoSize::new().build());
        MockMessageGame {
            common: MessageCommon::new(),
            title: "Title".to_owned(),
            description: "Description".to_owned(),
            photo,
            text: None,
            text_entities: None,
            animation: None,
        }
    }

    pub fn title(self, title: String) -> (r: MockMessageGame)
        ensures
            r == (MockMessageGame { title, ..self }),
    {
        MockMessageGame { title, ..self }
    }

    pub fn description(self, description: String) -> (r: MockMessageGame)
        ensures
            r == (MockMessageGame { description, ..self }),
    {
        MockMessageGame { description, ..self }
    }

    pub fn text(self, text: String) -> (r: MockMessageGame)
        ensures
            r == (MockMessageGame { text: Some(text), ..self }),
    {
        MockMessageGame { text: Some(text), ..self }
    }

    pub fn build(self) -> (r: Message)
        ensures
            r.deep_view() == self.common.built_view(
                MediaKindV::Game {
                    game: (crate::types::GameV {
                        title: self.title,
                        description: self.description,
                        photo: self.photo.deep_view(),
                        text: self.text,
                        text_entities: self.text_entities.deep_view(),
                        animation: self.animation,
                    }),
                },
            ),
    {
        let MockMessageGame { common, title, description, photo, text, text_entities, animation } =
            self;
        common.build_with(
            MediaKind::Game {
                game: crate::types::Game { title, description, photo, text, text_entities, animation },
            },
        )
    }
}

/// Builds a venue message around the default location.
pub struct MockMessageVenue {
    pub common: MessageCommon,
    pub location: Location,
    pub title: String,
    pub address: String,
    pub foursquare_id: Option<String>,
    pub foursquare_type: Option<String>,
    pub google_place_id: Option<String>,
    pub google_place_type: Option<String>,
}

impl MockMessageVenue {
    pub fn new() -> (r: MockMessageVenue)
        ensures
            is_default_common(r.common),
            r.location == default_location(),
            r.title@ == "Title"@,
            r.address@ == "Address"@,
            r.foursquare_id is None,
            r.foursquare_type is None,
            r.google_place_id is None,
            r.google_place_type is None,
    {
        MockMessageVenue {
            common: MessageCommon::new(),
            location: MockLocation::new().build(),
            title: "Title".to_owned(),
            address: "Address".to_owned(),
            foursquare_id: None,
            foursquare_type: None,
            google_place_id: None,
            google_place_type: None,
        }
    }

    pub fn location(self, location: Location) -> (r: MockMessageVenue)
        ensures
            r == (MockMessageVenue { location, ..self }),
    {
        MockMessageVenue { location, ..self }
    }

    pub fn title(self, title: String) -> (r: MockMessageVenue)
        ensures
            r == (MockMessageVenue { title, ..self }),
    {
        MockMessageVenue { title, ..self }
    }

    pub fn address(self, address: String) -> (r: MockMessageVenue)
        ensures
            r == (MockMessageVenue { address, ..self }),
    {
        MockMessageVenue { address, ..self }
    }

    pub fn build(self) -> (r: Message)
        ensures
            r.deep_view() == self.common.built_view(
                MediaKindV::Venue {
                    venue: (crate::types::Venue {
                        location: self.location,
                        title: self.title,
                        address: self.address,
                        foursquare_id: self.foursquare_id,
                        foursquare_type: self.foursquare_type,
                        google_place_id: self.google_place_id,
                        google_place_type: self.google_place_type,
                    }),
                },
            ),
    {
        let MockMessageVenue {
            common,
            location,
            title,
            address,
            foursquare_id,
            foursquare_type,
            google_place_id,
            google_place_type,
        } = self;
        common.build_with(
            MediaKind::Venue {
                venue: crate::types::Venue {
                    location,
                    title,
                    address,
                    foursquare_id,
                    foursquare_type,
                    google_place_id,
                    google_place_type,
                },
            },
        )
    }
}

/// Builds a location message.
pub struct MockMessageLocation {
    pub common: MessageCommon,
    pub location: Location,
}

impl MockMessageLocation {
    pub fn new() -> (r: MockMessageLocation)
        ensures
            is_default_common(r.common),
            r.location == default_location(),
    {
        MockMessageLocation { common: MessageCommon::new(), location: MockLocation::new().build() }
    }

    pub fn location(self, location: Location) -> (r: MockMessageLocation)
        ensures
            r == (MockMessageLocation { location, ..self }),
    {
        MockMessageLocation { location, ..self }
    }

    pub fn build(self) -> (r: Message)
        ensures
            r.deep_view() == self.common.built_view(
                MediaKindV::Location { location: self.location },
            ),
    {
        let MockMessageLocation { common, location } = self;
        common.build_with(MediaKind::Location { location })
    }
}

/// Builds a poll message; a closed, anonymous regular poll by default.
pub struct MockMessagePoll {
    pub common: MessageCommon,
    pub poll_id: String,
    pub question: String,
    pub options: Vec<PollOption>,
    pub is_closed: bool,
    pub total_voter_count: i32,
    pub is_anonymous: bool,
    pub poll_type: PollType,
    pub allows_multiple_answers: bool,
}

impl MockMessagePoll {
    pub fn new() -> (r: MockMessagePoll)
        ensures
            is_default_common(r.common),
            r.poll_id@ == "12345"@,
            r.question@ == "Question"@,
            r.options@ == Seq::<PollOption>::empty(),
            r.is_closed,
            r.total_voter_count == 50,
            r.is_anonymous,
            r.poll_type == PollType::Regular,
            r.allows_multiple_answers,
    {
        let r = MockMessagePoll {
            common: MessageCommon::new(),
            poll_id: "12345".to_owned(),
            question: "Question".to_owned(),
            options: Vec::new(),
            is_closed: true,
            total_voter_count: 50,
            is_anonymous: true,
            poll_type: PollType::Regular,
            allows_multiple_answers: true,
        };
        assert(r.options@ =~= Seq::<PollOption>::empty());
        r
    }

    pub fn poll_id(self, poll_id: String) -> (r: MockMessagePoll)
        ensures
            r == (MockMessagePoll { poll_id, ..self }),
    {
        MockMessagePoll { poll_id, ..self }
    }

    pub fn question(self, question: String) -> (r: MockMessagePoll)
        ensures
            r == (MockMessagePoll { question, ..self }),
    {
        MockMessagePoll { question, ..self }
    }

    pub fn options(self, options: Vec<PollOption>) -> (r: MockMessagePoll)
        ensures
            r == (MockMessagePoll { options, ..self }),
    {
        MockMessagePoll { options, ..self }
    }

    pub fn is_closed(self, is_closed: bool) -> (r: MockMessagePoll)
        ensures
            r == (MockMessagePoll { is_closed, ..self }),
    {
        MockMessagePoll { is_closed, ..self }
    }

    pub fn build(self) -> (r: Message)
        ensures
            r.deep_view() == self.common.built_view(
                MediaKindV::Poll {
                    poll: (crate::types::PollV {
                        id: self.poll_id,
                        question: self.question,
                        options: self.options.deep_view(),
                        is_closed: self.is_closed,
                        total_voter_count: self.total_voter_count,
                        is_anonymous: self.is_anonymous,
                        poll_type: self.poll_type,
                        allows_multiple_answers: self.allows_multiple_answers,
                        correct_option_id: None,
                        explanation: None,
                        explanation_entities: None,
                        open_period: None,
                        close_date: None,
                    }),
                },
            ),
    {
        let MockMessagePoll {
            common,
            poll_id,
            question,
            options,
            is_closed,
            total_voter_count,
            is_anonymous,
            poll_type,
            allows_multiple_answers,
        } = self;
        let r = common.build_with(
            MediaKind::Poll {
                poll: crate::types::Poll {
                    id: poll_id,
                    question,
                    options,
                    is_closed,
                    total_voter_count,
                    is_anonymous,
                    poll_type,
                    allows_multiple_answers,
                    correct_option_id: None,
                    explanation: None,
                    explanation_entities: None,
                    open_period: None,
                    close_date: None,
                },
            },
        );
        r
    }
}

/// Builds a sticker message; a 512 by 512 regular raster sticker.
pub struct MockMessageSticker {
    pub common: MessageCommon,
    pub width: u16,
    pub height: u16,
    pub kind: StickerKind,
    pub format: StickerFormat,
    pub thumb: Option<PhotoSize>,
    pub emoji: Option<String>,
    pub set_name: Option<String>,
    pub file_id: String,
    pub file_unique_id: String,
    pub file_size: u32,
}

impl MockMessageSticker {
    pub fn new() -> (r: MockMessageSticker)
        ensures
            is_default_common(r.common),
            r.width == 512,
            r.height == 512,
            r.kind == StickerKind::Regular,
            r.format == StickerFormat::Raster,
            r.thumb is None,
            r.emoji is None,
            r.set_name is None,
            r.file_id@ == "file_id"@,
            r.file_unique_id@ == "file_unique_id"@,
            r.file_size == 12345,
    {
        MockMessageSticker {
            common: MessageCommon::new(),
            width: 512,
            height: 512,
            kind: StickerKind::Regular,
            format: StickerFormat::Raster,
            thumb: None,
            emoji: None,
            set_name: None,
            file_id: "file_id".to_owned(),
            file_unique_id: "file_unique_id".to_owned(),
            file_size: 12345,
        }
    }

    pub fn file_id(self, file_id: String) -> (r: MockMessageSticker)
        ensures
            r == (MockMessageSticker { file_id, ..self }),
    {
        MockMessageSticker { file_id, ..self }
    }

    pub fn emoji(self, emoji: String) -> (r: MockMessageSticker)
        ensures
            r == (MockMessageSticker { emoji: Some(emoji), ..self }),
    {
        MockMessageSticker { emoji: Some(emoji), ..self }
    }

    pub fn build(self) -> (r: Message)
        ensures
            r.deep_view() == self.common.built_view(
                MediaKindV::Sticker {
                    sticker: (crate::types::Sticker {
                        file: (crate::types::FileMeta {
                            id: self.file_id,
                            unique_id: self.file_unique_id,
                            size: self.file_size,
                        }),
                        width: self.width,
                        height: self.height,
                        kind: self.kind,
                        format: self.format,
                        thumb: self.thumb,
                        emoji: self.emoji,
                        set_name: self.set_name,
                    }),
                },
            ),
    {
        let MockMessageSticker {
            common,
            width,
            height,
            kind,
            format,
            thumb,
            emoji,
            set_name,
            file_id,
            file_unique_id,
            file_size,
        } = self;
        common.build_with(
            MediaKind::Sticker {
                sticker: crate::types::Sticker {
                    file: crate::types::FileMeta {
                        id: file_id,
                        unique_id: file_unique_id,
                        size: file_size,
                    },
                    width,
                    height,
                    kind,
                    format,
                    thumb,
                    emoji,
                    set_name,
                },
            },
        )
    }
}

/// Builds a video-note message.
pub struct MockMessageVideoNote {
    pub common: MessageCommon,
    pub length: u32,
    pub duration: u32,
    pub thumb: Option<PhotoSize>,
    pub file_id: String,
    pub file_unique_id: String,
    pub file_size: u32,
}

impl MockMessageVideoNote {
    pub fn new() -> (r: MockMessageVideoNote)
        ensures
            is_default_common(r.common),
            r.length == 50,
            r.duration == 50,
            r.thumb is None,
            r.file_id@ == "file_id"@,
            r.file_unique_id@ == "file_unique_id"@,
            r.file_size == 50,
    {
        MockMessageVideoNote {
            common: MessageCommon::new(),
            length: 50,
            duration: 50,
            thumb: None,
            file_id: "file_id".to_owned(),
            file_unique_id: "file_unique_id".to_owned(),
            file_size: 50,
        }
    }

    pub fn length(self, length: u32) -> (r: MockMessageVideoNote)
        ensures
            r == (MockMessageVideoNote { length, ..self }),
    {
        MockMessageVideoNote { length, ..self }
    }

    pub fn duration(self, duration: u32) -> (r: MockMessageVideoNote)
        ensures
            r == (MockMessageVideoNote { duration, ..self }),
    {
        MockMessageVideoNote { duration, ..self }
    }

    pub fn file_id(self, file_id: String) -> (r: MockMessageVideoNote)
        ensures
            r == (MockMessageVideoNote { file_id, ..self }),
    {
        MockMessageVideoNote { file_id, ..self }
    }

    pub fn build(self) -> (r: Message)
        ensures
            r.deep_view() == self.common.built_view(
                MediaKindV::VideoNote {
                    video_note: (crate::types::VideoNote {
                        file: (crate::types::FileMeta {
                            id: self.file_id,
                            unique_id: self.file_unique_id,
                            size: self.file_size,
                        }),
                        length: self.length,
                        duration: self.duration,
                        thumb: self.thumb,
                    }),
                },
            ),
    {
        let MockMessageVideoNote {
            common,
            length,
            duration,
            thumb,
            file_id,
            file_unique_id,
            file_size,
        } = self;
        common.build_with(
            MediaKind::VideoNote {
                video_note: crate::types::VideoNote {
                    file: crate::types::FileMeta {
                        id: file_id,
                        unique_id: file_unique_id,
                        size: file_size,
                    },
                    length,
                    duration,
                    thumb,
                },
            },
        )
    }
}

/// Builds a voice message.
pub struct MockMessageVoice {
    pub common: MessageCommon,
    pub duration: u32,
    pub mime_type: Option<String>,
    pub caption: Option<String>,
    pub caption_entities: Vec<MessageEntity>,
    pub file_id: String,
    pub file_unique_id: String,
    pub file_size: u32,
}

impl MockMessageVoice {
    pub fn new() -> (r: MockMessageVoice)
        ensures
            is_default_common(r.common),
            r.duration == 1,
            r.mime_type is None,
            r.caption is None,
            r.caption_entities@ == Seq::<MessageEntity>::empty(),
            r.file_id@ == "file_id"@,
            r.file_unique_id@ == "file_unique_id"@,
            r.file_size == 4321,
    {
        let r = MockMessageVoice {
            common: MessageCommon::new(),
            duration: 1,
            mime_type: None,
            caption: None,
            caption_entities: Vec::new(),
            file_id: "file_id".to_owned(),
            file_unique_id: "file_unique_id".to_owned(),
            file_size: 4321,
        };
        assert(r.caption_entities@ =~= Seq::<MessageEntity>::empty());
        r
    }

    pub fn caption(self, caption: String) -> (r: MockMessageVoice)
        ensures
            r == (MockMessageVoice { caption: Some(caption), ..self }),
    {
        MockMessageVoice { caption: Some(caption), ..self }
    }

    pub fn duration(self, duration: u32) -> (r: MockMessageVoice)
        ensures
            r == (MockMessageVoice { duration, ..self }),
    {
        MockMessageVoice { duration, ..self }
    }

    pub fn file_id(self, file_id: String) -> (r: MockMessageVoice)
        ensures
            r == (MockMessageVoice { file_id, ..self }),
    {
        MockMessageVoice { file_id, ..self }
    }

    pub fn build(self) -> (r: Message)
        ensures
            r.deep_view() == self.common.built_view(
                MediaKindV::Voice {
                    caption: self.caption,
                    caption_entities: self.caption_entities.deep_view(),
                    voice: (crate::types::Voice {
                        file: (crate::types::FileMeta {
                            id: self.file_id,
                            unique_id: self.file_unique_id,
                            size: self.file_size,
                        }),
                        duration: self.duration,
                        mime_type: self.mime_type,
                    }),
                },
            ),
    {
        let MockMessageVoice {
            common,
            duration,
            mime_type,
            caption,
            caption_entities,
            file_id,
            file_unique_id,
            file_size,
        } = self;
        common.build_with(
            MediaKind::Voice {
                caption,
                caption_entities,
                voice: crate::types::Voice {
                    file: crate::types::FileMeta {
                        id: file_id,
                        unique_id: file_unique_id,
                        size: file_size,
                    },
                    duration,
                    mime_type,
                },
            },
        )
    }
}

/// Builds a migration notice for the group a chat migrated from.
pub struct MockMessageMigrationFromChat {
    pub common: MessageCommon,
    pub migrate_from_chat_id: i64,
}

impl MockMessageMigrationFromChat {
    pub fn new() -> (r: MockMessageMigrationFromChat)
        ensures
            is_default_common(r.common),
            r.migrate_from_chat_id == 1,
    {
        MockMessageMigrationFromChat { common: MessageCommon::new(), migrate_from_chat_id: 1 }
    }

    pub fn migrate_from_chat_id(self, migrate_from_chat_id: i64) -> (r:
        MockMessageMigrationFromChat)
        ensures
            r == (MockMessageMigrationFromChat { migrate_from_chat_id, ..self }),
    {
        MockMessageMigrationFromChat { migrate_from_chat_id, ..self }
    }

    pub fn build(self) -> (r: Message)
        ensures
            r.deep_view() == self.common.built_view(
                MediaKindV::MigrationFrom { chat_id: self.migrate_from_chat_id },
            ),
    {
        let MockMessageMigrationFromChat { common, migrate_from_chat_id } = self;
        common.build_with(MediaKind::MigrationFrom { chat_id: migrate_from_chat_id })
    }
}

/// Builds a migration notice for the supergroup a chat migrated to.
pub struct MockMessageMigrationToChat {
    pub common: MessageCommon,
    pub migrate_to_chat_id: i64,
}

impl MockMessageMigrationToChat {
    pub fn new() -> (r: MockMessageMigrationToChat)
        ensures
            is_default_common(r.common),
            r.migrate_to_chat_id == 1,
    {
        MockMessageMigrationToChat { common: MessageCommon::new(), migrate_to_chat_id: 1 }
    }

    pub fn migrate_to_chat_id(self, migrate_to_chat_id: i64) -> (r: MockMessageMigrationToChat)
        ensures
            r == (MockMessageMigrationToChat { migrate_to_chat_id, ..self }),
    {
        MockMessageMigrationToChat { migrate_to_chat_id, ..self }
    }

    pub fn build(self) -> (r: Message)
        ensures
            r.deep_view() == self.common.built_view(
                MediaKindV::MigrationTo { chat_id: self.migrate_to_chat_id },
            ),
    {
        let MockMessageMigrationToChat { common, migrate_to_chat_id } = self;
        common.build_with(MediaKind::MigrationTo { chat_id: migrate_to_chat_id })
    }
}

} // verus!
