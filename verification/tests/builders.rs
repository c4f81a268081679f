use mockbot::dataset::message::{
    MockMessageAnimation, MockMessageAudio, MockMessageContact, MockMessageDice,
    MockMessageDocument, MockMessageGame, MockMessageLocation, MockMessageMigrationFromChat,
    MockMessageMigrationToChat, MockMessagePhoto, MockMessagePoll, MockMessageSticker,
    MockMessageText, MockMessageVenue, MockMessageVideo, MockMessageVideoNote, MockMessageVoice,
};
use mockbot::dataset::{
    MockChannelChat, MockGroupChat, MockLocation, MockPhotoSize, MockPrivateChat,
    MockSupergroupChat, MockUser, MockVideo,
};
use mockbot::message::MediaKind;
use mockbot::types::{ChatKind, DiceEmoji, MessageEntity, PollType, StickerFormat, StickerKind};

#[test]
fn text_builder_defaults_and_override() {
    let message = MockMessageText::new("/start").build();
    assert_eq!(message.text(), Some(&"/start".to_string()));
    assert_eq!(message.id, 1);
    assert_eq!(message.chat.id, 12345678);
    assert_eq!(message.chat.kind, ChatKind::Private);
    assert!(message.reply_to_message().is_none());
    assert!(!message.has_protected_content);

    let message = MockMessageText::new("ignored").text("/other".to_string()).build();
    assert_eq!(message.text(), Some(&"/other".to_string()));
}

#[test]
fn text_builder_common_overrides() {
    let chat = MockGroupChat::new().id(-42).build();
    let mut builder = MockMessageText::new("hello");
    builder.common = builder.common.chat(chat).has_protected_content(true).id(7);
    let message = builder.build();
    assert_eq!(message.chat.id, -42);
    assert_eq!(message.chat.kind, ChatKind::Group);
    assert!(message.has_protected_content);
    assert_eq!(message.id, 7);
}

#[test]
fn user_and_chat_builders() {
    let user = MockUser::new().id(99).is_bot(true).first_name("Bot".to_string()).build();
    assert_eq!(user.id, 99);
    assert!(user.is_bot);
    assert_eq!(user.first_name, "Bot");
    assert_eq!(user.username, None);

    let private = MockPrivateChat::new().id(5).build();
    assert_eq!(private.kind, ChatKind::Private);
    assert_eq!(private.id, 5);

    let supergroup = MockSupergroupChat::new().username("super".to_string()).build();
    assert_eq!(supergroup.kind, ChatKind::Supergroup);
    assert_eq!(supergroup.username, Some("super".to_string()));

    let channel = MockChannelChat::new().title("News".to_string()).build();
    assert_eq!(channel.kind, ChatKind::Channel);
    assert_eq!(channel.title, Some("News".to_string()));
}

#[test]
fn dice_builder_value_override() {
    let message = MockMessageDice::new().value(2).build();
    let dice = message.dice().unwrap();
    assert_eq!(dice.value, 2);
    assert_eq!(dice.emoji, DiceEmoji::Dice);
}

#[test]
fn photo_builder_default_single_rendition() {
    let message = MockMessagePhoto::new().build();
    let photo = message.photo().unwrap();
    assert_eq!(photo.len(), 1);
    assert_eq!(photo[0].width, 100);
    assert_eq!(photo[0].file.id, "file_id");
    assert_eq!(message.caption(), None);

    let three = MockMessagePhoto::new()
        .photo(vec![
            MockPhotoSize::new().build(),
            MockPhotoSize::new().build(),
            MockPhotoSize::new().build(),
        ])
        .has_media_spoiler(true)
        .build();
    assert_eq!(three.photo().unwrap().len(), 3);
    match &three.media_kind {
        MediaKind::Photo { has_media_spoiler, .. } => assert!(*has_media_spoiler),
        _ => panic!("expected a photo payload"),
    }
}

#[test]
fn animation_builder_takes_dimensions() {
    let message = MockMessageAnimation::new(50, 50, 50, "anim", "anim_unique", 512).build();
    let animation = message.animation().unwrap();
    assert_eq!(animation.width, 50);
    assert_eq!(animation.duration, 50);
    assert_eq!(animation.file.id, "anim");
    assert_eq!(animation.file.unique_id, "anim_unique");
    assert_eq!(animation.file.size, 512);
}

#[test]
fn audio_builder_takes_duration_and_file() {
    let message = MockMessageAudio::new(236, "song", "song_unique", 9507774)
        .caption("nice".to_string())
        .build();
    let audio = message.audio().unwrap();
    assert_eq!(audio.duration, 236);
    assert_eq!(audio.file.id, "song");
    assert_eq!(audio.file.size, 9507774);
    assert_eq!(message.caption(), Some(&"nice".to_string()));
}

#[test]
fn contact_builder_defaults() {
    let message = MockMessageContact::new().build();
    let contact = message.contact().unwrap();
    assert_eq!(contact.phone_number, "+123456789");
    assert_eq!(contact.first_name, "First");
    assert_eq!(contact.user_id, None);
}

#[test]
fn document_builder_defaults() {
    let message = MockMessageDocument::new().file_name("notes.txt".to_string()).build();
    let document = message.document().unwrap();
    assert_eq!(document.file.id, "file_id");
    assert_eq!(document.file.size, 21331);
    assert_eq!(document.file_name, Some("notes.txt".to_string()));
}

#[test]
fn game_builder_defaults() {
    let message = MockMessageGame::new().title("Chess".to_string()).build();
    let game = message.game().unwrap();
    assert_eq!(game.title, "Chess");
    assert_eq!(game.description, "Description");
    assert_eq!(game.photo.len(), 1);
}

#[test]
fn venue_and_location_builders() {
    let message = MockMessageVenue::new().build();
    let venue = message.venue().unwrap();
    assert_eq!(venue.title, "Title");
    assert_eq!(venue.address, "Address");
    assert_eq!(venue.location.latitude_e6, 50_000_000);

    let message = MockMessageLocation::new()
        .location(MockLocation::new().latitude_e6(1_000_000).build())
        .build();
    let location = message.location().unwrap();
    assert_eq!(location.latitude_e6, 1_000_000);
    assert_eq!(location.longitude_e6, 30_000_000);
}

#[test]
fn poll_builder_defaults() {
    let message = MockMessagePoll::new().poll_id("123456".to_string()).build();
    let poll = message.poll().unwrap();
    assert_eq!(poll.id, "123456");
    assert_eq!(poll.question, "Question");
    assert!(poll.is_closed);
    assert!(poll.is_anonymous);
    assert_eq!(poll.total_voter_count, 50);
    assert_eq!(poll.poll_type, PollType::Regular);
}

#[test]
fn sticker_builder_defaults() {
    let message = MockMessageSticker::new().file_id("12345".to_string()).build();
    let sticker = message.sticker().unwrap();
    assert_eq!(sticker.file.id, "12345");
    assert_eq!(sticker.width, 512);
    assert_eq!(sticker.kind, StickerKind::Regular);
    assert_eq!(sticker.format, StickerFormat::Raster);
}

#[test]
fn video_builders() {
    let message = MockMessageVideo::new()
        .video(MockVideo::new().file_id("12345".to_string()).build())
        .build();
    assert_eq!(message.video().unwrap().file.id, "12345");

    let message = MockMessageVideoNote::new().length(50).build();
    let note = message.video_note().unwrap();
    assert_eq!(note.length, 50);
    assert_eq!(note.file.id, "file_id");
}

#[test]
fn voice_builder_defaults() {
    let message = MockMessageVoice::new().duration(1).build();
    let voice = message.voice().unwrap();
    assert_eq!(voice.duration, 1);
    assert_eq!(voice.file.size, 4321);
}

#[test]
fn migration_builders() {
    let from = MockMessageMigrationFromChat::new().migrate_from_chat_id(9).build();
    match from.media_kind {
        MediaKind::MigrationFrom { chat_id } => assert_eq!(chat_id, 9),
        _ => panic!("expected a migration-from payload"),
    }
    let to = MockMessageMigrationToChat::new().build();
    match to.media_kind {
        MediaKind::MigrationTo { chat_id } => assert_eq!(chat_id, 1),
        _ => panic!("expected a migration-to payload"),
    }
}

#[test]
fn reply_target_and_entities_override() {
    let target = MockMessageText::new("original").build();
    let mut builder = MockMessageText::new("answer");
    builder.common = builder.common.reply_to_message(target);
    builder = builder.entities(vec![MessageEntity::bold(0, 3)]);
    let message = builder.build();
    assert_eq!(message.reply_to_message().unwrap().text(), Some(&"original".to_string()));
    assert_eq!(message.entities().unwrap().len(), 1);
}
