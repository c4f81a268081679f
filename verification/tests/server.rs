use mockbot::dataset::MockUser;
use mockbot::requests::{
    AnswerCallbackQueryBody, BanChatMemberBody, BodyChatId, ChatPermissions, CopyMessageBody,
    DeleteMessageBody, EditMessageCaptionBody, EditMessageReplyMarkupBody, EditMessageTextBody,
    ForwardMessageBody, InputMedia, InputMediaKind, PinChatMessageBody, RestrictChatMemberBody,
    SendMediaGroupBody, SendMediaMessageBody, SendMessageDiceBody, SendMessageTextBody,
    UnbanChatMemberBody, UnpinAllChatMessagesBody, UnpinChatMessageBody,
};
use mockbot::server::{ApiError, ServerState};
use mockbot::types::{
    ChatKind, DiceEmoji, ForwardOrigin, InlineKeyboardButton, InlineKeyboardMarkup, MessageEntity,
    ReplyMarkup,
};

fn fresh_server() -> ServerState {
    let bot = MockUser::new().id(4242).is_bot(true).first_name("Bot".to_string()).build();
    ServerState::new(bot)
}

fn send_text(server: &mut ServerState, text: &str) -> mockbot::message::Message {
    server.send_message(SendMessageTextBody::new(100, text.to_string())).unwrap()
}

#[test]
fn send_allocates_sequential_ids() {
    let mut server = fresh_server();
    let mut ids: Vec<i32> = Vec::new();
    for i in 0..5 {
        let m = send_text(&mut server, &format!("message {}", i));
        ids.push(m.id);
    }
    assert_eq!(ids, vec![1, 2, 3, 4, 5]);
    assert_eq!(server.responses.sent_messages.len(), 5);
    for (i, m) in server.store.messages.iter().enumerate() {
        assert_eq!(m.id, i as i32 + 1);
    }
}

#[test]
fn ids_are_not_reused_after_delete() {
    let mut server = fresh_server();
    send_text(&mut server, "first");
    let second = send_text(&mut server, "second");
    server
        .delete_message(DeleteMessageBody { chat_id: BodyChatId::Id(100), message_id: second.id })
        .unwrap();
    let third = send_text(&mut server, "third");
    assert_eq!(third.id, 3);
}

#[test]
fn delete_then_lookup_fails() {
    let mut server = fresh_server();
    let m = send_text(&mut server, "to delete");
    let deleted = server
        .delete_message(DeleteMessageBody { chat_id: BodyChatId::Id(100), message_id: m.id })
        .unwrap();
    assert!(deleted);
    assert!(server.store.get_message(m.id).is_none());
    let again = server
        .delete_message(DeleteMessageBody { chat_id: BodyChatId::Id(100), message_id: m.id });
    assert_eq!(again, Err(ApiError::MessageNotFound));
    let never = server
        .delete_message(DeleteMessageBody { chat_id: BodyChatId::Id(100), message_id: 999 });
    assert_eq!(never, Err(ApiError::MessageNotFound));
    assert_eq!(server.responses.deleted_messages.len(), 1);
    assert_eq!(
        server.responses.deleted_messages[0].message.text(),
        Some(&"to delete".to_string())
    );
}

#[test]
fn forward_protected_content_fails() {
    let mut server = fresh_server();
    let mut body = SendMessageTextBody::new(100, "secret".to_string());
    body.protect_content = Some(true);
    let protected = server.send_message(body).unwrap();
    assert!(protected.has_protected_content);

    let result = server.forward_message(ForwardMessageBody {
        chat_id: BodyChatId::Id(200),
        from_chat_id: BodyChatId::Id(100),
        message_id: protected.id,
        message_thread_id: None,
        disable_notification: None,
        protect_content: None,
    });
    assert_eq!(result.unwrap_err(), ApiError::MessageHasProtectedContent);
}

#[test]
fn forward_plain_message_gets_fresh_id() {
    let mut server = fresh_server();
    let source = send_text(&mut server, "fine to share");
    let forwarded = server
        .forward_message(ForwardMessageBody {
            chat_id: BodyChatId::Id(200),
            from_chat_id: BodyChatId::Id(100),
            message_id: source.id,
            message_thread_id: None,
            disable_notification: None,
            protect_content: None,
        })
        .unwrap();
    assert_ne!(forwarded.id, source.id);
    assert_eq!(forwarded.text(), Some(&"fine to share".to_string()));
    assert_eq!(forwarded.forward_date(), Some(source.date));
    assert_eq!(forwarded.chat.id, 200);
    match forwarded.forward_origin {
        Some(ForwardOrigin::User { date, ref sender_user }) => {
            assert_eq!(date, source.date);
            assert_eq!(sender_user.id, 4242);
        }
        ref other => panic!("expected a user origin, got {:?}", other),
    }
}

#[test]
fn forward_from_hidden_user_uses_placeholder_name() {
    let mut server = fresh_server();
    let mut msg_builder = mockbot::dataset::message::MockMessageText::new("anon");
    msg_builder.common.from = None;
    let mut anon = msg_builder.build();
    anon.id = 0;
    let stored = server.store.add_message(anon);

    let forwarded = server
        .forward_message(ForwardMessageBody {
            chat_id: BodyChatId::Id(200),
            from_chat_id: BodyChatId::Id(100),
            message_id: stored.id,
            message_thread_id: None,
            disable_notification: None,
            protect_content: None,
        })
        .unwrap();
    match forwarded.forward_origin {
        Some(ForwardOrigin::HiddenUser { ref sender_user_name, .. }) => {
            assert_eq!(sender_user_name, "no_username");
        }
        ref other => panic!("expected a hidden-user origin, got {:?}", other),
    }
}

#[test]
fn forward_sets_protected_flag_from_request() {
    let mut server = fresh_server();
    let source = send_text(&mut server, "soon protected");
    let forwarded = server
        .forward_message(ForwardMessageBody {
            chat_id: BodyChatId::Id(200),
            from_chat_id: BodyChatId::Id(100),
            message_id: source.id,
            message_thread_id: None,
            disable_notification: None,
            protect_content: Some(true),
        })
        .unwrap();
    assert!(forwarded.has_protected_content);

    let second = server.forward_message(ForwardMessageBody {
        chat_id: BodyChatId::Id(300),
        from_chat_id: BodyChatId::Id(200),
        message_id: forwarded.id,
        message_thread_id: None,
        disable_notification: None,
        protect_content: None,
    });
    assert_eq!(second.unwrap_err(), ApiError::MessageHasProtectedContent);
}

#[test]
fn edit_text_changes_only_text_and_edit_date() {
    let mut server = fresh_server();
    let before = send_text(&mut server, "/edit");
    let after = server
        .edit_message_text(EditMessageTextBody {
            chat_id: BodyChatId::Id(100),
            message_id: before.id,
            text: "edited".to_string(),
            entities: None,
        })
        .unwrap();
    assert_eq!(after.text(), Some(&"edited".to_string()));
    assert!(after.edit_date.is_some());
    assert_eq!(after.id, before.id);
    assert_eq!(after.date, before.date);
    assert_eq!(after.chat.id, before.chat.id);
    assert_eq!(after.chat.kind, before.chat.kind);
    assert_eq!(after.thread_id, before.thread_id);
    assert_eq!(after.is_topic_message, before.is_topic_message);
    assert_eq!(after.is_automatic_forward, before.is_automatic_forward);
    assert_eq!(after.has_protected_content, before.has_protected_content);
    assert!(after.forward_origin.is_none());
    assert!(after.reply_to_message().is_none());
    assert_eq!(
        server.responses.edited_messages_text.last().unwrap().message.text(),
        Some(&"edited".to_string())
    );

    let stored = server.store.get_message(before.id).unwrap();
    assert_eq!(stored.text(), Some(&"edited".to_string()));
}

#[test]
fn edit_text_on_non_text_payload_fails() {
    let mut server = fresh_server();
    let photo = server
        .send_photo(SendMediaMessageBody::new(
            BodyChatId::Id(100),
            "p.jpg".to_string(),
            "data".to_string(),
        ))
        .unwrap();
    let result = server.edit_message_text(EditMessageTextBody {
        chat_id: BodyChatId::Id(100),
        message_id: photo.id,
        text: "edited".to_string(),
        entities: None,
    });
    assert_eq!(result.unwrap_err(), ApiError::MessageCannotBeEdited);
    let missing = server.edit_message_text(EditMessageTextBody {
        chat_id: BodyChatId::Id(100),
        message_id: 999,
        text: "edited".to_string(),
        entities: None,
    });
    assert_eq!(missing.unwrap_err(), ApiError::MessageNotFound);
}

#[test]
fn edit_caption_and_reply_markup() {
    let mut server = fresh_server();
    let photo = server
        .send_photo(SendMediaMessageBody::new(
            BodyChatId::Id(100),
            "p.jpg".to_string(),
            "data".to_string(),
        ))
        .unwrap();
    assert_eq!(photo.caption(), None);
    let edited = server
        .edit_message_caption(EditMessageCaptionBody {
            chat_id: BodyChatId::Id(100),
            message_id: photo.id,
            caption: Some("edited".to_string()),
            caption_entities: None,
        })
        .unwrap();
    assert_eq!(edited.caption(), Some(&"edited".to_string()));
    assert!(edited.edit_date.is_some());

    let markup = InlineKeyboardMarkup::new(vec![vec![InlineKeyboardButton::callback(
        "test".to_string(),
        "test".to_string(),
    )]]);
    let edited = server
        .edit_message_reply_markup(EditMessageReplyMarkupBody {
            chat_id: BodyChatId::Id(100),
            message_id: photo.id,
            reply_markup: Some(ReplyMarkup::InlineKeyboard(markup)),
        })
        .unwrap();
    let kb = edited.reply_markup.as_ref().unwrap();
    assert_eq!(kb.inline_keyboard[0][0].text, "test");

    let text_message = send_text(&mut server, "plain");
    let caption_result = server.edit_message_caption(EditMessageCaptionBody {
        chat_id: BodyChatId::Id(100),
        message_id: text_message.id,
        caption: Some("nope".to_string()),
        caption_entities: None,
    });
    assert_eq!(caption_result.unwrap_err(), ApiError::MessageCannotBeEdited);
}

#[test]
fn media_group_shares_one_group_id() {
    let mut server = fresh_server();
    let target = send_text(&mut server, "/mediagroup");
    let media = vec![
        InputMedia {
            kind: InputMediaKind::Audio,
            file_name: "audio1.mp3".to_string(),
            file_data: "somedata".to_string(),
            caption: Some("test".to_string()),
            caption_entities: None,
        },
        InputMedia {
            kind: InputMediaKind::Audio,
            file_name: "audio2.mp3".to_string(),
            file_data: "somedata2".to_string(),
            caption: None,
            caption_entities: None,
        },
        InputMedia {
            kind: InputMediaKind::Document,
            file_name: "document1.txt".to_string(),
            file_data: "somedata3".to_string(),
            caption: None,
            caption_entities: None,
        },
    ];
    let messages = server
        .send_media_group(SendMediaGroupBody {
            chat_id: BodyChatId::Id(100),
            media,
            disable_notification: None,
            protect_content: None,
            reply_to_message_id: Some(target.id),
        })
        .unwrap();
    assert_eq!(messages.len(), 3);
    let group_id = messages[0].media_group_id().unwrap().clone();
    for m in &messages {
        assert_eq!(m.media_group_id(), Some(&group_id));
        assert_eq!(
            m.reply_to_message().unwrap().text(),
            Some(&"/mediagroup".to_string())
        );
    }
    assert_eq!(messages[0].caption(), Some(&"test".to_string()));
    assert_eq!(messages[1].caption(), None);
    assert_eq!(messages[2].caption(), None);
    assert_eq!(messages[0].audio().unwrap().file_name, Some("audio1.mp3".to_string()));
    assert_eq!(messages[2].document().unwrap().file_name, Some("document1.txt".to_string()));
    assert_eq!(messages[1].id, messages[0].id + 1);
    assert_eq!(messages[2].id, messages[1].id + 1);

    let record = server.responses.sent_media_group.last().unwrap();
    assert_eq!(record.messages.len(), 3);
    assert_eq!(record.bot_request.media.len(), 3);
}

#[test]
fn dice_value_stays_in_face_range() {
    let mut server = fresh_server();
    for _ in 0..20 {
        let m = server.send_dice(SendMessageDiceBody::new(BodyChatId::Id(100))).unwrap();
        let dice = m.dice().unwrap();
        assert_eq!(dice.emoji, DiceEmoji::Dice);
        assert!((1..=6).contains(&dice.value));
    }
    let mut body = SendMessageDiceBody::new(BodyChatId::Id(100));
    body.emoji = Some(DiceEmoji::SlotMachine);
    let m = server.send_dice(body).unwrap();
    let dice = m.dice().unwrap();
    assert_eq!(dice.emoji, DiceEmoji::SlotMachine);
    assert!((1..=64).contains(&dice.value));
    assert_eq!(server.responses.sent_messages_dice.len(), 21);
}

#[test]
fn copy_message_applies_caption_override() {
    let mut server = fresh_server();
    let document = server
        .send_document(SendMediaMessageBody::new(
            BodyChatId::Id(100),
            "test.txt".to_string(),
            "somedata".to_string(),
        ))
        .unwrap();
    assert!(document.caption().is_none());
    let markup = InlineKeyboardMarkup::new(vec![vec![InlineKeyboardButton::callback(
        "test".to_string(),
        "test".to_string(),
    )]]);
    let new_id = server
        .copy_message(CopyMessageBody {
            chat_id: BodyChatId::Id(100),
            from_chat_id: BodyChatId::Id(100),
            message_id: document.id,
            caption: Some("test".to_string()),
            reply_to_message_id: None,
            reply_markup: Some(ReplyMarkup::InlineKeyboard(markup)),
        })
        .unwrap();
    assert_ne!(new_id, document.id);
    let copied = server.responses.sent_messages.last().unwrap();
    assert!(copied.document().is_some());
    assert_eq!(copied.caption(), Some(&"test".to_string()));
    assert_eq!(copied.reply_markup.as_ref().unwrap().inline_keyboard[0][0].text, "test");
    assert!(copied.forward_origin.is_none());
    assert_eq!(server.responses.copied_messages.last().unwrap().message_id, new_id);
}

#[test]
fn pin_and_unpin_are_logged() {
    let mut server = fresh_server();
    let m = send_text(&mut server, "/pinmessage");
    server
        .pin_chat_message(PinChatMessageBody {
            chat_id: BodyChatId::Id(100),
            message_id: m.id,
            disable_notification: None,
        })
        .unwrap();
    server
        .unpin_chat_message(UnpinChatMessageBody { chat_id: BodyChatId::Id(100), message_id: None })
        .unwrap();
    server
        .unpin_all_chat_messages(UnpinAllChatMessagesBody { chat_id: BodyChatId::Id(100) })
        .unwrap();
    assert!(server.responses.pinned_chat_messages.pop().is_some());
    assert!(server.responses.unpinned_chat_messages.pop().is_some());
    assert!(server.responses.unpinned_all_chat_messages.pop().is_some());
    assert_eq!(server.store.messages.len(), 1);

    let missing = server.pin_chat_message(PinChatMessageBody {
        chat_id: BodyChatId::Id(100),
        message_id: 999,
        disable_notification: None,
    });
    assert_eq!(missing.unwrap_err(), ApiError::MessageNotFound);
}

#[test]
fn ban_and_unban_are_logged() {
    let mut server = fresh_server();
    server
        .ban_chat_member(BanChatMemberBody {
            chat_id: BodyChatId::Id(100),
            user_id: 12345,
            until_date: None,
            revoke_messages: Some(true),
        })
        .unwrap();
    server
        .unban_chat_member(UnbanChatMemberBody {
            chat_id: BodyChatId::Id(100),
            user_id: 12345,
            only_if_banned: None,
        })
        .unwrap();
    assert_eq!(server.responses.banned_chat_members.last().unwrap().user_id, 12345);
    assert_eq!(server.responses.unbanned_chat_members.last().unwrap().user_id, 12345);
}

#[test]
fn restrict_is_logged_with_permissions() {
    let mut server = fresh_server();
    server
        .restrict_chat_member(RestrictChatMemberBody {
            chat_id: BodyChatId::Id(100),
            user_id: 12345,
            permissions: ChatPermissions::empty(),
            until_date: None,
        })
        .unwrap();
    let record = server.responses.restricted_chat_members.last().unwrap();
    assert_eq!(record.user_id, 12345);
    assert_eq!(record.permissions, ChatPermissions::empty());
}

#[test]
fn answer_callback_query_is_logged() {
    let mut server = fresh_server();
    server
        .answer_callback_query(AnswerCallbackQueryBody {
            callback_query_id: "q1".to_string(),
            text: Some("test".to_string()),
            show_alert: None,
        })
        .unwrap();
    let answered = server.responses.answered_callback_queries.pop().unwrap();
    assert_eq!(answered.text, Some("test".to_string()));
}

#[test]
fn send_with_unknown_reply_target_fails() {
    let mut server = fresh_server();
    let mut body = SendMessageTextBody::new(100, "hello".to_string());
    body.reply_to_message_id = Some(77);
    let result = server.send_message(body);
    assert_eq!(result.unwrap_err(), ApiError::MessageNotFound);
    assert!(server.responses.sent_messages.is_empty());
    assert_eq!(server.store.max_id, 0);
}

#[test]
fn non_inline_markup_is_dropped() {
    let mut server = fresh_server();
    let mut body = SendMessageTextBody::new(100, "keyboard".to_string());
    body.reply_markup = Some(ReplyMarkup::ForceReply);
    let m = server.send_message(body).unwrap();
    assert!(m.reply_markup.is_none());

    let mut body = SendMessageTextBody::new(100, "inline".to_string());
    body.reply_markup = Some(ReplyMarkup::InlineKeyboard(InlineKeyboardMarkup::new(vec![vec![
        InlineKeyboardButton::callback("go".to_string(), "go".to_string()),
    ]])));
    let m = server.send_message(body).unwrap();
    assert_eq!(m.reply_markup.as_ref().unwrap().inline_keyboard[0][0].text, "go");
}

#[test]
fn error_descriptions_match_the_platform_wording() {
    assert_eq!(ApiError::MessageNotFound.description(), "message not found");
    assert_eq!(
        ApiError::MessageHasProtectedContent.description(),
        "message has protected content"
    );
    assert_eq!(ApiError::MessageCannotBeEdited.description(), "message can't be edited");
}

#[test]
fn log_supports_indexed_and_last_access() {
    let mut server = fresh_server();
    assert!(server.responses.last_sent_message().is_none());
    send_text(&mut server, "one");
    send_text(&mut server, "two");
    assert_eq!(
        server.responses.last_sent_message().unwrap().text(),
        Some(&"two".to_string())
    );
    assert_eq!(
        server.responses.sent_message_at(0).unwrap().text(),
        Some(&"one".to_string())
    );
    assert!(server.responses.sent_message_at(2).is_none());
    assert_eq!(server.store.max_message_id(), 2);
}
