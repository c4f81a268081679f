//! End-to-end scenarios: a bot driven by fixture updates against the
//! mock server, asserted through the response log.

use mockbot::dataset::MockUser;
use mockbot::dataset::message::{MockMessagePhoto, MockMessageText};
use mockbot::message::Message;
use mockbot::requests::{
    BanChatMemberBody, BodyChatId, DeleteMessageBody, SendMessageTextBody,
};
use mockbot::server::{ApiError, ServerState};
use mockbot::types::MessageEntity;

fn fresh_server() -> ServerState {
    let bot = MockUser::new().id(4242).is_bot(true).first_name("Bot".to_string()).build();
    ServerState::new(bot)
}

/// The echo bot under test: it answers any text update by sending the
/// same text back to the chat.
fn echo_bot(server: &mut ServerState, update: &Message) {
    let text = update.text().expect("echo bot only handles text updates").clone();
    server
        .send_message(SendMessageTextBody::new(update.chat.id, text))
        .expect("send must succeed");
}

#[test]
fn echo_bot_sends_the_command_back() {
    let mut server = fresh_server();
    let update = MockMessageText::new("/echo echo").build();

    echo_bot(&mut server, &update);

    let last_response = server.responses.sent_messages.pop().unwrap();
    assert_eq!(last_response.text(), Some(&"/echo echo".to_string()));
}

#[test]
fn photo_with_caption_and_bold_entity() {
    let mut builder = MockMessagePhoto::new()
        .caption("test".to_string())
        .caption_entities(vec![MessageEntity::bold(0, 3)]);
    builder.common = builder.common.id(0);
    let mut server = fresh_server();
    let stored = server.store.add_message(builder.build());

    assert_eq!(stored.caption(), Some(&"test".to_string()));
    assert_eq!(stored.caption_entities().unwrap().len(), 1);
}

#[test]
fn ban_then_delete_the_banned_users_message_fails() {
    let mut server = fresh_server();
    // The user's incoming message reaches the bot directly; only
    // messages created through the handlers live in the store.
    let users_message = MockMessageText::new("/ban").build();

    server
        .ban_chat_member(BanChatMemberBody {
            chat_id: BodyChatId::Id(users_message.chat.id),
            user_id: users_message.from.as_ref().unwrap().id,
            until_date: None,
            revoke_messages: Some(true),
        })
        .unwrap();

    let result = server.delete_message(DeleteMessageBody {
        chat_id: BodyChatId::Id(users_message.chat.id),
        message_id: users_message.id,
    });
    assert_eq!(result.unwrap_err(), ApiError::MessageNotFound);
}
