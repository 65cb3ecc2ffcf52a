use message_backup::chat::{ChatItemError, ReactionError};
use message_backup::convert::TryFromWith;
use message_backup::file::MessageAttachmentError;
use message_backup::frame::RecipientId;
use message_backup::method::{Lookup, RecipientTable};
use message_backup::proto;
use message_backup::quote::QuoteError;
use message_backup::sticker::MessageStickerError;
use message_backup::sticker_message::StickerMessage;
use message_backup::voice_message::{VoiceMessage, VoiceMessageError};

const REACTOR_ID: u64 = 11;
const REACTOR: u64 = 1111;
const QUOTED_AUTHOR_ID: u64 = 22;
const QUOTED_AUTHOR: u64 = 2222;

fn test_context() -> RecipientTable<u64> {
    let mut table = RecipientTable::new();
    table.insert(RecipientId(REACTOR_ID), REACTOR);
    table.insert(RecipientId(QUOTED_AUTHOR_ID), QUOTED_AUTHOR);
    table
}

fn test_reaction() -> proto::Reaction {
    proto::Reaction {
        emoji: ":-)".to_string(),
        author_id: REACTOR_ID,
        sent_timestamp: 1000,
    }
}

fn voice_attachment() -> proto::MessageAttachment {
    proto::MessageAttachment {
        pointer: Some(proto::FilePointer {
            content_type: "audio/mp4".to_string(),
            size: 123,
        }),
        flag: proto::Flag::VoiceMessage,
    }
}

fn test_voice_message() -> proto::StandardMessage {
    proto::StandardMessage {
        quote: Some(proto::Quote {
            author_id: QUOTED_AUTHOR_ID,
            target_sent_timestamp: 900,
        }),
        reactions: vec![test_reaction()],
        text: None,
        attachments: vec![voice_attachment()],
        link_preview: vec![],
        long_text: None,
    }
}

fn test_sticker() -> proto::Sticker {
    proto::Sticker {
        pack_id: vec![0xaa; 16],
        pack_key: vec![0xbb; 32],
        sticker_id: 1,
    }
}

fn test_sticker_message() -> proto::StickerMessage {
    proto::StickerMessage {
        reactions: vec![test_reaction()],
        sticker: Some(test_sticker()),
    }
}

fn convert_voice(
    item: proto::StandardMessage,
) -> Result<VoiceMessage<u64>, VoiceMessageError> {
    VoiceMessage::try_from_with(item, &test_context())
}

fn convert_sticker(
    item: proto::StickerMessage,
) -> Result<StickerMessage<u64>, ChatItemError> {
    StickerMessage::try_from_with(item, &test_context())
}

#[test]
fn valid_voice_message() {
    let message = convert_voice(test_voice_message()).expect("fixture must convert");
    let quote = message.quote().as_ref().expect("quote must be present");
    assert_eq!(*quote.author(), QUOTED_AUTHOR);
    assert_eq!(quote.target_sent_timestamp(), 900);
    assert_eq!(message.reactions().0.len(), 1);
    let reaction = &message.reactions().0[0];
    assert_eq!(reaction.emoji().as_str(), ":-)");
    assert_eq!(*reaction.author(), REACTOR);
    assert_eq!(reaction.sent_timestamp(), 1000);
    assert_eq!(message.attachment().flag(), proto::Flag::VoiceMessage);
    assert_eq!(message.attachment().pointer().content_type.as_str(), "audio/mp4");
    assert_eq!(message.attachment().pointer().size, 123);
}

#[test]
fn voice_message_no_reactions() {
    let mut message = test_voice_message();
    message.reactions.clear();
    let converted = convert_voice(message).expect("no reactions is valid");
    assert_eq!(converted.reactions().0.len(), 0);
}

#[test]
fn voice_message_invalid_reaction() {
    let mut message = test_voice_message();
    message.reactions.push(proto::Reaction {
        emoji: String::new(),
        author_id: REACTOR_ID,
        sent_timestamp: 0,
    });
    assert_eq!(
        convert_voice(message),
        Err(VoiceMessageError::Reaction(ReactionError::EmptyEmoji))
    );
}

#[test]
fn voice_message_reaction_author_unknown() {
    let mut message = test_voice_message();
    message.reactions[0].author_id = 99;
    assert_eq!(
        convert_voice(message),
        Err(VoiceMessageError::Reaction(ReactionError::AuthorNotFound(
            RecipientId(99)
        )))
    );
}

#[test]
fn voice_message_no_quote() {
    let mut message = test_voice_message();
    message.quote = None;
    let converted = convert_voice(message).expect("no quote is valid");
    assert!(converted.quote().is_none());
}

#[test]
fn voice_message_quote_author_unknown() {
    let mut message = test_voice_message();
    message.quote = Some(proto::Quote {
        author_id: 99,
        target_sent_timestamp: 900,
    });
    assert_eq!(
        convert_voice(message),
        Err(VoiceMessageError::Quote(QuoteError::AuthorNotFound(
            RecipientId(99)
        )))
    );
}

#[test]
fn voice_message_no_attachments() {
    let mut message = test_voice_message();
    message.attachments.clear();
    assert_eq!(
        convert_voice(message),
        Err(VoiceMessageError::WrongAttachmentsCount(0))
    );
}

#[test]
fn voice_message_extra_attachment() {
    let mut message = test_voice_message();
    message.attachments.push(voice_attachment());
    assert_eq!(
        convert_voice(message),
        Err(VoiceMessageError::WrongAttachmentsCount(2))
    );
}

#[test]
fn voice_message_unexpected_text() {
    let mut message = test_voice_message();
    message.text = Some("hello".to_string());
    // The free-text check precedes every attachment rule.
    message.attachments.clear();
    assert_eq!(
        convert_voice(message),
        Err(VoiceMessageError::UnexpectedField("text"))
    );
}

#[test]
fn voice_message_unexpected_long_text() {
    let mut message = test_voice_message();
    message.long_text = Some(proto::FilePointer {
        content_type: "text/x-signal-plain".to_string(),
        size: 9000,
    });
    assert_eq!(
        convert_voice(message),
        Err(VoiceMessageError::UnexpectedField("longText"))
    );
}

#[test]
fn voice_message_unexpected_link_preview() {
    let mut message = test_voice_message();
    message.link_preview.push(proto::LinkPreview {
        url: "https://example.com".to_string(),
    });
    assert_eq!(
        convert_voice(message),
        Err(VoiceMessageError::UnexpectedField("linkPreview"))
    );
}

#[test]
fn voice_message_attachment_without_pointer() {
    let mut message = test_voice_message();
    message.attachments[0].pointer = None;
    assert_eq!(
        convert_voice(message),
        Err(VoiceMessageError::Attachment(
            MessageAttachmentError::NoFilePointer
        ))
    );
}

#[test]
fn voice_message_wrong_attachment_flag() {
    let mut message = test_voice_message();
    message.attachments[0].flag = proto::Flag::Borderless;
    assert_eq!(
        convert_voice(message),
        Err(VoiceMessageError::WrongAttachmentType(
            proto::Flag::Borderless
        ))
    );
}

#[test]
fn voice_message_conversion_is_deterministic() {
    let first = convert_voice(test_voice_message());
    let second = convert_voice(test_voice_message());
    assert_eq!(first, second);
}

fn doubly_broken_reaction_message() -> proto::StandardMessage {
    let mut message = test_voice_message();
    message.reactions[0].emoji = String::new();
    message.reactions[0].author_id = 99;
    message
}

#[test]
fn empty_emoji_reported_before_author_lookup() {
    // Both reaction rules are violated; the reported error is a single
    // deterministic one, the same across repeated runs.
    let first = convert_voice(doubly_broken_reaction_message());
    let second = convert_voice(doubly_broken_reaction_message());
    assert_eq!(
        first,
        Err(VoiceMessageError::Reaction(ReactionError::EmptyEmoji))
    );
    assert_eq!(first, second);
}

fn identity_context() -> RecipientTable<RecipientId> {
    let mut table = RecipientTable::new();
    table.insert(RecipientId(REACTOR_ID), RecipientId(REACTOR_ID));
    table.insert(RecipientId(QUOTED_AUTHOR_ID), RecipientId(QUOTED_AUTHOR_ID));
    table
}

#[test]
fn revalidating_reserialized_voice_message() {
    let context = identity_context();
    let first = VoiceMessage::<RecipientId>::try_from_with(test_voice_message(), &context)
        .expect("fixture must convert");
    let raw = first.to_standard_message();
    let second = VoiceMessage::<RecipientId>::try_from_with(raw, &context);
    assert_eq!(second, Ok(first));
}

#[test]
fn sticker_message() {
    let message = convert_sticker(test_sticker_message()).expect("fixture must convert");
    assert_eq!(message.sticker().pack_id(), &vec![0xaa; 16]);
    assert_eq!(message.sticker().pack_key(), &vec![0xbb; 32]);
    assert_eq!(message.sticker().sticker_id(), 1);
    assert_eq!(message.reactions().0.len(), 1);
    assert_eq!(message.reactions().0[0].emoji().as_str(), ":-)");
}

#[test]
fn sticker_message_no_reactions() {
    let mut message = test_sticker_message();
    message.reactions.clear();
    assert!(convert_sticker(message).is_ok());
}

#[test]
fn sticker_message_invalid_reaction() {
    let mut message = test_sticker_message();
    message.reactions.push(proto::Reaction {
        emoji: String::new(),
        author_id: REACTOR_ID,
        sent_timestamp: 0,
    });
    assert_eq!(
        convert_sticker(message),
        Err(ChatItemError::Reaction(ReactionError::EmptyEmoji))
    );
}

#[test]
fn sticker_message_missing_sticker() {
    let mut message = test_sticker_message();
    message.sticker = None;
    assert_eq!(
        convert_sticker(message),
        Err(ChatItemError::StickerMessageMissingSticker)
    );
}

#[test]
fn sticker_message_invalid_pack_id() {
    let mut message = test_sticker_message();
    message.sticker = Some(proto::Sticker {
        pack_id: vec![0xaa; 15],
        pack_key: vec![0xbb; 32],
        sticker_id: 1,
    });
    assert_eq!(
        convert_sticker(message),
        Err(ChatItemError::Sticker(MessageStickerError::InvalidPackId))
    );
}

#[test]
fn sticker_message_invalid_pack_key() {
    let mut message = test_sticker_message();
    message.sticker = Some(proto::Sticker {
        pack_id: vec![0xaa; 16],
        pack_key: vec![0xbb; 31],
        sticker_id: 1,
    });
    assert_eq!(
        convert_sticker(message),
        Err(ChatItemError::Sticker(MessageStickerError::InvalidPackKey))
    );
}

#[test]
fn recipient_table_lookup() {
    let mut table: RecipientTable<u64> = RecipientTable::new();
    assert_eq!(table.lookup(&RecipientId(1)), None);
    table.insert(RecipientId(1), 10);
    table.insert(RecipientId(2), 20);
    assert_eq!(table.lookup(&RecipientId(1)), Some(10));
    assert_eq!(table.lookup(&RecipientId(2)), Some(20));
    assert_eq!(table.lookup(&RecipientId(3)), None);
    // A later binding for the same key wins.
    table.insert(RecipientId(1), 30);
    assert_eq!(table.lookup(&RecipientId(1)), Some(30));
}
