//! Raw message shapes, as handed over by the outer protocol decoder.
//!
//! Every value here is untrusted: fields may be absent, repeated fields may
//! have any cardinality, and identifiers may dangle. The validators consume
//! these values and either produce a validated counterpart or reject them.

use vstd::prelude::*;

verus! {

/// Raw reaction attached to a message.
#[verifier::ext_equal]
pub struct Reaction {
    pub emoji: String,
    pub author_id: u64,
    pub sent_timestamp: u64,
}

/// Raw quote of a prior message.
pub struct Quote {
    pub author_id: u64,
    pub target_sent_timestamp: u64,
}

/// Raw reference to binary content stored outside the message tree.
#[derive(Debug, PartialEq)]
#[verifier::ext_equal]
pub struct FilePointer {
    pub content_type: String,
    pub size: u64,
}

/// Semantic role of an attachment.
#[derive(Clone, Copy, Debug, PartialEq, Eq, Structural)]
pub enum Flag {
    Unset,
    VoiceMessage,
    Borderless,
    Gif,
}

/// Raw attachment: content reference plus its role flag.
pub struct MessageAttachment {
    pub pointer: Option<FilePointer>,
    pub flag: Flag,
}

/// Raw sticker content.
pub struct Sticker {
    pub pack_id: Vec<u8>,
    pub pack_key: Vec<u8>,
    pub sticker_id: u32,
}

/// Raw link preview entry.
pub struct LinkPreview {
    pub url: String,
}

/// Raw sticker message: a repeated reaction field and an optional
/// sticker-content field.
pub struct StickerMessage {
    pub reactions: Vec<Reaction>,
    pub sticker: Option<Sticker>,
}

/// Raw standard message: the shape the wire format shares between several
/// logical message kinds (text-bearing and voice alike), hence a superset
/// of the fields any single kind may carry.
pub struct StandardMessage {
    pub quote: Option<Quote>,
    pub reactions: Vec<Reaction>,
    pub text: Option<String>,
    pub attachments: Vec<MessageAttachment>,
    pub link_preview: Vec<LinkPreview>,
    pub long_text: Option<FilePointer>,
}

} // verus!
