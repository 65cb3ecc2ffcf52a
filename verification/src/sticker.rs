//! Sticker-content sub-entity validator.

use vstd::prelude::*;

use crate::proto;

verus! {

/// Length, in bytes, of a sticker pack identifier.
pub const PACK_ID_LENGTH: usize = 16;

/// Length, in bytes, of a sticker pack key.
pub const PACK_KEY_LENGTH: usize = 32;

/// Why sticker content was rejected.
#[derive(Debug, PartialEq, Eq, Structural)]
pub enum MessageStickerError {
    /// The pack identifier does not have [`PACK_ID_LENGTH`] bytes.
    InvalidPackId,
    /// The pack key does not have [`PACK_KEY_LENGTH`] bytes.
    InvalidPackKey,
}

/// Validated sticker content: pack identifier and key of the right size.
///
/// The fields are private, so only a conversion entry point can produce a
/// value.
#[derive(Debug, PartialEq)]
pub struct MessageSticker {
    pack_id: Vec<u8>,
    pack_key: Vec<u8>,
    sticker_id: u32,
}

impl MessageSticker {
    /// The validated pack identifier.
    pub closed spec fn spec_pack_id(&self) -> Seq<u8> {
        self.pack_id@
    }

    /// The validated pack key.
    pub closed spec fn spec_pack_key(&self) -> Seq<u8> {
        self.pack_key@
    }

    /// Which sticker of the pack is meant.
    pub closed spec fn spec_sticker_id(&self) -> u32 {
        self.sticker_id
    }

    pub fn pack_id(&self) -> (pack_id: &Vec<u8>)
        ensures
            pack_id@ == self.spec_pack_id(),
    {
        &self.pack_id
    }

    pub fn pack_key(&self) -> (pack_key: &Vec<u8>)
        ensures
            pack_key@ == self.spec_pack_key(),
    {
        &self.pack_key
    }

    pub fn sticker_id(&self) -> (sticker_id: u32)
        ensures
            sticker_id == self.spec_sticker_id(),
    {
        self.sticker_id
    }
}

/// Raw sticker content is acceptable: identifier and key have their fixed
/// lengths.
pub open spec fn sticker_valid(item: proto::Sticker) -> bool {
    item.pack_id@.len() == PACK_ID_LENGTH && item.pack_key@.len() == PACK_KEY_LENGTH
}

/// The error unacceptable sticker content is rejected with: the pack
/// identifier is checked first.
pub open spec fn sticker_err(item: proto::Sticker) -> MessageStickerError {
    if item.pack_id@.len() != PACK_ID_LENGTH {
        MessageStickerError::InvalidPackId
    } else {
        MessageStickerError::InvalidPackKey
    }
}

/// Validated sticker content carries the raw fields unchanged.
pub open spec fn sticker_matches(item: proto::Sticker, validated: MessageSticker) -> bool {
    &&& validated.spec_pack_id() == item.pack_id@
    &&& validated.spec_pack_key() == item.pack_key@
    &&& validated.spec_sticker_id() == item.sticker_id
}

/// Exact outcome of converting raw sticker content.
pub open spec fn sticker_converts_to(
    item: proto::Sticker,
    outcome: Result<MessageSticker, MessageStickerError>,
) -> bool {
    match outcome {
        Ok(validated) => sticker_valid(item) && sticker_matches(item, validated),
        Err(e) => !sticker_valid(item) && e == sticker_err(item),
    }
}

impl MessageSticker {
    /// Converts raw sticker content; needs no resolution context.
    pub fn try_from_proto(item: proto::Sticker) -> (outcome: Result<
        MessageSticker,
        MessageStickerError,
    >)
        ensures
            sticker_converts_to(item, outcome),
    {
        let proto::Sticker { pack_id, pack_key, sticker_id } = item;
        if pack_id.len() != PACK_ID_LENGTH {
            return Err(MessageStickerError::InvalidPackId);
        }
        if pack_key.len() != PACK_KEY_LENGTH {
            return Err(MessageStickerError::InvalidPackKey);
        }
        Ok(MessageSticker { pack_id, pack_key, sticker_id })
    }
}

} // verus!
