//! Message-kind validator: sticker message.

use vstd::prelude::*;

use crate::chat::{
    convert_reactions, reaction_matches, reaction_valid, reactions_all_valid,
    reactions_first_err, reactions_match, ChatItemError, Reaction,
};
use crate::convert::TryFromWith;
use crate::frame::RecipientId;
use crate::method::Lookup;
use crate::proto;
use crate::serialize::UnorderedList;
use crate::sticker::{
    sticker_err, sticker_matches, sticker_valid, MessageSticker, PACK_ID_LENGTH, PACK_KEY_LENGTH,
};

verus! {

/// Validated sticker message: an order-insignificant reaction list and the
/// mandatory, validated sticker content.
///
/// The fields are private, so only a conversion entry point can produce a
/// value.
#[derive(Debug, PartialEq)]
pub struct StickerMessage<R> {
    reactions: UnorderedList<Reaction<R>>,
    sticker: MessageSticker,
}

impl<R> StickerMessage<R> {
    /// The validated reactions, in input order.
    pub closed spec fn spec_reactions(&self) -> Seq<Reaction<R>> {
        self.reactions.0@
    }

    /// The validated sticker content.
    pub closed spec fn spec_sticker(&self) -> MessageSticker {
        self.sticker
    }

    pub fn reactions(&self) -> (reactions: &UnorderedList<Reaction<R>>)
        ensures
            reactions.0@ == self.spec_reactions(),
    {
        &self.reactions
    }

    pub fn sticker(&self) -> (sticker: &MessageSticker)
        ensures
            *sticker == self.spec_sticker(),
    {
        &self.sticker
    }
}

/// Exact outcome of converting a raw sticker message. Rule order: the
/// reaction list is validated first, then the sticker-content field must
/// be present, then the sticker content itself must be acceptable.
pub open spec fn sticker_message_converts_to<R, C: Lookup<RecipientId, R>>(
    item: proto::StickerMessage,
    context: C,
    outcome: Result<StickerMessage<R>, ChatItemError>,
) -> bool {
    if !reactions_all_valid::<R, C>(item.reactions@, context) {
        outcome matches Err(ChatItemError::Reaction(e)) && reactions_first_err::<R, C>(
            item.reactions@,
            context,
            e,
        )
    } else if item.sticker is None {
        outcome matches Err(e) && e == ChatItemError::StickerMessageMissingSticker
    } else if !sticker_valid(item.sticker->0) {
        outcome matches Err(ChatItemError::Sticker(e)) && e == sticker_err(item.sticker->0)
    } else {
        outcome matches Ok(validated) && {
            &&& reactions_match(item.reactions@, context, validated.spec_reactions())
            &&& sticker_matches(item.sticker->0, validated.spec_sticker())
        }
    }
}

impl<R, C: Lookup<RecipientId, R>> TryFromWith<proto::StickerMessage, C> for StickerMessage<R> {
    type Error = ChatItemError;

    open spec fn conversion_spec(
        item: proto::StickerMessage,
        context: C,
        outcome: Result<StickerMessage<R>, ChatItemError>,
    ) -> bool {
        sticker_message_converts_to(item, context, outcome)
    }

    fn try_from_with(item: proto::StickerMessage, context: &C) -> (outcome: Result<
        StickerMessage<R>,
        ChatItemError,
    >) {
        let proto::StickerMessage { reactions, sticker } = item;

        let reactions = match convert_reactions::<R, C>(reactions, context) {
            Ok(list) => list,
            Err(e) => {
                return Err(ChatItemError::Reaction(e));
            },
        };

        let sticker = match sticker {
            Some(sticker) => sticker,
            None => {
                return Err(ChatItemError::StickerMessageMissingSticker);
            },
        };

        let sticker = match MessageSticker::try_from_proto(sticker) {
            Ok(sticker) => sticker,
            Err(e) => {
                return Err(ChatItemError::Sticker(e));
            },
        };

        Ok(StickerMessage { reactions, sticker })
    }
}

/// A validated sticker message only exists having passed validation: its
/// sticker content has pack identifier and key of the fixed lengths, and
/// no validated reaction carries an empty emoji.
pub proof fn lemma_validated_sticker_message_wf<R, C: Lookup<RecipientId, R>>(
    item: proto::StickerMessage,
    context: C,
    outcome: Result<StickerMessage<R>, ChatItemError>,
)
    requires
        sticker_message_converts_to(item, context, outcome),
        outcome is Ok,
    ensures
        outcome->Ok_0.spec_sticker().spec_pack_id().len() == PACK_ID_LENGTH,
        outcome->Ok_0.spec_sticker().spec_pack_key().len() == PACK_KEY_LENGTH,
        forall|i: int|
            0 <= i < outcome->Ok_0.spec_reactions().len() ==> (
            #[trigger] outcome->Ok_0.spec_reactions()[i]).spec_emoji().len() > 0,
{
    let validated = outcome->Ok_0;
    assert forall|i: int|
        0 <= i < validated.spec_reactions().len() implies (
    #[trigger] validated.spec_reactions()[i]).spec_emoji().len() > 0 by {
        assert(reaction_valid::<R, C>(item.reactions@[i], context));
        assert(reaction_matches::<R, C>(item.reactions@[i], context, validated.spec_reactions()[i]));
    }
}

/// A sticker message whose sticker-content field is absent is rejected
/// with the missing-sticker error, even when its whole reaction list is
/// acceptable.
pub proof fn lemma_missing_sticker_rejected<R, C: Lookup<RecipientId, R>>(
    item: proto::StickerMessage,
    context: C,
    outcome: Result<StickerMessage<R>, ChatItemError>,
)
    requires
        item.sticker is None,
        reactions_all_valid::<R, C>(item.reactions@, context),
        sticker_message_converts_to(item, context, outcome),
    ensures
        outcome == Result::<StickerMessage<R>, ChatItemError>::Err(
            ChatItemError::StickerMessageMissingSticker,
        ),
{
}

} // verus!
