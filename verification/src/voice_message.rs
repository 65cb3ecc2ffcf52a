//! Message-kind validator: voice message.
//!
//! The wire format reuses one "standard message" shape for several logical
//! kinds, so this validator first narrows that shared shape by
//! field-exclusivity and cardinality rules, then validates each sub-field.

use vstd::prelude::*;

use crate::chat::{
    convert_reactions, reaction_matches, reaction_valid, reactions_all_valid,
    reactions_first_err, reactions_match, Reaction, ReactionError,
};
use crate::convert::TryFromWith;
use crate::file::{
    attachment_err, attachment_matches, attachment_valid, MessageAttachment,
    MessageAttachmentError,
};
use crate::frame::RecipientId;
use crate::method::Lookup;
use crate::proto;
use crate::quote::{quote_err, quote_matches, quote_valid, Quote, QuoteError};
use crate::serialize::UnorderedList;

verus! {

/// Why a voice message was rejected.
#[derive(Debug, PartialEq)]
pub enum VoiceMessageError {
    /// The single attachment was rejected.
    Attachment(MessageAttachmentError),
    /// A field that a voice message must not carry was present; the
    /// payload names the offending raw field.
    UnexpectedField(&'static str),
    /// The attachment sequence did not contain exactly one element; the
    /// payload is the actual count.
    WrongAttachmentsCount(usize),
    /// The single attachment's role flag was not the voice-message flag;
    /// the payload is the actual flag.
    WrongAttachmentType(proto::Flag),
    /// The quote was rejected.
    Quote(QuoteError),
    /// A reaction was rejected.
    Reaction(ReactionError),
}

/// Validated voice message: the optional validated quote, an
/// order-insignificant reaction list, and the single voice attachment.
///
/// The fields are private, so only a conversion entry point can produce a
/// value.
#[derive(Debug, PartialEq)]
pub struct VoiceMessage<R> {
    quote: Option<Quote<R>>,
    reactions: UnorderedList<Reaction<R>>,
    attachment: MessageAttachment,
}

impl<R> VoiceMessage<R> {
    /// The validated quote, when the raw message carried one.
    pub closed spec fn spec_quote(&self) -> Option<Quote<R>> {
        self.quote
    }

    /// The validated reactions, in input order.
    pub closed spec fn spec_reactions(&self) -> Seq<Reaction<R>> {
        self.reactions.0@
    }

    /// The validated voice attachment.
    pub closed spec fn spec_attachment(&self) -> MessageAttachment {
        self.attachment
    }

    pub fn quote(&self) -> (quote: &Option<Quote<R>>)
        ensures
            *quote == self.spec_quote(),
    {
        &self.quote
    }

    pub fn reactions(&self) -> (reactions: &UnorderedList<Reaction<R>>)
        ensures
            reactions.0@ == self.spec_reactions(),
    {
        &self.reactions
    }

    pub fn attachment(&self) -> (attachment: &MessageAttachment)
        ensures
            *attachment == self.spec_attachment(),
    {
        &self.attachment
    }
}

/// The validated voice message carries exactly what the raw shape held:
/// quote and reactions resolved through the context, and the single raw
/// attachment.
pub open spec fn voice_message_fields_match<R, C: Lookup<RecipientId, R>>(
    item: proto::StandardMessage,
    context: C,
    validated: VoiceMessage<R>,
) -> bool {
    &&& match item.quote {
        Some(q) => validated.spec_quote() matches Some(vq) && quote_matches(q, context, vq),
        None => validated.spec_quote() is None,
    }
    &&& reactions_match(item.reactions@, context, validated.spec_reactions())
    &&& attachment_matches(item.attachments@[0], validated.spec_attachment())
}

/// Exact outcome of converting a raw standard-message shape into a voice
/// message. Rule order is fixed, and the first violated rule is the one
/// reported: field-exclusivity, attachment cardinality, attachment
/// validity, role-flag match, quote, reactions.
pub open spec fn voice_message_converts_to<R, C: Lookup<RecipientId, R>>(
    item: proto::StandardMessage,
    context: C,
    outcome: Result<VoiceMessage<R>, VoiceMessageError>,
) -> bool {
    if item.text is Some {
        outcome matches Err(VoiceMessageError::UnexpectedField(f)) && f@ == "text"@
    } else if item.long_text is Some {
        outcome matches Err(VoiceMessageError::UnexpectedField(f)) && f@ == "longText"@
    } else if item.link_preview@.len() > 0 {
        outcome matches Err(VoiceMessageError::UnexpectedField(f)) && f@ == "linkPreview"@
    } else if item.attachments@.len() != 1 {
        outcome matches Err(VoiceMessageError::WrongAttachmentsCount(n)) && n as int
            == item.attachments@.len() as int
    } else if !attachment_valid(item.attachments@[0]) {
        outcome matches Err(VoiceMessageError::Attachment(e)) && e == attachment_err(
            item.attachments@[0],
        )
    } else if item.attachments@[0].flag != proto::Flag::VoiceMessage {
        outcome matches Err(VoiceMessageError::WrongAttachmentType(flag)) && flag
            == item.attachments@[0].flag
    } else if item.quote matches Some(q) && !quote_valid::<R, C>(q, context) {
        outcome matches Err(VoiceMessageError::Quote(e)) && e == quote_err::<R, C>(
            item.quote->0,
            context,
        )
    } else if !reactions_all_valid::<R, C>(item.reactions@, context) {
        outcome matches Err(VoiceMessageError::Reaction(e)) && reactions_first_err::<R, C>(
            item.reactions@,
            context,
            e,
        )
    } else {
        outcome matches Ok(validated) && voice_message_fields_match(item, context, validated)
    }
}

impl<R, C: Lookup<RecipientId, R>> TryFromWith<proto::StandardMessage, C> for VoiceMessage<R> {
    type Error = VoiceMessageError;

    open spec fn conversion_spec(
        item: proto::StandardMessage,
        context: C,
        outcome: Result<VoiceMessage<R>, VoiceMessageError>,
    ) -> bool {
        voice_message_converts_to(item, context, outcome)
    }

    fn try_from_with(item: proto::StandardMessage, context: &C) -> (outcome: Result<
        VoiceMessage<R>,
        VoiceMessageError,
    >) {
        let proto::StandardMessage {
            quote,
            reactions,
            text,
            attachments,
            link_preview,
            long_text,
        } = item;

        if text.is_some() {
            return Err(VoiceMessageError::UnexpectedField("text"));
        }
        if long_text.is_some() {
            return Err(VoiceMessageError::UnexpectedField("longText"));
        }
        if link_preview.len() > 0 {
            return Err(VoiceMessageError::UnexpectedField("linkPreview"));
        }

        if attachments.len() != 1 {
            return Err(VoiceMessageError::WrongAttachmentsCount(attachments.len()));
        }
        let mut attachments = attachments;
        let raw_attachment = attachments.remove(0);

        let attachment = match MessageAttachment::try_from_proto(raw_attachment) {
            Ok(attachment) => attachment,
            Err(e) => {
                return Err(VoiceMessageError::Attachment(e));
            },
        };

        if attachment.flag() != proto::Flag::VoiceMessage {
            return Err(VoiceMessageError::WrongAttachmentType(attachment.flag()));
        }

        let quote = match quote {
            Some(q) => match Quote::<R>::try_from_with(q, context) {
                Ok(validated) => Some(validated),
                Err(e) => {
                    return Err(VoiceMessageError::Quote(e));
                },
            },
            None => None,
        };

        let reactions = match convert_reactions::<R, C>(reactions, context) {
            Ok(list) => list,
            Err(e) => {
                return Err(VoiceMessageError::Reaction(e));
            },
        };

        Ok(VoiceMessage { quote, reactions, attachment })
    }
}

/// The raw standard-message shape that re-serializing a validated voice
/// message produces: exactly the fields the validated message holds, with
/// every excluded field absent.
pub open spec fn voice_reserializes_to(
    validated: VoiceMessage<RecipientId>,
    raw: proto::StandardMessage,
) -> bool {
    &&& raw.text is None
    &&& raw.long_text is None
    &&& raw.link_preview@.len() == 0
    &&& raw.attachments@.len() == 1
    &&& raw.attachments@[0].pointer == Some(validated.spec_attachment().spec_pointer())
    &&& raw.attachments@[0].flag == validated.spec_attachment().spec_flag()
    &&& match validated.spec_quote() {
        Some(vq) => raw.quote matches Some(q) && q.author_id == vq.spec_author().0
            && q.target_sent_timestamp == vq.spec_target_sent_timestamp(),
        None => raw.quote is None,
    }
    &&& raw.reactions@.len() == validated.spec_reactions().len()
    &&& forall|i: int|
        0 <= i < raw.reactions@.len() ==> {
            let r = #[trigger] raw.reactions@[i];
            &&& r.emoji@ == validated.spec_reactions()[i].spec_emoji()
            &&& r.author_id == validated.spec_reactions()[i].spec_author().0
            &&& r.sent_timestamp == validated.spec_reactions()[i].spec_sent_timestamp()
        }
}

impl VoiceMessage<RecipientId> {
    /// Re-serializes the validated message into the raw shape it was
    /// validated from, for the lightweight representation that keeps
    /// recipients as identifiers.
    pub fn to_standard_message(&self) -> (raw: proto::StandardMessage)
        ensures
            voice_reserializes_to(*self, raw),
    {
        let pointer = self.attachment().pointer();
        let raw_pointer = proto::FilePointer {
            content_type: pointer.content_type.clone(),
            size: pointer.size,
        };
        proof {
            assert(raw_pointer =~= self.spec_attachment().spec_pointer());
        }
        let mut attachments: Vec<proto::MessageAttachment> = Vec::new();
        attachments.push(
            proto::MessageAttachment { pointer: Some(raw_pointer), flag: self.attachment().flag() },
        );

        let quote = match self.quote() {
            Some(vq) => Some(
                proto::Quote {
                    author_id: vq.author().0,
                    target_sent_timestamp: vq.target_sent_timestamp(),
                },
            ),
            None => None,
        };

        let list = self.reactions();
        let mut reactions: Vec<proto::Reaction> = Vec::new();
        let mut i: usize = 0;
        while i < list.0.len()
            invariant
                i <= list.0.len(),
                list.0@ == self.spec_reactions(),
                reactions@.len() == i,
                forall|j: int|
                    0 <= j < i ==> {
                        let r = #[trigger] reactions@[j];
                        &&& r.emoji@ == self.spec_reactions()[j].spec_emoji()
                        &&& r.author_id == self.spec_reactions()[j].spec_author().0
                        &&& r.sent_timestamp == self.spec_reactions()[j].spec_sent_timestamp()
                    },
            decreases list.0.len() - i,
        {
            let r = &list.0[i];
            reactions.push(
                proto::Reaction {
                    emoji: r.emoji().clone(),
                    author_id: r.author().0,
                    sent_timestamp: r.sent_timestamp(),
                },
            );
            i = i + 1;
        }

        proto::StandardMessage {
            quote,
            reactions,
            text: None,
            attachments,
            link_preview: Vec::new(),
            long_text: None,
        }
    }
}

/// A validated voice message only exists having passed validation: its
/// attachment carries the voice-message flag, and no validated reaction
/// carries an empty emoji.
pub proof fn lemma_validated_voice_message_wf<R, C: Lookup<RecipientId, R>>(
    item: proto::StandardMessage,
    context: C,
    outcome: Result<VoiceMessage<R>, VoiceMessageError>,
)
    requires
        voice_message_converts_to(item, context, outcome),
        outcome is Ok,
    ensures
        outcome->Ok_0.spec_attachment().spec_flag() == proto::Flag::VoiceMessage,
        forall|i: int|
            0 <= i < outcome->Ok_0.spec_reactions().len() ==> (
            #[trigger] outcome->Ok_0.spec_reactions()[i]).spec_emoji().len() > 0,
{
    let validated = outcome->Ok_0;
    assert forall|i: int|
        0 <= i < validated.spec_reactions().len() implies (
    #[trigger] validated.spec_reactions()[i]).spec_emoji().len() > 0 by {
        assert(reaction_valid::<R, C>(item.reactions@[i], context));
        assert(reaction_matches::<R, C>(item.reactions@[i], context, validated.spec_reactions()[i]));
    }
}

/// Idempotence of validation: take a voice message obtained from a
/// successful validation, re-serialize it into its raw shape, and
/// validate that shape again under a context that resolves every
/// identifier to itself. The second validation succeeds and yields a
/// message with the same quote, the same attachment and the same
/// reactions.
pub proof fn lemma_revalidation_idempotent<
    C0: Lookup<RecipientId, RecipientId>,
    C: Lookup<RecipientId, RecipientId>,
>(
    item: proto::StandardMessage,
    context0: C0,
    first: VoiceMessage<RecipientId>,
    raw: proto::StandardMessage,
    context: C,
    outcome: Result<VoiceMessage<RecipientId>, VoiceMessageError>,
)
    requires
        voice_message_converts_to::<RecipientId, C0>(item, context0, Ok(first)),
        voice_reserializes_to(first, raw),
        forall|id: RecipientId| #[trigger] context.spec_lookup(id) == Some(id),
        voice_message_converts_to::<RecipientId, C>(raw, context, outcome),
    ensures
        outcome is Ok,
        outcome->Ok_0.spec_quote() == first.spec_quote(),
        outcome->Ok_0.spec_attachment() == first.spec_attachment(),
        outcome->Ok_0.spec_reactions().len() == first.spec_reactions().len(),
        forall|i: int|
            0 <= i < first.spec_reactions().len() ==> {
                let a = #[trigger] outcome->Ok_0.spec_reactions()[i];
                let b = first.spec_reactions()[i];
                &&& a.spec_emoji() == b.spec_emoji()
                &&& a.spec_author() == b.spec_author()
                &&& a.spec_sent_timestamp() == b.spec_sent_timestamp()
            },
{
    lemma_validated_voice_message_wf::<RecipientId, C0>(item, context0, Ok(first));

    // Every rule of the second validation passes.
    assert(attachment_valid(raw.attachments@[0]));
    assert(raw.attachments@[0].flag == proto::Flag::VoiceMessage);
    if raw.quote is Some {
        assert(quote_valid::<RecipientId, C>(raw.quote->0, context));
    }
    assert forall|i: int|
        0 <= i < raw.reactions@.len() implies #[trigger] reaction_valid::<RecipientId, C>(
        raw.reactions@[i],
        context,
    ) by {
        assert(raw.reactions@[i].emoji@ == first.spec_reactions()[i].spec_emoji());
        assert(first.spec_reactions()[i].spec_emoji().len() > 0);
        assert(context.spec_lookup(RecipientId(raw.reactions@[i].author_id)) is Some);
    }
    assert(outcome is Ok);
    let second = outcome->Ok_0;
    assert(voice_message_fields_match::<RecipientId, C>(raw, context, second));

    // The single attachment round-trips to the same value.
    crate::file::lemma_attachment_eq(second.spec_attachment(), first.spec_attachment());

    // The quote round-trips to the same value.
    if first.spec_quote() is Some {
        let vq = first.spec_quote()->0;
        let q2 = second.spec_quote()->0;
        assert(RecipientId(vq.spec_author().0) =~= vq.spec_author());
        assert(q2.spec_author() == vq.spec_author());
        crate::quote::lemma_quote_eq(q2, vq);
    }

    // Each reaction round-trips to the same content.
    assert forall|i: int|
        0 <= i < first.spec_reactions().len() implies {
        let a = #[trigger] second.spec_reactions()[i];
        let b = first.spec_reactions()[i];
        &&& a.spec_emoji() == b.spec_emoji()
        &&& a.spec_author() == b.spec_author()
        &&& a.spec_sent_timestamp() == b.spec_sent_timestamp()
    } by {
        let r = raw.reactions@[i];
        assert(reaction_matches::<RecipientId, C>(r, context, second.spec_reactions()[i]));
        assert(RecipientId(first.spec_reactions()[i].spec_author().0) =~= first.spec_reactions()[
            i
        ].spec_author());
        assert(context.spec_lookup(RecipientId(r.author_id)) == Some(
            first.spec_reactions()[i].spec_author(),
        ));
    }
}

/// A standard-message shape with a present free-text field is rejected as
/// a voice message with the unexpected-field error naming that field,
/// whatever its attachment count and other fields hold.
pub proof fn lemma_text_field_rejected<R, C: Lookup<RecipientId, R>>(
    item: proto::StandardMessage,
    context: C,
    outcome: Result<VoiceMessage<R>, VoiceMessageError>,
)
    requires
        item.text is Some,
        voice_message_converts_to(item, context, outcome),
    ensures
        outcome matches Err(VoiceMessageError::UnexpectedField(f)) && f@ == "text"@,
{
}

/// A standard-message shape free of unexpected fields whose attachment
/// sequence does not hold exactly one element is rejected with the
/// wrong-attachments-count error carrying the actual count.
pub proof fn lemma_wrong_attachments_count_rejected<R, C: Lookup<RecipientId, R>>(
    item: proto::StandardMessage,
    context: C,
    outcome: Result<VoiceMessage<R>, VoiceMessageError>,
)
    requires
        item.text is None,
        item.long_text is None,
        item.link_preview@.len() == 0,
        item.attachments@.len() != 1,
        voice_message_converts_to(item, context, outcome),
    ensures
        outcome matches Err(VoiceMessageError::WrongAttachmentsCount(n)) && n as int
            == item.attachments@.len() as int,
{
}

/// A standard-message shape whose single, acceptable attachment carries a
/// role flag other than the voice-message flag is rejected with the
/// wrong-attachment-type error carrying that flag.
pub proof fn lemma_wrong_attachment_type_rejected<R, C: Lookup<RecipientId, R>>(
    item: proto::StandardMessage,
    context: C,
    outcome: Result<VoiceMessage<R>, VoiceMessageError>,
)
    requires
        item.text is None,
        item.long_text is None,
        item.link_preview@.len() == 0,
        item.attachments@.len() == 1,
        attachment_valid(item.attachments@[0]),
        item.attachments@[0].flag != proto::Flag::VoiceMessage,
        voice_message_converts_to(item, context, outcome),
    ensures
        outcome matches Err(VoiceMessageError::WrongAttachmentType(flag)) && flag
            == item.attachments@[0].flag,
{
}

/// A standard-message shape that passes the exclusivity, cardinality and
/// attachment rules, carries no quote, and whose reactions are all
/// acceptable converts successfully, with its validated quote field empty.
pub proof fn lemma_no_quote_accepted<R, C: Lookup<RecipientId, R>>(
    item: proto::StandardMessage,
    context: C,
    outcome: Result<VoiceMessage<R>, VoiceMessageError>,
)
    requires
        item.text is None,
        item.long_text is None,
        item.link_preview@.len() == 0,
        item.attachments@.len() == 1,
        attachment_valid(item.attachments@[0]),
        item.attachments@[0].flag == proto::Flag::VoiceMessage,
        item.quote is None,
        reactions_all_valid::<R, C>(item.reactions@, context),
        voice_message_converts_to(item, context, outcome),
    ensures
        outcome is Ok,
        outcome->Ok_0.spec_quote() is None,
{
}

} // verus!
