//! Reaction sub-entity validator and the chat-item error taxonomy.

use vstd::prelude::*;

use crate::convert::TryFromWith;
use crate::frame::RecipientId;
use crate::method::Lookup;
use crate::proto;
use crate::serialize::UnorderedList;
use crate::sticker::MessageStickerError;

verus! {

/// Why a reaction was rejected.
#[derive(Debug, PartialEq, Eq, Structural)]
pub enum ReactionError {
    /// The emoji string was empty.
    EmptyEmoji,
    /// The reactor reference did not resolve in the context.
    AuthorNotFound(RecipientId),
}

/// Why a chat item (here: a sticker message) was rejected.
#[derive(Debug, PartialEq, Eq, Structural)]
pub enum ChatItemError {
    /// The mandatory sticker-content field was absent.
    StickerMessageMissingSticker,
    /// The sticker content itself was rejected.
    Sticker(MessageStickerError),
    /// A reaction was rejected.
    Reaction(ReactionError),
}

/// Validated reaction: non-empty emoji, resolved reactor.
///
/// The fields are private, so only a conversion entry point can produce a
/// value: no module can assemble an "already valid" reaction directly.
#[derive(Debug, PartialEq)]
pub struct Reaction<R> {
    emoji: String,
    author: R,
    sent_timestamp: u64,
}

impl<R> Reaction<R> {
    /// The validated emoji, as a character sequence.
    pub closed spec fn spec_emoji(&self) -> Seq<char> {
        self.emoji@
    }

    /// The resolved reactor.
    pub closed spec fn spec_author(&self) -> R {
        self.author
    }

    /// When the reaction was sent.
    pub closed spec fn spec_sent_timestamp(&self) -> u64 {
        self.sent_timestamp
    }

    pub fn emoji(&self) -> (emoji: &String)
        ensures
            emoji@ == self.spec_emoji(),
    {
        &self.emoji
    }

    pub fn author(&self) -> (author: &R)
        ensures
            *author == self.spec_author(),
    {
        &self.author
    }

    pub fn sent_timestamp(&self) -> (sent_timestamp: u64)
        ensures
            sent_timestamp == self.spec_sent_timestamp(),
    {
        self.sent_timestamp
    }
}

/// A raw reaction is acceptable: non-empty emoji and a reactor that the
/// context resolves.
pub open spec fn reaction_valid<R, C: Lookup<RecipientId, R>>(
    item: proto::Reaction,
    context: C,
) -> bool {
    item.emoji@.len() > 0 && context.spec_lookup(RecipientId(item.author_id)) is Some
}

/// The error an unacceptable raw reaction is rejected with: the empty
/// emoji is reported first, then the unresolvable reactor.
pub open spec fn reaction_err<R, C: Lookup<RecipientId, R>>(
    item: proto::Reaction,
    context: C,
) -> ReactionError {
    if item.emoji@.len() == 0 {
        ReactionError::EmptyEmoji
    } else {
        ReactionError::AuthorNotFound(RecipientId(item.author_id))
    }
}

/// The validated reaction carries the raw emoji and timestamp unchanged,
/// and the reactor the context resolved the raw identifier to.
pub open spec fn reaction_matches<R, C: Lookup<RecipientId, R>>(
    item: proto::Reaction,
    context: C,
    validated: Reaction<R>,
) -> bool {
    &&& validated.spec_emoji() == item.emoji@
    &&& Some(validated.spec_author()) == context.spec_lookup(RecipientId(item.author_id))
    &&& validated.spec_sent_timestamp() == item.sent_timestamp
}

/// Exact outcome of converting one raw reaction.
pub open spec fn reaction_converts_to<R, C: Lookup<RecipientId, R>>(
    item: proto::Reaction,
    context: C,
    outcome: Result<Reaction<R>, ReactionError>,
) -> bool {
    match outcome {
        Ok(validated) => reaction_valid::<R, C>(item, context) && reaction_matches(
            item,
            context,
            validated,
        ),
        Err(e) => !reaction_valid::<R, C>(item, context) && e == reaction_err::<R, C>(
            item,
            context,
        ),
    }
}

impl<R, C: Lookup<RecipientId, R>> TryFromWith<proto::Reaction, C> for Reaction<R> {
    type Error = ReactionError;

    open spec fn conversion_spec(
        item: proto::Reaction,
        context: C,
        outcome: Result<Reaction<R>, ReactionError>,
    ) -> bool {
        reaction_converts_to(item, context, outcome)
    }

    fn try_from_with(item: proto::Reaction, context: &C) -> (outcome: Result<
        Reaction<R>,
        ReactionError,
    >) {
        let proto::Reaction { emoji, author_id, sent_timestamp } = item;
        if emoji.as_str().is_empty() {
            return Err(ReactionError::EmptyEmoji);
        }
        match context.lookup(&RecipientId(author_id)) {
            Some(author) => Ok(Reaction { emoji, author, sent_timestamp }),
            None => Err(ReactionError::AuthorNotFound(RecipientId(author_id))),
        }
    }
}

/// Every raw reaction of the sequence is acceptable.
pub open spec fn reactions_all_valid<R, C: Lookup<RecipientId, R>>(
    items: Seq<proto::Reaction>,
    context: C,
) -> bool {
    forall|i: int|
        0 <= i < items.len() ==> #[trigger] reaction_valid::<R, C>(items[i], context)
}

/// `e` is the error of the first unacceptable raw reaction of the
/// sequence: everything before it is acceptable.
pub open spec fn reactions_first_err<R, C: Lookup<RecipientId, R>>(
    items: Seq<proto::Reaction>,
    context: C,
    e: ReactionError,
) -> bool {
    exists|i: int|
        {
            &&& 0 <= i < items.len()
            &&& !(#[trigger] reaction_valid::<R, C>(items[i], context))
            &&& forall|j: int| 0 <= j < i ==> reaction_valid::<R, C>(items[j], context)
            &&& e == reaction_err::<R, C>(items[i], context)
        }
}

/// The validated sequence converts the raw one element by element, in
/// order.
pub open spec fn reactions_match<R, C: Lookup<RecipientId, R>>(
    items: Seq<proto::Reaction>,
    context: C,
    validated: Seq<Reaction<R>>,
) -> bool {
    &&& validated.len() == items.len()
    &&& forall|i: int|
        0 <= i < items.len() ==> reaction_matches::<R, C>(
            items[i],
            context,
            #[trigger] validated[i],
        )
}

/// Exact outcome of converting a whole raw reaction sequence: all of it on
/// success, the first rejection otherwise.
pub open spec fn reactions_convert_to<R, C: Lookup<RecipientId, R>>(
    items: Seq<proto::Reaction>,
    context: C,
    outcome: Result<UnorderedList<Reaction<R>>, ReactionError>,
) -> bool {
    match outcome {
        Ok(list) => reactions_all_valid::<R, C>(items, context) && reactions_match(
            items,
            context,
            list.0@,
        ),
        Err(e) => reactions_first_err(items, context, e),
    }
}

/// Converts a raw reaction sequence, failing on the first unacceptable
/// element: a single bad reaction invalidates the whole list.
pub fn convert_reactions<R, C: Lookup<RecipientId, R>>(
    items: Vec<proto::Reaction>,
    context: &C,
) -> (outcome: Result<UnorderedList<Reaction<R>>, ReactionError>)
    ensures
        reactions_convert_to(items@, *context, outcome),
{
    let mut validated: Vec<Reaction<R>> = Vec::new();
    let mut i: usize = 0;
    while i < items.len()
        invariant
            i <= items.len(),
            validated@.len() == i,
            forall|j: int| 0 <= j < i ==> reaction_valid::<R, C>(items@[j], *context),
            forall|j: int|
                0 <= j < i ==> reaction_matches::<R, C>(
                    items@[j],
                    *context,
                    #[trigger] validated@[j],
                ),
        decreases items.len() - i,
    {
        let item = &items[i];
        let raw = proto::Reaction {
            emoji: item.emoji.clone(),
            author_id: item.author_id,
            sent_timestamp: item.sent_timestamp,
        };
        proof {
            assert(raw =~= items@[i as int]);
        }
        match Reaction::<R>::try_from_with(raw, context) {
            Ok(v) => validated.push(v),
            Err(e) => {
                proof {
                    assert(!reaction_valid::<R, C>(items@[i as int], *context));
                }
                return Err(e);
            },
        }
        i = i + 1;
    }
    Ok(UnorderedList(validated))
}

/// Converting an empty reaction sequence never fails, whatever the
/// context and whatever the rest of the message holds.
pub proof fn lemma_empty_reactions_always_valid<R, C: Lookup<RecipientId, R>>(
    items: Seq<proto::Reaction>,
    context: C,
    outcome: Result<UnorderedList<Reaction<R>>, ReactionError>,
)
    requires
        items.len() == 0,
        reactions_convert_to(items, context, outcome),
    ensures
        outcome is Ok,
        reactions_all_valid::<R, C>(items, context),
{
}

/// A reaction with a non-empty emoji and a reactor the context resolves
/// converts successfully, and the validated emoji equals the raw one.
pub proof fn lemma_reaction_accepts_resolvable<R, C: Lookup<RecipientId, R>>(
    item: proto::Reaction,
    context: C,
    outcome: Result<Reaction<R>, ReactionError>,
)
    requires
        item.emoji@.len() > 0,
        context.spec_lookup(RecipientId(item.author_id)) is Some,
        reaction_converts_to(item, context, outcome),
    ensures
        outcome is Ok,
        outcome->Ok_0.spec_emoji() == item.emoji@,
{
}

/// A validated reaction only exists having passed validation: its emoji
/// is never empty.
pub proof fn lemma_validated_reaction_wf<R, C: Lookup<RecipientId, R>>(
    item: proto::Reaction,
    context: C,
    outcome: Result<Reaction<R>, ReactionError>,
)
    requires
        reaction_converts_to(item, context, outcome),
        outcome is Ok,
    ensures
        outcome->Ok_0.spec_emoji().len() > 0,
{
}

/// A reaction with an empty emoji is rejected with the empty-emoji error,
/// independent of every other field and of the context.
pub proof fn lemma_reaction_rejects_empty_emoji<R, C: Lookup<RecipientId, R>>(
    item: proto::Reaction,
    context: C,
    outcome: Result<Reaction<R>, ReactionError>,
)
    requires
        item.emoji@.len() == 0,
        reaction_converts_to(item, context, outcome),
    ensures
        outcome == Result::<Reaction<R>, ReactionError>::Err(ReactionError::EmptyEmoji),
{
}

} // verus!
