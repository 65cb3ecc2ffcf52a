//! Quote sub-entity validator.

use vstd::prelude::*;

use crate::convert::TryFromWith;
use crate::frame::RecipientId;
use crate::method::Lookup;
use crate::proto;

verus! {

/// Why a quote was rejected.
#[derive(Debug, PartialEq, Eq, Structural)]
pub enum QuoteError {
    /// The quoted author reference did not resolve in the context.
    AuthorNotFound(RecipientId),
}

/// Validated quote of a prior message: resolved author and the timestamp
/// identifying the quoted message.
///
/// The fields are private, so only a conversion entry point can produce a
/// value.
#[derive(Debug, PartialEq)]
#[verifier::ext_equal]
pub struct Quote<R> {
    author: R,
    target_sent_timestamp: u64,
}

impl<R> Quote<R> {
    /// The resolved author of the quoted message.
    pub closed spec fn spec_author(&self) -> R {
        self.author
    }

    /// When the quoted message was sent.
    pub closed spec fn spec_target_sent_timestamp(&self) -> u64 {
        self.target_sent_timestamp
    }

    pub fn author(&self) -> (author: &R)
        ensures
            *author == self.spec_author(),
    {
        &self.author
    }

    pub fn target_sent_timestamp(&self) -> (target_sent_timestamp: u64)
        ensures
            target_sent_timestamp == self.spec_target_sent_timestamp(),
    {
        self.target_sent_timestamp
    }
}

/// A raw quote is acceptable: its author resolves in the context.
pub open spec fn quote_valid<R, C: Lookup<RecipientId, R>>(
    item: proto::Quote,
    context: C,
) -> bool {
    context.spec_lookup(RecipientId(item.author_id)) is Some
}

/// The error an unacceptable raw quote is rejected with.
pub open spec fn quote_err<R, C: Lookup<RecipientId, R>>(
    item: proto::Quote,
    context: C,
) -> QuoteError {
    QuoteError::AuthorNotFound(RecipientId(item.author_id))
}

/// The validated quote carries the raw timestamp unchanged and the author
/// the context resolved the raw identifier to.
pub open spec fn quote_matches<R, C: Lookup<RecipientId, R>>(
    item: proto::Quote,
    context: C,
    validated: Quote<R>,
) -> bool {
    &&& Some(validated.spec_author()) == context.spec_lookup(RecipientId(item.author_id))
    &&& validated.spec_target_sent_timestamp() == item.target_sent_timestamp
}

/// Exact outcome of converting one raw quote.
pub open spec fn quote_converts_to<R, C: Lookup<RecipientId, R>>(
    item: proto::Quote,
    context: C,
    outcome: Result<Quote<R>, QuoteError>,
) -> bool {
    match outcome {
        Ok(validated) => quote_valid::<R, C>(item, context) && quote_matches(
            item,
            context,
            validated,
        ),
        Err(e) => !quote_valid::<R, C>(item, context) && e == quote_err::<R, C>(item, context),
    }
}

/// Two validated quotes with the same author and target timestamp are the
/// same value.
pub proof fn lemma_quote_eq<R>(a: Quote<R>, b: Quote<R>)
    requires
        a.spec_author() == b.spec_author(),
        a.spec_target_sent_timestamp() == b.spec_target_sent_timestamp(),
    ensures
        a == b,
{
    assert(a =~= b);
}

impl<R, C: Lookup<RecipientId, R>> TryFromWith<proto::Quote, C> for Quote<R> {
    type Error = QuoteError;

    open spec fn conversion_spec(
        item: proto::Quote,
        context: C,
        outcome: Result<Quote<R>, QuoteError>,
    ) -> bool {
        quote_converts_to(item, context, outcome)
    }

    fn try_from_with(item: proto::Quote, context: &C) -> (outcome: Result<Quote<R>, QuoteError>) {
        let proto::Quote { author_id, target_sent_timestamp } = item;
        match context.lookup(&RecipientId(author_id)) {
            Some(author) => Ok(Quote { author, target_sent_timestamp }),
            None => Err(QuoteError::AuthorNotFound(RecipientId(author_id))),
        }
    }
}

} // verus!
