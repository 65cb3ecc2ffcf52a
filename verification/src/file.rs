//! Message-attachment sub-entity validator.

use vstd::prelude::*;

use crate::proto;

verus! {

/// Why an attachment was rejected.
#[derive(Debug, PartialEq, Eq, Structural)]
pub enum MessageAttachmentError {
    /// The content reference was absent.
    NoFilePointer,
}

/// Validated attachment: a present content reference plus its role flag.
///
/// The fields are private, so only a conversion entry point can produce a
/// value.
#[derive(Debug, PartialEq)]
#[verifier::ext_equal]
pub struct MessageAttachment {
    pointer: proto::FilePointer,
    flag: proto::Flag,
}

impl MessageAttachment {
    /// The content reference.
    pub closed spec fn spec_pointer(&self) -> proto::FilePointer {
        self.pointer
    }

    /// The attachment's semantic role.
    pub closed spec fn spec_flag(&self) -> proto::Flag {
        self.flag
    }

    pub fn pointer(&self) -> (pointer: &proto::FilePointer)
        ensures
            *pointer == self.spec_pointer(),
    {
        &self.pointer
    }

    pub fn flag(&self) -> (flag: proto::Flag)
        ensures
            flag == self.spec_flag(),
    {
        self.flag
    }
}

/// A raw attachment is acceptable: it carries a content reference.
pub open spec fn attachment_valid(item: proto::MessageAttachment) -> bool {
    item.pointer is Some
}

/// The error an unacceptable raw attachment is rejected with.
pub open spec fn attachment_err(item: proto::MessageAttachment) -> MessageAttachmentError {
    MessageAttachmentError::NoFilePointer
}

/// The validated attachment carries the raw content reference and role
/// flag unchanged.
pub open spec fn attachment_matches(
    item: proto::MessageAttachment,
    validated: MessageAttachment,
) -> bool {
    &&& Some(validated.spec_pointer()) == item.pointer
    &&& validated.spec_flag() == item.flag
}

/// Exact outcome of converting one raw attachment.
pub open spec fn attachment_converts_to(
    item: proto::MessageAttachment,
    outcome: Result<MessageAttachment, MessageAttachmentError>,
) -> bool {
    match outcome {
        Ok(validated) => attachment_valid(item) && attachment_matches(item, validated),
        Err(e) => !attachment_valid(item) && e == attachment_err(item),
    }
}

/// Two validated attachments with the same content reference and role
/// flag are the same value.
pub proof fn lemma_attachment_eq(a: MessageAttachment, b: MessageAttachment)
    requires
        a.spec_pointer() == b.spec_pointer(),
        a.spec_flag() == b.spec_flag(),
    ensures
        a == b,
{
    assert(a =~= b);
}

impl MessageAttachment {
    /// Converts one raw attachment; needs no resolution context.
    pub fn try_from_proto(item: proto::MessageAttachment) -> (outcome: Result<
        MessageAttachment,
        MessageAttachmentError,
    >)
        ensures
            attachment_converts_to(item, outcome),
    {
        let proto::MessageAttachment { pointer, flag } = item;
        match pointer {
            Some(pointer) => Ok(MessageAttachment { pointer, flag }),
            None => Err(MessageAttachmentError::NoFilePointer),
        }
    }
}

} // verus!
