//! Error kinds reported by the feed.

use vstd::prelude::*;
use vstd::std_specs::convert::FromSpecImpl;

verus! {

/// Rule violations specific to the feed. Each kind has a stable numeric code
/// under which a host reports it.
#[derive(Clone, Copy, Debug, PartialEq, Eq, Structural)]
pub enum MessageFeedError {
    /// The posting user has been banned.
    BannedUser,
    /// The message that was to be linked onto already has a successor.
    NextMessageExists,
    /// The user is bound to another chain than the one the message belongs to.
    CreatorMismatch,
}

impl MessageFeedError {
    /// The numeric code of this kind: its position in the declaration.
    pub open spec fn spec_code(self) -> u32 {
        match self {
            MessageFeedError::BannedUser => 0,
            MessageFeedError::NextMessageExists => 1,
            MessageFeedError::CreatorMismatch => 2,
        }
    }

    /// The kind that a numeric code stands for, if any.
    pub open spec fn spec_from_code(code: u32) -> Option<MessageFeedError> {
        if code == 0 {
            Some(MessageFeedError::BannedUser)
        } else if code == 1 {
            Some(MessageFeedError::NextMessageExists)
        } else if code == 2 {
            Some(MessageFeedError::CreatorMismatch)
        } else {
            None
        }
    }

    /// Returns the numeric code of this kind.
    #[verifier::when_used_as_spec(spec_code)]
    pub fn code(self) -> (c: u32)
        ensures
            c == self.spec_code(),
    {
        match self {
            MessageFeedError::BannedUser => 0,
            MessageFeedError::NextMessageExists => 1,
            MessageFeedError::CreatorMismatch => 2,
        }
    }

    /// Decodes a numeric code; `None` for a code that no kind has.
    pub fn from_code(code: u32) -> (kind: Option<MessageFeedError>)
        ensures
            kind == Self::spec_from_code(code),
    {
        if code == 0 {
            Some(MessageFeedError::BannedUser)
        } else if code == 1 {
            Some(MessageFeedError::NextMessageExists)
        } else if code == 2 {
            Some(MessageFeedError::CreatorMismatch)
        } else {
            None
        }
    }

    /// Returns the text that describes this kind to a reader.
    pub fn message(self) -> (text: &'static str)
        ensures
            self == MessageFeedError::BannedUser ==> text@ == "User is banned"@,
            self == MessageFeedError::NextMessageExists ==> text@ == "Next message already exists"@,
            self == MessageFeedError::CreatorMismatch ==> text@ == "Creator mismatch"@,
    {
        match self {
            MessageFeedError::BannedUser => "User is banned",
            MessageFeedError::NextMessageExists => "Next message already exists",
            MessageFeedError::CreatorMismatch => "Creator mismatch",
        }
    }

    /// Returns the name under which a host labels codes of this type.
    pub fn type_of() -> (name: &'static str)
        ensures
            name@ == "MessageFeedError"@,
    {
        "MessageFeedError"
    }

    /// Decoding undoes encoding, and a code that decodes encodes back to
    /// itself.
    pub proof fn law_code_round_trip(kind: MessageFeedError, code: u32)
        ensures
            Self::spec_from_code(kind.spec_code()) == Some(kind),
            Self::spec_from_code(code) matches Some(k) ==> k.spec_code() == code,
            Self::spec_from_code(code) is Some <==> code < 3,
    {
    }
}

/// Why an instruction was rejected.
#[derive(Clone, Copy, Debug, PartialEq, Eq, Structural)]
pub enum InstructionError {
    /// Fewer slots were supplied than the instruction needs.
    MissingAccount,
    /// A required slot is not authorized by the identity that controls it.
    MissingAuthorization,
    /// The payload is not valid UTF-8; `valid_up_to` is the offset of the
    /// first byte that is not part of valid text.
    InvalidPayload { valid_up_to: usize },
    /// A rule of the feed was violated.
    Feed(MessageFeedError),
}

impl From<MessageFeedError> for InstructionError {
    fn from(kind: MessageFeedError) -> (e: InstructionError) {
        InstructionError::Feed(kind)
    }
}

impl FromSpecImpl<MessageFeedError> for InstructionError {
    open spec fn obeys_from_spec() -> bool {
        true
    }

    open spec fn from_spec(kind: MessageFeedError) -> InstructionError {
        InstructionError::Feed(kind)
    }
}

} // verus!
