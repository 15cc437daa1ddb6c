//! The ways in which a publication can fail.

use vstd::prelude::*;

verus! {

/// Why a publication failed.
#[derive(Clone, Copy, Debug, PartialEq, Eq, Structural)]
pub enum PipelineError {
    /// The hidden anti-automation field was filled in.
    SpamRejected,
    /// The title contains a denied term.
    DisallowedContent,
    /// The formatter could not normalize the body.
    MalformedContent,
    /// The title is empty or outside the length bounds.
    InvalidTitle,
    /// The link is on the blocklist.
    BlockedUrl,
    /// The link or the thumbnail link is no URL.
    InvalidUrl,
    /// The alternative text is too long.
    AltTextTooLong,
    /// The body is too long.
    BodyTooLong,
    /// The actor is banned from the community.
    ActionBlocked,
    /// Only moderators may post and the actor is none.
    ModsOnlyPosting,
    /// There is no community with the requested identity.
    CommunityNotFound,
    /// The community does not allow the requested language.
    LanguageNotAllowed,
    /// The post could not be stored.
    PersistenceFailed,
    /// The link metadata of the stored post could not be filled in.
    MetadataFailed,
    /// The author's own like or read marker could not be stored.
    SelfEngagementFailed,
    /// The award could not be appended to the trophy case.
    AwardPersistFailed,
    /// The notification could not be delivered; logged, never reported.
    NotificationFailed,
    /// The pipeline was handed an answer to a question it had not asked.
    UnexpectedEvent,
}

/// The class of a failure, which decides how it is treated.
#[derive(Clone, Copy, Debug, PartialEq, Eq, Structural)]
pub enum ErrorKind {
    /// The request is not well formed. Reported; nothing was changed.
    Validation,
    /// The actor may not post here. Reported; nothing was changed.
    Authorization,
    /// The community's policy refuses the post. Reported; nothing was changed.
    Policy,
    /// A record the request names does not exist. Reported; nothing was changed.
    Lookup,
    /// The post could not be stored. Reported; not retried.
    Persistence,
    /// A step after storing the post failed. Reported although the post exists.
    Consistency,
    /// A detached step failed. Logged only.
    BestEffort,
    /// The driver and the pipeline disagree about the state.
    Protocol,
}

impl PipelineError {
    /// The class of this failure.
    pub open spec fn spec_kind(self) -> ErrorKind {
        match self {
            PipelineError::SpamRejected
            | PipelineError::DisallowedContent
            | PipelineError::MalformedContent
            | PipelineError::InvalidTitle
            | PipelineError::BlockedUrl
            | PipelineError::InvalidUrl
            | PipelineError::AltTextTooLong
            | PipelineError::BodyTooLong => ErrorKind::Validation,
            PipelineError::ActionBlocked | PipelineError::ModsOnlyPosting => ErrorKind::Authorization,
            PipelineError::CommunityNotFound => ErrorKind::Lookup,
            PipelineError::LanguageNotAllowed => ErrorKind::Policy,
            PipelineError::PersistenceFailed => ErrorKind::Persistence,
            PipelineError::MetadataFailed
            | PipelineError::SelfEngagementFailed
            | PipelineError::AwardPersistFailed => ErrorKind::Consistency,
            PipelineError::NotificationFailed => ErrorKind::BestEffort,
            PipelineError::UnexpectedEvent => ErrorKind::Protocol,
        }
    }

    /// The class of this failure.
    #[verifier::when_used_as_spec(spec_kind)]
    pub fn kind(self) -> (k: ErrorKind)
        ensures
            k == self.spec_kind(),
    {
        match self {
            PipelineError::SpamRejected
            | PipelineError::DisallowedContent
            | PipelineError::MalformedContent
            | PipelineError::InvalidTitle
            | PipelineError::BlockedUrl
            | PipelineError::InvalidUrl
            | PipelineError::AltTextTooLong
            | PipelineError::BodyTooLong => ErrorKind::Validation,
            PipelineError::ActionBlocked | PipelineError::ModsOnlyPosting => ErrorKind::Authorization,
            PipelineError::CommunityNotFound => ErrorKind::Lookup,
            PipelineError::LanguageNotAllowed => ErrorKind::Policy,
            PipelineError::PersistenceFailed => ErrorKind::Persistence,
            PipelineError::MetadataFailed
            | PipelineError::SelfEngagementFailed
            | PipelineError::AwardPersistFailed => ErrorKind::Consistency,
            PipelineError::NotificationFailed => ErrorKind::BestEffort,
            PipelineError::UnexpectedEvent => ErrorKind::Protocol,
        }
    }

    /// Whether the failure is reported to the caller of the pipeline.
    pub open spec fn spec_is_reported(self) -> bool {
        self.spec_kind() != ErrorKind::BestEffort
    }

    /// Whether the failure is reported to the caller of the pipeline.
    /// Failures of detached steps are logged and nothing more.
    #[verifier::when_used_as_spec(spec_is_reported)]
    pub fn is_reported(self) -> (r: bool)
        ensures
            r == self.spec_is_reported(),
    {
        match self {
            PipelineError::NotificationFailed => false,
            _ => true,
        }
    }
}

} // verus!
