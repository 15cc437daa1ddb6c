//! Identities of the records that the pipeline speaks of, and the parties
//! to a publication: the acting account and the community posted to.

use vstd::prelude::*;

verus! {

/// Identity of a community.
#[derive(Clone, Copy, Debug, PartialEq, Eq, Structural)]
pub struct CommunityId(pub i32);

/// Identity of a person, the public side of an account.
#[derive(Clone, Copy, Debug, PartialEq, Eq, Structural)]
pub struct PersonId(pub i32);

/// Identity of a local account.
#[derive(Clone, Copy, Debug, PartialEq, Eq, Structural)]
pub struct LocalUserId(pub i32);

/// Identity of a post.
#[derive(Clone, Copy, Debug, PartialEq, Eq, Structural)]
pub struct PostId(pub i32);

/// Identity of a language.
#[derive(Clone, Copy, Debug, PartialEq, Eq, Structural)]
pub struct LanguageId(pub i32);

/// The authenticated account on whose behalf a post is published.
#[derive(Clone, Copy, Debug, PartialEq, Eq, Structural)]
pub struct Actor {
    pub person_id: PersonId,
    pub local_user_id: LocalUserId,
}

/// Who may see a community.
#[derive(Clone, Copy, Debug, PartialEq, Eq, Structural)]
pub enum CommunityVisibility {
    /// Visible to everyone, other sites included.
    Public,
    /// Visible only within the site.
    Restricted,
}

/// What the pipeline reads of a community.
#[derive(Clone, Copy, Debug, PartialEq, Eq, Structural)]
pub struct Community {
    pub id: CommunityId,
    pub visibility: CommunityVisibility,
    pub posting_restricted_to_mods: bool,
}

} // verus!
