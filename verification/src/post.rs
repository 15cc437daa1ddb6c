//! The data of a publication: the request, the site's settings, what is
//! handed to persistence and what comes back from it.

use vstd::prelude::*;
use crate::activity::{TriggerTable, TrophyActivityConfig};
use crate::ids::{CommunityId, LanguageId, PersonId, PostId};
use crate::text::{opt_view, views};
use crate::time::Timestamp;

verus! {

/// A request to publish a post.
#[derive(Clone, Debug, PartialEq, Eq)]
pub struct CreatePost {
    pub name: String,
    pub community_id: CommunityId,
    pub url: Option<String>,
    pub body: Option<String>,
    pub alt_text: Option<String>,
    /// Hidden from people; whoever fills it in is taken for a machine.
    pub honeypot: Option<String>,
    pub nsfw: bool,
    pub language_id: Option<LanguageId>,
    pub custom_thumbnail: Option<String>,
}

/// A request as characters.
pub struct CreatePostView {
    pub name: Seq<char>,
    pub community_id: CommunityId,
    pub url: Option<Seq<char>>,
    pub body: Option<Seq<char>>,
    pub alt_text: Option<Seq<char>>,
    pub honeypot: Option<Seq<char>>,
    pub nsfw: bool,
    pub language_id: Option<LanguageId>,
    pub custom_thumbnail: Option<Seq<char>>,
}

impl View for CreatePost {
    type V = CreatePostView;

    open spec fn view(&self) -> CreatePostView {
        CreatePostView {
            name: self.name@,
            community_id: self.community_id,
            url: opt_view(self.url),
            body: opt_view(self.body),
            alt_text: opt_view(self.alt_text),
            honeypot: opt_view(self.honeypot),
            nsfw: self.nsfw,
            language_id: self.language_id,
            custom_thumbnail: opt_view(self.custom_thumbnail),
        }
    }
}

/// Length bounds, in characters.
#[derive(Clone, Copy, Debug, PartialEq, Eq, Structural)]
pub struct Limits {
    /// Fewest characters of a title, surrounding whitespace not counted.
    pub title_min: usize,
    /// Most characters of a title, surrounding whitespace not counted.
    pub title_max: usize,
    /// Most characters of an alternative text.
    pub alt_text_max: usize,
    /// Most characters of the body of a post.
    pub body_max: usize,
}

/// The site's settings as they stand when a request arrives.
#[derive(Clone, Debug, PartialEq, Eq)]
pub struct Settings {
    pub limits: Limits,
    /// Terms that no title may contain.
    pub slur_denylist: Vec<String>,
    /// Texts that no link may contain.
    pub url_blocklist: Vec<String>,
    /// The trigger table of the achievements, where the site has one.
    pub trophy_activity: Option<TrophyActivityConfig>,
}

/// Settings as characters.
pub struct SettingsView {
    pub limits: Limits,
    pub slur_denylist: Seq<Seq<char>>,
    pub url_blocklist: Seq<Seq<char>>,
    pub trophy_activity: Option<TriggerTable>,
}

/// The view of an optional trigger table.
pub open spec fn opt_table_view(config: Option<TrophyActivityConfig>) -> Option<TriggerTable> {
    match config {
        Some(c) => Some(c@),
        None => None,
    }
}

impl View for Settings {
    type V = SettingsView;

    open spec fn view(&self) -> SettingsView {
        SettingsView {
            limits: self.limits,
            slur_denylist: views(self.slur_denylist@),
            url_blocklist: views(self.url_blocklist@),
            trophy_activity: opt_table_view(self.trophy_activity),
        }
    }
}

/// What is handed to persistence to store a post.
#[derive(Debug, PartialEq, Eq)]
pub struct PostInsertForm {
    pub name: String,
    pub url: Option<String>,
    pub body: Option<String>,
    pub alt_text: Option<String>,
    pub community_id: CommunityId,
    pub creator_id: PersonId,
    pub nsfw: bool,
    pub language_id: Option<LanguageId>,
}

/// An insert form as characters.
pub struct PostInsertFormView {
    pub name: Seq<char>,
    pub url: Option<Seq<char>>,
    pub body: Option<Seq<char>>,
    pub alt_text: Option<Seq<char>>,
    pub community_id: CommunityId,
    pub creator_id: PersonId,
    pub nsfw: bool,
    pub language_id: Option<LanguageId>,
}

impl View for PostInsertForm {
    type V = PostInsertFormView;

    open spec fn view(&self) -> PostInsertFormView {
        PostInsertFormView {
            name: self.name@,
            url: opt_view(self.url),
            body: opt_view(self.body),
            alt_text: opt_view(self.alt_text),
            community_id: self.community_id,
            creator_id: self.creator_id,
            nsfw: self.nsfw,
            language_id: self.language_id,
        }
    }
}

/// A stored post.
#[derive(Clone, Debug, PartialEq, Eq)]
pub struct Post {
    pub id: PostId,
    pub name: String,
    pub url: Option<String>,
    pub body: Option<String>,
    pub alt_text: Option<String>,
    pub thumbnail_url: Option<String>,
    pub community_id: CommunityId,
    pub creator_id: PersonId,
    pub nsfw: bool,
    pub language_id: Option<LanguageId>,
    pub published: Timestamp,
    /// The address under which the post is known to other sites.
    pub ap_id: String,
}

/// A stored post as characters.
pub struct PostView {
    pub id: PostId,
    pub name: Seq<char>,
    pub url: Option<Seq<char>>,
    pub body: Option<Seq<char>>,
    pub alt_text: Option<Seq<char>>,
    pub thumbnail_url: Option<Seq<char>>,
    pub community_id: CommunityId,
    pub creator_id: PersonId,
    pub nsfw: bool,
    pub language_id: Option<LanguageId>,
    pub published: Timestamp,
    pub ap_id: Seq<char>,
}

impl View for Post {
    type V = PostView;

    open spec fn view(&self) -> PostView {
        PostView {
            id: self.id,
            name: self.name@,
            url: opt_view(self.url),
            body: opt_view(self.body),
            alt_text: opt_view(self.alt_text),
            thumbnail_url: opt_view(self.thumbnail_url),
            community_id: self.community_id,
            creator_id: self.creator_id,
            nsfw: self.nsfw,
            language_id: self.language_id,
            published: self.published,
            ap_id: self.ap_id@,
        }
    }
}

/// A scored reaction of a person to a post.
#[derive(Clone, Copy, Debug, PartialEq, Eq, Structural)]
pub struct PostLikeForm {
    pub post_id: PostId,
    pub person_id: PersonId,
    pub score: i16,
}

/// A copy of an optional string.
pub fn clone_opt(s: &Option<String>) -> (r: Option<String>)
    ensures
        r == *s,
{
    match s {
        Some(s) => Some(s.clone()),
        None => None,
    }
}

impl Clone for PostInsertForm {
    /// A copy of the form, field by field.
    fn clone(&self) -> (r: PostInsertForm)
        ensures
            r == *self,
    {
        PostInsertForm {
            name: self.name.clone(),
            url: clone_opt(&self.url),
            body: clone_opt(&self.body),
            alt_text: clone_opt(&self.alt_text),
            community_id: self.community_id,
            creator_id: self.creator_id,
            nsfw: self.nsfw,
            language_id: self.language_id,
        }
    }
}

} // verus!
