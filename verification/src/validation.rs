//! The validator chain: the rules a request has to meet before anything is
//! stored, tried in a fixed order, the first broken rule deciding.

use vstd::prelude::*;
use crate::error::PipelineError;
use crate::post::{CreatePost, CreatePostView, Limits, Settings, SettingsView};
use crate::text::{
    chars_of,
    contains_any,
    matches_any,
    opt_view,
    trim,
    trim_bounds,
    trimmed,
    views,
};

verus! {

/// What `url::Url::parse` makes of a text: the URL in its normal form, or
/// nothing where the text is no absolute URL.
pub uninterp spec fn parsed_url(raw: Seq<char>) -> Option<Seq<char>>;

/// Parses `raw` with `url::Url::parse` and hands back the serialization of
/// the URL, or nothing where the parser refuses the text. The contract
/// names that result and says nothing more of it.
#[verifier::external_body]
pub(crate) fn parse_url(raw: &str) -> (r: Option<String>)
    ensures
        opt_view(r) == parsed_url(raw@),
{
    match url::Url::parse(raw) {
        Ok(url) => Some(String::from(url)),
        Err(_) => None,
    }
}

/// The parts of a request that validation has rewritten.
#[derive(Clone, Debug, PartialEq, Eq)]
pub struct ValidatedContent {
    /// The title without surrounding whitespace.
    pub name: String,
    /// The link in its normal form.
    pub url: Option<String>,
    /// The thumbnail link in its normal form.
    pub custom_thumbnail: Option<String>,
}

/// Validated content as characters.
pub struct ValidatedContentView {
    pub name: Seq<char>,
    pub url: Option<Seq<char>>,
    pub custom_thumbnail: Option<Seq<char>>,
}

impl View for ValidatedContent {
    type V = ValidatedContentView;

    open spec fn view(&self) -> ValidatedContentView {
        ValidatedContentView {
            name: self.name@,
            url: opt_view(self.url),
            custom_thumbnail: opt_view(self.custom_thumbnail),
        }
    }
}

/// The view of the outcome of content validation.
pub open spec fn verdict_view(r: Result<ValidatedContent, PipelineError>) -> Result<
    ValidatedContentView,
    PipelineError,
> {
    match r {
        Ok(c) => Ok(c@),
        Err(e) => Err(e),
    }
}

/// The view of the outcome of screening one link.
pub open spec fn link_view(r: Result<String, PipelineError>) -> Result<Seq<char>, PipelineError> {
    match r {
        Ok(u) => Ok(u@),
        Err(e) => Err(e),
    }
}

/// The view of a link field after parsing: no link, a text that is no URL,
/// or a URL.
pub open spec fn field_view(field: Option<Option<String>>) -> Option<Option<Seq<char>>> {
    match field {
        Some(parsed) => Some(opt_view(parsed)),
        None => None,
    }
}

/// A link field of a request, parsed where there is one.
pub open spec fn parsed_field(field: Option<Seq<char>>) -> Option<Option<Seq<char>>> {
    match field {
        Some(raw) => Some(parsed_url(raw)),
        None => None,
    }
}

/// The hidden field holds something.
pub open spec fn honeypot_tripped(honeypot: Option<Seq<char>>) -> bool {
    honeypot matches Some(h) && h.len() > 0
}

/// The title, surrounding whitespace not counted, is not empty and within
/// the bounds.
pub open spec fn title_ok(title: Seq<char>, limits: Limits) -> bool {
    let n = trimmed(title).len();
    1 <= n && limits.title_min <= n <= limits.title_max
}

/// The verdict on a link: a text that is no URL is invalid, a URL that
/// contains a blocklisted text is blocked, any other URL passes in its
/// normal form.
pub open spec fn url_verdict(parsed: Option<Seq<char>>, blocklist: Seq<Seq<char>>) -> Result<
    Seq<char>,
    PipelineError,
> {
    match parsed {
        None => Err(PipelineError::InvalidUrl),
        Some(u) => if matches_any(u, blocklist) {
            Err(PipelineError::BlockedUrl)
        } else {
            Ok(u)
        },
    }
}

/// The verdict on a request before its body is normalized: the hidden
/// field first, then the denied terms.
pub open spec fn submission_verdict(request: CreatePostView, settings: SettingsView) -> Result<
    (),
    PipelineError,
> {
    if honeypot_tripped(request.honeypot) {
        Err(PipelineError::SpamRejected)
    } else if matches_any(request.name, settings.slur_denylist) {
        Err(PipelineError::DisallowedContent)
    } else {
        Ok(())
    }
}

/// The verdict on a request once its body is normalized and its links are
/// parsed: title, link, thumbnail link, alternative text and body, in this
/// order, the first broken rule deciding.
pub open spec fn content_verdict(
    request: CreatePostView,
    body: Option<Seq<char>>,
    url: Option<Option<Seq<char>>>,
    custom_thumbnail: Option<Option<Seq<char>>>,
    settings: SettingsView,
) -> Result<ValidatedContentView, PipelineError> {
    if !title_ok(request.name, settings.limits) {
        Err(PipelineError::InvalidTitle)
    } else if url matches Some(parsed) && url_verdict(parsed, settings.url_blocklist) is Err {
        Err(url_verdict(url->0, settings.url_blocklist)->Err_0)
    } else if custom_thumbnail matches Some(parsed) && parsed is None {
        Err(PipelineError::InvalidUrl)
    } else if request.alt_text matches Some(alt) && alt.len() > settings.limits.alt_text_max {
        Err(PipelineError::AltTextTooLong)
    } else if body matches Some(b) && b.len() > settings.limits.body_max {
        Err(PipelineError::BodyTooLong)
    } else {
        Ok(
            ValidatedContentView {
                name: trimmed(request.name),
                url: match url {
                    Some(parsed) => parsed,
                    None => None,
                },
                custom_thumbnail: match custom_thumbnail {
                    Some(parsed) => parsed,
                    None => None,
                },
            },
        )
    }
}

/// The verdict on a request once its body is normalized, its links parsed
/// as `Url::parse` parses them.
pub open spec fn parsed_content_verdict(
    request: CreatePostView,
    body: Option<Seq<char>>,
    settings: SettingsView,
) -> Result<ValidatedContentView, PipelineError> {
    content_verdict(
        request,
        body,
        parsed_field(request.url),
        parsed_field(request.custom_thumbnail),
        settings,
    )
}

/// Refuses a request whose hidden field holds anything.
pub fn honeypot_check(honeypot: &Option<String>) -> (r: Result<(), PipelineError>)
    ensures
        r == if honeypot_tripped(opt_view(*honeypot)) {
            Err::<(), PipelineError>(PipelineError::SpamRejected)
        } else {
            Ok(())
        },
{
    match honeypot {
        Some(h) => {
            if h.as_str().is_empty() {
                Ok(())
            } else {
                Err(PipelineError::SpamRejected)
            }
        },
        None => Ok(()),
    }
}

/// Refuses a text that contains a denied term.
pub fn check_slurs(text: &str, denylist: &Vec<String>) -> (r: Result<(), PipelineError>)
    ensures
        r == if matches_any(text@, views(denylist@)) {
            Err::<(), PipelineError>(PipelineError::DisallowedContent)
        } else {
            Ok(())
        },
{
    if contains_any(text, denylist) {
        Err(PipelineError::DisallowedContent)
    } else {
        Ok(())
    }
}

/// Refuses a title that is empty or outside the bounds once surrounding
/// whitespace is taken off.
pub fn is_valid_post_title(title: &str, limits: &Limits) -> (r: Result<(), PipelineError>)
    ensures
        r == if title_ok(title@, *limits) {
            Ok::<(), PipelineError>(())
        } else {
            Err(PipelineError::InvalidTitle)
        },
{
    let chars = chars_of(title);
    let (a, b) = trim_bounds(&chars);
    let n: usize = b - a;
    if 1 <= n && limits.title_min <= n && n <= limits.title_max {
        Ok(())
    } else {
        Err(PipelineError::InvalidTitle)
    }
}

/// Refuses a URL that contains a blocklisted text.
pub fn is_url_blocked(url: &str, blocklist: &Vec<String>) -> (r: Result<(), PipelineError>)
    ensures
        r == if matches_any(url@, views(blocklist@)) {
            Err::<(), PipelineError>(PipelineError::BlockedUrl)
        } else {
            Ok(())
        },
{
    if contains_any(url, blocklist) {
        Err(PipelineError::BlockedUrl)
    } else {
        Ok(())
    }
}

/// The verdict on a link that has been parsed: see [`url_verdict`].
pub fn screen_url(parsed: Option<String>, blocklist: &Vec<String>) -> (r: Result<
    String,
    PipelineError,
>)
    ensures
        link_view(r) == url_verdict(opt_view(parsed), views(blocklist@)),
{
    match parsed {
        None => Err(PipelineError::InvalidUrl),
        Some(url) => match is_url_blocked(url.as_str(), blocklist) {
            Err(e) => Err(e),
            Ok(()) => Ok(url),
        },
    }
}

/// Parses a link and screens it against the blocklist.
pub fn check_url(raw: &str, blocklist: &Vec<String>) -> (r: Result<String, PipelineError>)
    ensures
        link_view(r) == url_verdict(parsed_url(raw@), views(blocklist@)),
{
    screen_url(parse_url(raw), blocklist)
}

/// Refuses an alternative text with more characters than allowed.
pub fn is_valid_alt_text_field(alt_text: &str, limits: &Limits) -> (r: Result<(), PipelineError>)
    ensures
        r == if alt_text@.len() > limits.alt_text_max {
            Err::<(), PipelineError>(PipelineError::AltTextTooLong)
        } else {
            Ok(())
        },
{
    if alt_text.unicode_len() > limits.alt_text_max {
        Err(PipelineError::AltTextTooLong)
    } else {
        Ok(())
    }
}

/// Refuses a body with more characters than a post may have.
pub fn is_valid_body_field(body: &str, limits: &Limits) -> (r: Result<(), PipelineError>)
    ensures
        r == if body@.len() > limits.body_max {
            Err::<(), PipelineError>(PipelineError::BodyTooLong)
        } else {
            Ok(())
        },
{
    if body.unicode_len() > limits.body_max {
        Err(PipelineError::BodyTooLong)
    } else {
        Ok(())
    }
}

/// The first part of the chain, which runs before the body is normalized.
pub fn validate_submission(request: &CreatePost, settings: &Settings) -> (r: Result<
    (),
    PipelineError,
>)
    ensures
        r == submission_verdict(request@, settings@),
{
    match honeypot_check(&request.honeypot) {
        Err(e) => {
            return Err(e);
        },
        Ok(()) => {},
    }
    check_slurs(request.name.as_str(), &settings.slur_denylist)
}

/// The second part of the chain, on a request whose links have been parsed:
/// `url` and `custom_thumbnail` hold, for a link that the request has, what
/// the parser made of it.
pub fn validate_with_urls(
    request: &CreatePost,
    body: &Option<String>,
    url: Option<Option<String>>,
    custom_thumbnail: Option<Option<String>>,
    settings: &Settings,
) -> (r: Result<ValidatedContent, PipelineError>)
    ensures
        verdict_view(r) == content_verdict(
            request@,
            opt_view(*body),
            field_view(url),
            field_view(custom_thumbnail),
            settings@,
        ),
{
    match is_valid_post_title(request.name.as_str(), &settings.limits) {
        Err(e) => {
            return Err(e);
        },
        Ok(()) => {},
    }
    let url = match url {
        Some(parsed) => match screen_url(parsed, &settings.url_blocklist) {
            Err(e) => {
                return Err(e);
            },
            Ok(u) => Some(u),
        },
        None => None,
    };
    let custom_thumbnail = match custom_thumbnail {
        Some(None) => {
            return Err(PipelineError::InvalidUrl);
        },
        Some(Some(u)) => Some(u),
        None => None,
    };
    match &request.alt_text {
        Some(alt_text) => match is_valid_alt_text_field(alt_text.as_str(), &settings.limits) {
            Err(e) => {
                return Err(e);
            },
            Ok(()) => {},
        },
        None => {},
    }
    match body {
        Some(body) => match is_valid_body_field(body.as_str(), &settings.limits) {
            Err(e) => {
                return Err(e);
            },
            Ok(()) => {},
        },
        None => {},
    }
    let name = trim(request.name.as_str()).to_owned();
    Ok(ValidatedContent { name, url, custom_thumbnail })
}

/// The second part of the chain, which runs on the normalized body: it
/// parses the links of the request and validates title, links, alternative
/// text and body.
pub fn validate_content(request: &CreatePost, body: &Option<String>, settings: &Settings) -> (r:
    Result<ValidatedContent, PipelineError>)
    ensures
        verdict_view(r) == parsed_content_verdict(request@, opt_view(*body), settings@),
{
    let url = match &request.url {
        Some(raw) => Some(parse_url(raw.as_str())),
        None => None,
    };
    let custom_thumbnail = match &request.custom_thumbnail {
        Some(raw) => Some(parse_url(raw.as_str())),
        None => None,
    };
    validate_with_urls(request, body, url, custom_thumbnail, settings)
}

} // verus!
