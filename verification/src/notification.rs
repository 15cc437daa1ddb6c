//! The notification dispatcher: whom a published link is announced to, and
//! what becomes of the outcome of a delivery.

use vstd::prelude::*;
use crate::error::PipelineError;
use crate::ids::CommunityVisibility;

verus! {

/// An announcement to the site behind `target` that `source` links to it.
#[derive(Clone, Debug, PartialEq, Eq)]
pub struct Notification {
    /// The address of the post.
    pub source: String,
    /// The link that the post carries.
    pub target: String,
    /// Whether the source is already known to link to the target, so that
    /// the sender need not fetch the source to check.
    pub checked: bool,
}

/// A notification as characters.
pub struct NotificationView {
    pub source: Seq<char>,
    pub target: Seq<char>,
    pub checked: bool,
}

impl View for Notification {
    type V = NotificationView;

    open spec fn view(&self) -> NotificationView {
        NotificationView { source: self.source@, target: self.target@, checked: self.checked }
    }
}

/// How an attempt to deliver a notification ended.
#[derive(Clone, Copy, Debug, PartialEq, Eq, Structural)]
pub enum Delivery {
    /// The target's endpoint took the request.
    Delivered,
    /// The target announces no endpoint: it does not take notifications.
    NoEndpointDiscovered,
    /// Anything else went wrong.
    Failed,
}

/// A post is announced when it carries a link and its community is public.
pub open spec fn should_notify(url: Option<Seq<char>>, visibility: CommunityVisibility) -> bool {
    url is Some && visibility == CommunityVisibility::Public
}

/// The announcement of a post at `ap_id` that carries the link `url`. It is
/// marked as checked: the post is known to carry the link.
pub open spec fn announcement(ap_id: Seq<char>, url: Seq<char>) -> NotificationView {
    NotificationView { source: ap_id, target: url, checked: true }
}

/// What is logged of a delivery. A target without an endpoint is no
/// failure; any other failure is logged and goes no further.
pub open spec fn spec_delivery_verdict(delivery: Delivery) -> Result<(), PipelineError> {
    match delivery {
        Delivery::Delivered => Ok(()),
        Delivery::NoEndpointDiscovered => Ok(()),
        Delivery::Failed => Err(PipelineError::NotificationFailed),
    }
}

impl Notification {
    /// The announcement of a post at `ap_id` that carries the link `url`.
    pub fn for_post(ap_id: String, url: String) -> (r: Notification)
        ensures
            r@ == announcement(ap_id@, url@),
    {
        Notification { source: ap_id, target: url, checked: true }
    }
}

/// What is logged of a delivery: see [`spec_delivery_verdict`]. The error
/// is of the kind that is never reported to the author of the post.
pub fn delivery_verdict(delivery: Delivery) -> (r: Result<(), PipelineError>)
    ensures
        r == spec_delivery_verdict(delivery),
        r matches Err(e) ==> !e.is_reported(),
{
    match delivery {
        Delivery::Delivered => Ok(()),
        Delivery::NoEndpointDiscovered => Ok(()),
        Delivery::Failed => Err(PipelineError::NotificationFailed),
    }
}

} // verus!
