//! The publication of a post, from the request to its last side effect.
//!
//! A request is validated ([`validation`]), the actor's standing and the
//! language are settled, the post is stored, and the side effects follow:
//! link metadata, the author's own like and read marker, a notification to
//! the linked site ([`notification`]) and an award for the title
//! ([`activity`], [`jsonbs`]). The coordinator ([`pipeline`]) is a state
//! machine: it decides, and leaves every lookup, every write and every
//! network call to its driver. What holds of every publication, whatever
//! the driver answers, is proved in [`laws`].

pub mod activity;
pub mod error;
pub mod ids;
pub mod jsonbs;
pub mod laws;
pub mod notification;
pub mod pipeline;
pub mod post;
pub mod script;
pub mod text;
pub mod time;
pub mod validation;
pub mod verify_email;
