//! The core of a podcast browser for the terminal: it loads a list of
//! podcasts from a subscription document, lets the user choose a podcast and
//! then an episode of its feed, and collects the links of the episode's show
//! notes for opening.
//!
//! The library reads no file, fetches nothing and never touches the terminal.
//! Its two state machines, [`selector::Selector`] for one selection and
//! [`session::Session`] for a whole run, name the step to take next; the
//! program around them takes it and reports what came of it. What the
//! machines do is stated over their views, and [`laws`] holds what follows for
//! every run: that a selection stays within its list, that the highlight
//! wraps around, that the terminal is released before anything else happens,
//! and that every link is tried whatever became of the one before.
//!
//! Three documents are read by other crates: the subscription list by `opml`
//! ([`subscription`]), the feed by `rss` ([`feed`]) and the show notes by
//! `select` ([`links`]). What those crates make of a text is given a name and
//! taken on trust; what becomes of their results is proved.

pub mod catalog;
pub mod fault;
pub mod feed;
pub mod laws;
pub mod links;
pub mod selector;
pub mod session;
pub mod subscription;
pub mod text;

pub use catalog::{Episode, Podcast};
