//! Resolution and fallback policy for locally cached GGUF model weights.
//!
//! Two ecosystems keep model weights on disk: a serving engine with its own
//! cache, and a registry daemon with a store of content-addressed blobs. This
//! crate decides, for a model token typed by a user, where a matching weight
//! file may live, under which name it is linked, and which backend is started
//! on it, or instead of it where there is none.
//!
//! The crate never reads a file and never starts a process. Its callers
//! report what they saw and carry out what it decides:
//!
//! - [`paths`] places the caches and joins paths; [`token`] splits model
//!   tokens; [`sniff`] tells a weight file by its first bytes.
//! - [`scan`] and [`manifest`] pick weight files out of what was seen of the
//!   caches and out of a registry manifest; [`lookup`] resolves bare names.
//! - [`link`] is the link materializer and [`selector`] the backend selector,
//!   both as step functions from what is known to what is wanted next.
//! - [`command`] turns the selector's outcome into a program and its
//!   arguments; [`locate`] filters paths by a pattern.

pub mod command;
pub mod link;
pub mod locate;
pub mod lookup;
pub mod manifest;
pub mod paths;
pub mod plan;
pub mod ports;
pub mod prompt;
pub mod scan;
pub mod selector;
pub mod sniff;
pub mod text;
pub mod token;
