//! Event translation and stream lifecycle for a Darwin file-system watcher.
//!
//! The operating system reports directory changes in bulk, each as a path and
//! a word of hint bits. This library decodes those words, turns them into a
//! platform-neutral event vocabulary, keeps the set of watched paths, and
//! decides when the native stream has to be started, restarted or stopped.
//! It touches no native resource itself: the caller owns the stream and the
//! thread, does what the watcher asks, and hands the notifications in.

pub mod context;
pub mod error;
pub mod event;
pub mod flags;
pub mod handler;
pub mod path;
pub mod registry;
pub mod translate;
pub mod watcher;
