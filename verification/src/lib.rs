//! A replicated task-list document: an ordered, mergeable sequence of task
//! records kept in an externally supplied conflict-free replicated sequence,
//! together with the codec between task records and the structured values the
//! sequence stores, the CRUD operations over it, and the state-based
//! synchronization surface.

pub mod codec;
pub mod doc;
pub mod laws;
pub mod model;
pub mod store;

use vstd::prelude::*;

verus! {

/// An injectable logging sink accepting severity, tag and message. Logging is
/// best-effort: the document never requires a sink to be present, and its
/// absence changes no behaviour.
pub trait Logger: Send + Sync {
    fn log(&self, level: i32, tag: String, msg: String);
}

} // verus!
