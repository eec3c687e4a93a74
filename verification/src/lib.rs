//! Event-handler registries with automatic, drop-driven unsubscription.
//!
//! A registry is a shared, lock-protected container of handlers. Adding a
//! handler yields a [`HandlerId`]: dropping it removes the handler again,
//! unless [`HandlerId::detach`] disarmed it first. [`Bag`] keeps its handlers
//! across invocations; [`BagOnce`] consumes every registered handler on the
//! first invocation.

mod entries;
mod handler_id;
mod locking;
mod once;
mod regular;

pub use entries::{
    law_dropped_handle_never_fires, law_released_handle_fires, law_removal_is_independent,
    law_second_drain_is_empty, lemma_registered_value_is_stored, Entries,
};
pub use handler_id::HandlerId;
pub use once::BagOnce;
pub use regular::Bag;
