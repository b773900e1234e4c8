//! Logically singleton per-thread and per-process values shared across
//! independently compiled images.
//!
//! The heart of the crate is a pair of registries owned by the host image:
//! one per thread for thread-local values, one per process for statics.
//! Each [`Registry`] maps a stable string [`Identifier`] to a lazily
//! initialized value, first access per identifier winning, entries only ever
//! appended until an explicit [`reset`].  A [`LocalKey`] is the
//! per-declaration descriptor pairing an identifier with its initializer;
//! its `with` method is the only way a stored value is observed.  The
//! boundary contract ([`Context`]) carries the host's two accessors into a
//! consuming image as a pair of opaque handles held in install-once
//! [`Slots`]; the laws exported beside [`Registry`] state the storage
//! guarantees — independence of distinct identifiers, idempotence of
//! repeated access, a single winner under racing first accesses — over its
//! map model.

mod context;
mod identifier;
mod key;
mod registry;

pub use context::Context;
pub use context::Slots;
pub use identifier::Identifier;
pub use key::LocalKey;
pub use registry::Registry;
pub use registry::get_or_init_map;
pub use registry::get_or_init_seq;
pub use registry::lemma_distinct_keys_independent;
pub use registry::lemma_first_init_wins;
pub use registry::lemma_fresh_access_runs_initializer;
pub use registry::lemma_repeated_access_idempotent;
pub use registry::lemma_slot_stable;
pub use registry::reset;
pub use registry::run_accesses;
pub use registry::seq_has_key;
pub use registry::seq_to_map;
pub use registry::unique_keys;
