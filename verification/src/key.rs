//! The per-declaration key descriptor and the value access path.

use vstd::prelude::*;
use crate::identifier::Identifier;
use crate::registry::Registry;
use crate::registry::get_or_init_map;
use crate::registry::get_or_init_seq;

verus! {

/// A key into cross-image storage: the descriptor a declaration builds once,
/// at load time, pairing the declaration's stable identifier with its
/// zero-argument initializer.  The value type it yields is a compile-time
/// contract, fixed by the initializer's return type.
pub struct LocalKey<F> {
    id: Identifier,
    init: F,
}

impl<F> LocalKey<F> {
    /// The identifier string this key stores values under.
    pub closed spec fn id_view(self) -> Seq<char> {
        self.id@
    }

    /// The key's initializer.
    pub closed spec fn initializer(self) -> F {
        self.init
    }

    /// Builds the descriptor for one declaration.
    pub fn new(id: Identifier, init: F) -> (k: Self)
        ensures
            k.id_view() == id@,
            k.initializer() == init,
    {
        LocalKey { id, init }
    }

    /// Acquires a reference to this key's value in the given registry and
    /// hands it to `f`, returning `f`'s result.
    ///
    /// On the first access for this identifier the initializer runs and its
    /// value is stored; on every later access the stored value is returned
    /// untouched and the initializer is never re-invoked.  This is the only
    /// way a stored value is observed: no bare reference outlives the call,
    /// so none can outlive the thread or process whose registry produced it.
    pub fn with<V, R, G: FnOnce(&V) -> R>(&self, registry: &mut Registry<V>, f: G) -> (r: R) where
        F: Fn() -> V + Copy,

        requires
            old(registry).wf(),
            !old(registry)@.contains_key(self.id_view()) ==> call_requires(
                self.initializer(),
                (),
            ),
            forall|v: &V|
                (if old(registry)@.contains_key(self.id_view()) {
                    *v == old(registry)@[self.id_view()]
                } else {
                    call_ensures(self.initializer(), (), *v)
                }) ==> #[trigger] call_requires(f, (v,)),
        ensures
            final(registry).wf(),
            final(registry)@.contains_key(self.id_view()),
            final(registry)@ == get_or_init_map(
                old(registry)@,
                self.id_view(),
                final(registry)@[self.id_view()],
            ),
            final(registry).entry_seq() == get_or_init_seq(
                old(registry).entry_seq(),
                self.id_view(),
                final(registry)@[self.id_view()],
            ),
            old(registry)@.contains_key(self.id_view()) ==> *final(registry) == *old(registry),
            !old(registry)@.contains_key(self.id_view()) ==> call_ensures(
                self.initializer(),
                (),
                final(registry)@[self.id_view()],
            ),
            call_ensures(f, (&final(registry)@[self.id_view()],), r),
    {
        let init = self.init;
        let slot = registry.get_or_init(&self.id, init);
        let value = registry.read(slot);
        f(value)
    }
}

} // verus!
