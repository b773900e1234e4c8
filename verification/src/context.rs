//! The boundary contract carried from the host image into consuming images.
//!
//! The host owns the registries; every other image reaches them only through
//! a pair of opaque accessor handles.  A [`Context`] is that pair, built by
//! the host and handed over by value; [`Slots`] are an image's process-wide
//! installed-accessor slots, written exactly once, before the image's first
//! value access.  An access that finds its slot still empty is detected
//! cheaply and reported by the caller as a fatal error rather than reaching
//! storage that does not exist.

use vstd::prelude::*;

verus! {

/// The context installed in consuming images: the host's two accessors,
/// thread-local first, statics second.  It is plain data with no identity
/// beyond its two handles; two contexts built from the same accessors are
/// identical.
#[derive(Clone, Copy)]
pub struct Context<A> {
    tls: A,
    statics: A,
}

/// An image's installed-accessor slots: empty until a [`Context`] is
/// installed, filled exactly once, read on every value access.
pub struct Slots<A> {
    tls: Option<A>,
    statics: Option<A>,
}

impl<A> Context<A> {
    /// The thread-local accessor the context carries.
    pub closed spec fn tls_accessor(self) -> A {
        self.tls
    }

    /// The statics accessor the context carries.
    pub closed spec fn statics_accessor(self) -> A {
        self.statics
    }

    /// Builds the context from the host's two accessors.
    pub fn get(tls: A, statics: A) -> (c: Self)
        ensures
            c.tls_accessor() == tls,
            c.statics_accessor() == statics,
    {
        Context { tls, statics }
    }

    /// Installs the context's accessors into an image's slots.
    ///
    /// The caller must do this exactly once per consuming image, strictly
    /// before that image's first value access.
    pub fn initialize(self, slots: &mut Slots<A>)
        ensures
            final(slots).tls_slot() == Some(self.tls_accessor()),
            final(slots).statics_slot() == Some(self.statics_accessor()),
            final(slots).installed(),
    {
        slots.tls = Some(self.tls);
        slots.statics = Some(self.statics);
    }
}

impl<A> Slots<A> {
    /// The thread-local accessor slot.
    pub closed spec fn tls_slot(self) -> Option<A> {
        self.tls
    }

    /// The statics accessor slot.
    pub closed spec fn statics_slot(self) -> Option<A> {
        self.statics
    }

    /// Whether a context has been installed.
    pub open spec fn installed(self) -> bool {
        self.tls_slot() is Some && self.statics_slot() is Some
    }

    /// The slots of an image that is not itself the host: empty until a
    /// context is installed.
    pub fn empty() -> (s: Self)
        ensures
            s.tls_slot() is None,
            s.statics_slot() is None,
            !s.installed(),
    {
        Slots { tls: None, statics: None }
    }

    /// The host's own slots, holding its own accessors from the start.
    pub fn host(tls: A, statics: A) -> (s: Self)
        ensures
            s.tls_slot() == Some(tls),
            s.statics_slot() == Some(statics),
            s.installed(),
    {
        Slots { tls: Some(tls), statics: Some(statics) }
    }

    /// The installed thread-local accessor, or `None` when a value is
    /// accessed before any context was installed — the caller reports that
    /// as a fatal installation-order violation.
    pub fn tls_accessor(&self) -> (r: Option<&A>)
        ensures
            match r {
                Some(a) => self.tls_slot() == Some(*a),
                None => self.tls_slot() is None,
            },
    {
        self.tls.as_ref()
    }

    /// The installed statics accessor, or `None` before installation.
    pub fn statics_accessor(&self) -> (r: Option<&A>)
        ensures
            match r {
                Some(a) => self.statics_slot() == Some(*a),
                None => self.statics_slot() is None,
            },
    {
        self.statics.as_ref()
    }
}

} // verus!
