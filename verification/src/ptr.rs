//! Address utilities: provably non-null addresses, typed by what they point
//! at.
//!
//! The disassembler treats pointers as data — display lists carry segmented
//! addresses, and caller-owned buffers are named by address — and never
//! dereferences them. An address is therefore modelled as a plain machine
//! word with a non-null invariant, and the `const` and `mut` wrappers keep
//! the intended access mode in the type.

use vstd::prelude::*;

verus! {

/// A non-null address, typed as pointing at a `T` that is never
/// dereferenced here.
#[verifier::reject_recursive_types(T)]
pub struct NonNullAddr<T> {
    addr: usize,
    marker: core::marker::PhantomData<T>,
}

impl<T> NonNullAddr<T> {
    /// The address as a plain machine word.
    pub closed spec fn spec_addr(self) -> usize {
        self.addr
    }

    /// The address is never null.
    #[verifier::type_invariant]
    pub closed spec fn wf(self) -> bool {
        self.addr != 0
    }

    /// Wraps `addr` if it is non-null.
    pub fn new(addr: usize) -> (r: Option<NonNullAddr<T>>)
        ensures
            match r {
                Some(p) => addr != 0 && p.spec_addr() == addr,
                None => addr == 0,
            },
    {
        if addr != 0 {
            Some(NonNullAddr { addr, marker: core::marker::PhantomData })
        } else {
            None
        }
    }

    /// The wrapped address.
    pub fn addr(&self) -> (r: usize)
        ensures
            r == self.spec_addr(),
            r != 0,
    {
        proof {
            use_type_invariant(self);
        }
        self.addr
    }
}

/// A wrapper around [`NonNullAddr`] that is explicitly a `const` address.
#[verifier::reject_recursive_types(T)]
pub struct NonNullConst<T> {
    inner: NonNullAddr<T>,
}

/// A wrapper around [`NonNullAddr`] that is explicitly a `mut` address.
#[verifier::reject_recursive_types(T)]
pub struct NonNullMut<T> {
    inner: NonNullAddr<T>,
}

impl<T> NonNullConst<T> {
    /// The address as a plain machine word.
    pub closed spec fn spec_addr(self) -> usize {
        self.inner.spec_addr()
    }

    /// Convert into a plain [`NonNullAddr`].
    pub fn into_nonnull(self) -> (r: NonNullAddr<T>)
        ensures
            r.spec_addr() == self.spec_addr(),
    {
        self.inner
    }

    /// Take a reference to the internal [`NonNullAddr`].
    pub fn as_nonnull(&self) -> (r: &NonNullAddr<T>)
        ensures
            r.spec_addr() == self.spec_addr(),
    {
        &self.inner
    }

    /// Creates a new `NonNullConst` if `addr` is non-null.
    pub fn new(addr: usize) -> (r: Option<NonNullConst<T>>)
        ensures
            match r {
                Some(p) => addr != 0 && p.spec_addr() == addr,
                None => addr == 0,
            },
    {
        match NonNullAddr::new(addr) {
            Some(inner) => Some(NonNullConst { inner }),
            None => None,
        }
    }

    /// Acquires the underlying address.
    pub fn as_ptr(&self) -> (r: usize)
        ensures
            r == self.spec_addr(),
            r != 0,
    {
        self.inner.addr()
    }
}

impl NonNullConst<()> {
    /// Creates a new untyped `NonNullConst` if `addr` is non-null.
    pub fn new_void(addr: usize) -> (r: Option<NonNullConst<()>>)
        ensures
            match r {
                Some(p) => addr != 0 && p.spec_addr() == addr,
                None => addr == 0,
            },
    {
        NonNullConst::new(addr)
    }
}

impl<T> NonNullMut<T> {
    /// The address as a plain machine word.
    pub closed spec fn spec_addr(self) -> usize {
        self.inner.spec_addr()
    }

    /// Convert into a plain [`NonNullAddr`].
    pub fn into_nonnull(self) -> (r: NonNullAddr<T>)
        ensures
            r.spec_addr() == self.spec_addr(),
    {
        self.inner
    }

    /// Take a reference to the internal [`NonNullAddr`].
    pub fn as_nonnull(&self) -> (r: &NonNullAddr<T>)
        ensures
            r.spec_addr() == self.spec_addr(),
    {
        &self.inner
    }

    /// Creates a new `NonNullMut` if `addr` is non-null.
    pub fn new(addr: usize) -> (r: Option<NonNullMut<T>>)
        ensures
            match r {
                Some(p) => addr != 0 && p.spec_addr() == addr,
                None => addr == 0,
            },
    {
        match NonNullAddr::new(addr) {
            Some(inner) => Some(NonNullMut { inner }),
            None => None,
        }
    }

    /// Acquires the underlying address.
    pub fn as_ptr(&self) -> (r: usize)
        ensures
            r == self.spec_addr(),
            r != 0,
    {
        self.inner.addr()
    }
}

impl NonNullMut<()> {
    /// Creates a new untyped `NonNullMut` if `addr` is non-null.
    pub fn new_void(addr: usize) -> (r: Option<NonNullMut<()>>)
        ensures
            match r {
                Some(p) => addr != 0 && p.spec_addr() == addr,
                None => addr == 0,
            },
    {
        NonNullMut::new(addr)
    }
}

} // verus!
