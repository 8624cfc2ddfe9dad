//! The identity-key wrapper for the atomically reference-counted weak
//! pointer `std::sync::Weak`, built on the adapters of [`crate::sync`].

use vstd::prelude::*;

verus! {

use crate::generic;
use crate::generic::Weak;
use crate::sync::Strong;
use crate::sync::WeakRef;

/// A thin wrapper around a weak atomically reference-counted pointer
/// suitable for use as a key.
///
/// Equality and comparisons are defined in terms of the identity key of
/// the allocation, and the hash value agrees with them. This is stable in
/// the presence of interior mutability and when the pointee is dropped:
/// the key keeps its equality and ordering relations to previously derived
/// keys after the allocation is gone.
#[verifier::reject_recursive_types(T)]
pub struct WeakKey<T> {
    inner: generic::WeakKey<WeakRef<T>>,
}

impl<T> WeakKey<T> {
    /// The weak adapter this wrapper holds.
    pub closed spec fn weak_spec(&self) -> WeakRef<T> {
        self.inner.inner_spec()
    }

    /// The identity key this wrapper compares, orders and hashes by.
    pub open spec fn key_spec(&self) -> usize {
        self.weak_spec().key_spec()
    }

    /// Returns a [`WeakKey`] with the inner weak adapter.
    pub fn new(inner: WeakRef<T>) -> (r: Self)
        ensures
            r.weak_spec() == inner,
    {
        WeakKey { inner: generic::WeakKey::new(inner) }
    }

    /// Returns a [`WeakKey`] for the allocation a strong adapter holds, by
    /// downgrading it: the key is equal to the strong adapter's key, and
    /// the wrapper does not keep the pointee alive.
    pub fn from_strong(s: &Strong<T>) -> (r: Self)
        ensures
            r.key_spec() == s.key_spec(),
    {
        WeakKey::new(s.downgrade())
    }

    /// Returns the inner weak adapter, unchanged.
    pub fn into_inner(self) -> (r: WeakRef<T>)
        ensures
            r == self.weak_spec(),
    {
        self.inner.into_inner()
    }

    /// Returns a reference to the inner weak adapter.
    pub fn inner(&self) -> (r: &WeakRef<T>)
        ensures
            *r == self.weak_spec(),
    {
        self.inner.inner()
    }

    /// Attempts to upgrade the weak pointer to a strong adapter, delaying
    /// dropping of the pointee if successful.
    ///
    /// Returns `None` exactly when the pointee had no strong reference
    /// left at the moment of the call; a returned strong adapter shares
    /// the identity key. Under a race with a final release on another
    /// thread, either outcome is possible and both are valid.
    pub fn upgrade(&self) -> (r: Option<Strong<T>>)
        ensures
            r matches Some(s) ==> s.key_spec() == self.key_spec(),
    {
        self.inner.upgrade()
    }

    /// Returns the identity key.
    pub fn key(&self) -> (r: usize)
        ensures
            r == self.key_spec(),
    {
        self.inner.key()
    }

    /// Renders the wrapper for debugging: the identity key in hexadecimal,
    /// and nothing of the pointee.
    pub fn render(&self) -> (s: String)
        ensures
            s@ == generic::render_spec(self.key_spec()),
    {
        self.inner.render()
    }

    /// The hash value of this wrapper: a function of the identity key
    /// alone, so keys that compare equal hash identically.
    pub fn hash_code(&self) -> (r: u64)
        ensures
            r == generic::key_hash(self.key_spec()),
    {
        self.inner.hash_code()
    }
}

impl<T> Clone for WeakKey<T> {
    /// The copy refers to the same allocation and carries the same
    /// identity key, so it compares equal to the original.
    fn clone(&self) -> (r: Self)
        ensures
            r.key_spec() == self.key_spec(),
    {
        WeakKey { inner: self.inner.clone() }
    }
}

impl<T> PartialEq for WeakKey<T> {
    fn eq(&self, other: &Self) -> (r: bool) {
        self.inner == other.inner
    }
}

impl<T> Eq for WeakKey<T> {}

impl<T> vstd::std_specs::cmp::PartialEqSpecImpl for WeakKey<T> {
    open spec fn obeys_eq_spec() -> bool {
        true
    }

    open spec fn eq_spec(&self, other: &Self) -> bool {
        self.key_spec() == other.key_spec()
    }
}

impl<T> PartialOrd for WeakKey<T> {
    fn partial_cmp(&self, other: &Self) -> (r: Option<core::cmp::Ordering>) {
        self.inner.partial_cmp(&other.inner)
    }
}

impl<T> vstd::std_specs::cmp::PartialOrdSpecImpl for WeakKey<T> {
    open spec fn obeys_partial_cmp_spec() -> bool {
        true
    }

    open spec fn partial_cmp_spec(&self, other: &Self) -> Option<core::cmp::Ordering> {
        if self.key_spec() < other.key_spec() {
            Some(core::cmp::Ordering::Less)
        } else if self.key_spec() == other.key_spec() {
            Some(core::cmp::Ordering::Equal)
        } else {
            Some(core::cmp::Ordering::Greater)
        }
    }
}

} // verus!
